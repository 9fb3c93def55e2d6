//! Which deployed version of a workflow a new instance should run.

use vstd::prelude::*;
use vstd::std_specs::convert::FromSpecImpl;

verus! {

/// Selects the version of a workflow definition.
#[derive(Clone, Copy, Debug)]
pub enum WorkflowVersion {
    /// Whatever version is newest on the broker at creation time.
    Latest,
    /// A fixed version number.
    Version(i32),
}

/// The number the broker reads as "newest version".
pub const LATEST_VERSION: i32 = -1;

impl WorkflowVersion {
    /// The number sent on the wire for this selection.
    pub open spec fn wire(self) -> int {
        match self {
            WorkflowVersion::Latest => -1,
            WorkflowVersion::Version(v) => v as int,
        }
    }
}

impl From<WorkflowVersion> for i32 {
    fn from(version: WorkflowVersion) -> (wire: i32)
        ensures
            wire == version.wire(),
    {
        match version {
            WorkflowVersion::Latest => LATEST_VERSION,
            WorkflowVersion::Version(v) => v,
        }
    }
}

impl FromSpecImpl<WorkflowVersion> for i32 {
    open spec fn obeys_from_spec() -> bool {
        true
    }

    open spec fn from_spec(version: WorkflowVersion) -> i32 {
        match version {
            WorkflowVersion::Latest => -1i32,
            WorkflowVersion::Version(v) => v,
        }
    }
}

} // verus!
