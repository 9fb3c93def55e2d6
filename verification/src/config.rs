//! The options a worker is built with, and the check they must pass.

use crate::error::ConfigProblem;
use crate::error::Error;
use crate::job::FaultPolicy;
use vstd::prelude::*;

verus! {

/// The options of one worker. They do not change while the worker lives.
#[derive(Clone, Debug, PartialEq, Eq)]
pub struct WorkerConfig {
    /// The task type to activate jobs for.
    pub job_type: String,
    /// The name the worker identifies itself with in activation requests.
    pub worker_name: String,
    /// How many handlers may run at once.
    pub max_concurrent_jobs: usize,
    /// Time between two polls on a fixed cadence, in milliseconds.
    pub poll_interval: u64,
    /// Lease duration asked for each job, in milliseconds.
    pub job_timeout: u64,
    /// What happens to a job whose handler terminated abnormally.
    pub on_handler_fault: FaultPolicy,
}

impl WorkerConfig {
    /// The first reason to refuse these options, if there is one.
    pub open spec fn problem(&self) -> Option<ConfigProblem> {
        if self.job_type@.len() == 0 {
            Some(ConfigProblem::EmptyJobType)
        } else if self.max_concurrent_jobs == 0 {
            Some(ConfigProblem::ZeroConcurrency)
        } else {
            None
        }
    }

    /// A worker can be built from these options.
    pub open spec fn valid(&self) -> bool {
        self.problem() is None
    }

    /// Accepts the options, or names the first reason to refuse them.
    pub fn validate(&self) -> (checked: Result<(), Error>)
        ensures
            checked == match self.problem() {
                None => Ok::<(), Error>(()),
                Some(problem) => Err(Error::ConfigurationError(problem)),
            },
    {
        if self.job_type.as_str().is_empty() {
            Err(Error::ConfigurationError(ConfigProblem::EmptyJobType))
        } else if self.max_concurrent_jobs == 0 {
            Err(Error::ConfigurationError(ConfigProblem::ZeroConcurrency))
        } else {
            Ok(())
        }
    }
}

} // verus!
