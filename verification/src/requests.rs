//! Plain request values for the one-shot broker operations. The transport
//! that sends them lives outside this crate.

use vstd::prelude::*;
use vstd::string::*;

verus! {

/// One workflow definition to deploy: a resource name and its bytes.
#[derive(Clone, Debug, PartialEq, Eq)]
pub struct WorkflowRequestObject {
    pub name: String,
    pub definition: Vec<u8>,
}

/// The workflow definitions that a repeated field holds, in order.
pub uninterp spec fn definitions(field: protobuf::RepeatedField<WorkflowRequestObject>) -> Seq<
    WorkflowRequestObject,
>;

/// Calls `RepeatedField::from` on a vector: the field holds the items of
/// the vector, in their order.
#[verifier::external_body]
pub(crate) fn repeated(workflows: Vec<WorkflowRequestObject>) -> (field: protobuf::RepeatedField<
    WorkflowRequestObject,
>)
    ensures
        definitions(field) == workflows@,
{
    protobuf::RepeatedField::from(workflows)
}

/// A deployment of one or more workflow definitions.
#[derive(Debug, PartialEq, Eq)]
pub struct DeployWorkflowRequest {
    pub workflows: protobuf::RepeatedField<WorkflowRequestObject>,
}

/// Creation of one instance of a deployed workflow.
#[derive(Clone, Debug, PartialEq, Eq)]
pub struct CreateWorkflowInstanceRequest {
    pub bpmn_process_id: String,
    pub version: i32,
    /// Encoded variables of the new instance, if it starts with any.
    pub payload: Option<String>,
}

/// Completion of one job outside a worker.
#[derive(Clone, Debug, PartialEq, Eq)]
pub struct CompletedJobData {
    pub job_key: i64,
    /// Encoded variables to merge into the workflow instance, if any.
    pub payload: Option<String>,
}

/// Publication of one message to be correlated with waiting instances.
#[derive(Clone, Debug, PartialEq, Eq)]
pub struct PublishMessageRequest {
    pub name: String,
    pub correlation_key: String,
    pub time_to_live: i64,
    pub message_id: String,
    /// Encoded variables carried by the message, if any.
    pub payload: Option<String>,
}

/// `suffix` is the tail of `text`.
pub open spec fn has_suffix(text: Seq<char>, suffix: Seq<char>) -> bool {
    &&& suffix.len() <= text.len()
    &&& text.subrange(text.len() - suffix.len(), text.len() as int) == suffix
}

/// The resource name under which a BPMN definition is deployed: the given
/// name, extended by `.bpmn` unless it already ends in it.
pub open spec fn bpmn_resource_name(name: Seq<char>) -> Seq<char> {
    if has_suffix(name, ".bpmn"@) {
        name
    } else {
        name + ".bpmn"@
    }
}

/// Tells whether `text` ends in `suffix`, character by character.
pub fn ends_with(text: &str, suffix: &str) -> (found: bool)
    ensures
        found == has_suffix(text@, suffix@),
{
    let n: usize = text.unicode_len();
    let m: usize = suffix.unicode_len();
    if n < m {
        return false;
    }
    let start: usize = n - m;
    let mut i: usize = 0;
    while i < m
        invariant
            i <= m,
            n == text@.len(),
            m == suffix@.len(),
            start == n - m,
            forall|j: int| 0 <= j < i ==> text@[start + j] == suffix@[j],
        decreases m - i,
    {
        if text.get_char(start + i) != suffix.get_char(i) {
            assert(text@.subrange(start as int, n as int)[i as int] == text@[start + i]);
            return false;
        }
        i += 1;
    }
    assert(text@.subrange(start as int, n as int) =~= suffix@);
    true
}

} // verus!
