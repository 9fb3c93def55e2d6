//! The outcome reporter: which single remote call, if any, closes a lease.

use crate::job::FaultPolicy;
use crate::job::JobOutcome;
use crate::job::ReportCall;
use vstd::prelude::*;
use vstd::string::*;

verus! {

/// The state of a job that holds a slot of the dispatch pool.
#[derive(Clone, Copy, Debug, PartialEq, Eq, Structural)]
pub enum Phase {
    /// The handler is executing.
    Running,
    /// The completion call is in flight.
    Completing,
    /// The failure call is in flight.
    Failing,
}

/// The error message sent for a job whose handler terminated abnormally.
pub open spec fn fault_message() -> Seq<char> {
    "job handler terminated abnormally"@
}

/// The call in flight after a handler ended with `outcome`, or `None`
/// where the job is dropped and its lease left to expire.
pub open spec fn report_phase(outcome: JobOutcome, policy: FaultPolicy) -> Option<Phase> {
    match outcome {
        JobOutcome::Complete { .. } => Some(Phase::Completing),
        JobOutcome::Fail { .. } => Some(Phase::Failing),
        JobOutcome::Unhandled => match policy {
            FaultPolicy::ReportAsFailure => Some(Phase::Failing),
            FaultPolicy::DropAndLetLeaseExpire => None,
        },
    }
}

/// `call` is what the reporter owes the broker for job `key` after its
/// handler ended with `outcome`: explicit outcomes pass through unchanged,
/// a fault becomes a failure with the fixed fault message or no call at all.
pub open spec fn reports(
    call: Option<ReportCall>,
    key: i64,
    outcome: JobOutcome,
    policy: FaultPolicy,
) -> bool {
    match outcome {
        JobOutcome::Complete { updated_variables } => call == Some(
            ReportCall::CompleteJob { job_key: key, updated_variables },
        ),
        JobOutcome::Fail { error_message } => call == Some(
            ReportCall::FailJob { job_key: key, error_message },
        ),
        JobOutcome::Unhandled => match policy {
            FaultPolicy::ReportAsFailure => {
                &&& call matches Some(ReportCall::FailJob { job_key, error_message })
                &&& job_key == key
                &&& error_message@ == fault_message()
            },
            FaultPolicy::DropAndLetLeaseExpire => call is None,
        },
    }
}

/// The phase a slot enters when `call` is issued.
pub open spec fn phase_of_call(call: Option<ReportCall>) -> Option<Phase> {
    match call {
        Some(ReportCall::CompleteJob { .. }) => Some(Phase::Completing),
        Some(ReportCall::FailJob { .. }) => Some(Phase::Failing),
        None => None,
    }
}

/// The fault message is not empty.
pub proof fn lemma_fault_message_nonempty()
    ensures
        fault_message().len() > 0,
{
    reveal_strlit("job handler terminated abnormally");
}

/// Whatever the outcome and the policy, at most one call answers it, the
/// call names the job, and its kind is the phase the slot enters.
pub proof fn lemma_report_is_single(
    call: Option<ReportCall>,
    key: i64,
    outcome: JobOutcome,
    policy: FaultPolicy,
)
    requires
        reports(call, key, outcome, policy),
    ensures
        phase_of_call(call) == report_phase(outcome, policy),
        call matches Some(c) ==> c.key() == key,
        call is None <==> (outcome is Unhandled && policy is DropAndLetLeaseExpire),
{
}

/// The outcome of a handler invocation behind its isolation boundary: what
/// the handler returned, unchanged, or `Unhandled` where it terminated
/// abnormally and returned nothing.
pub fn supervised(returned: Option<JobOutcome>) -> (outcome: JobOutcome)
    ensures
        outcome == match returned {
            Some(outcome) => outcome,
            None => JobOutcome::Unhandled,
        },
{
    match returned {
        Some(outcome) => outcome,
        None => JobOutcome::Unhandled,
    }
}

/// Decides the remote call for job `key` whose handler ended with `outcome`.
pub fn decide_report(key: i64, outcome: JobOutcome, policy: FaultPolicy) -> (call: Option<
    ReportCall,
>)
    ensures
        reports(call, key, outcome, policy),
        phase_of_call(call) == report_phase(outcome, policy),
{
    match outcome {
        JobOutcome::Complete { updated_variables } => Some(
            ReportCall::CompleteJob { job_key: key, updated_variables },
        ),
        JobOutcome::Fail { error_message } => Some(
            ReportCall::FailJob { job_key: key, error_message },
        ),
        JobOutcome::Unhandled => match policy {
            FaultPolicy::ReportAsFailure => Some(
                ReportCall::FailJob {
                    job_key: key,
                    error_message: String::from_str("job handler terminated abnormally"),
                },
            ),
            FaultPolicy::DropAndLetLeaseExpire => None,
        },
    }
}

} // verus!
