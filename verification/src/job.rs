//! The data exchanged between the broker, the engine and job handlers.

use vstd::prelude::*;

verus! {

/// A leased unit of work. It is never modified after activation.
#[derive(Clone, Debug, PartialEq, Eq)]
pub struct Job {
    /// Broker-assigned identifier of the lease.
    pub key: i64,
    /// The task type the job was activated for.
    pub job_type: String,
    /// The worker name sent with the activation request.
    pub worker: String,
    /// Retries the broker still grants.
    pub retries: i32,
    /// Instant after which the broker presumes the lease expired.
    pub deadline: i64,
    /// Encoded payload; opaque to the engine.
    pub variables: String,
}

/// What one activation call asks of the broker.
#[derive(Clone, Debug, PartialEq, Eq)]
pub struct ActivationRequest {
    pub job_type: String,
    pub worker_name: String,
    pub max_jobs_to_activate: usize,
    /// Lease duration granted to each activated job, in milliseconds.
    pub timeout: u64,
}

/// How a handler invocation ended.
#[derive(Clone, Debug, PartialEq, Eq)]
pub enum JobOutcome {
    /// The handler completed the job, optionally with new variables.
    Complete { updated_variables: Option<String> },
    /// The handler reported a business failure.
    Fail { error_message: String },
    /// The handler terminated abnormally.
    Unhandled,
}

/// What to do with a job whose handler terminated abnormally.
#[derive(Clone, Copy, Debug, PartialEq, Eq, Structural)]
pub enum FaultPolicy {
    /// Fail the job at the broker, which consumes one retry.
    ReportAsFailure,
    /// Make no call; the lease expires and the broker offers the job again.
    DropAndLetLeaseExpire,
}

/// When the scheduler polls after it has become idle.
#[derive(Clone, Copy, Debug, PartialEq, Eq, Structural)]
pub enum Cadence {
    /// Every `poll_interval`, whatever the previous batch held.
    Fixed,
    /// As soon as the pool has spare capacity, without an idle wait.
    Reactive,
}

/// The one remote call that closes a lease.
#[derive(Clone, Debug, PartialEq, Eq)]
pub enum ReportCall {
    CompleteJob { job_key: i64, updated_variables: Option<String> },
    FailJob { job_key: i64, error_message: String },
}

impl ReportCall {
    /// The job the call is about.
    pub open spec fn key(self) -> i64 {
        match self {
            ReportCall::CompleteJob { job_key, .. } => job_key,
            ReportCall::FailJob { job_key, .. } => job_key,
        }
    }

    /// The job the call is about.
    pub fn job_key(&self) -> (key: i64)
        ensures
            key == self.key(),
    {
        match self {
            ReportCall::CompleteJob { job_key, .. } => *job_key,
            ReportCall::FailJob { job_key, .. } => *job_key,
        }
    }
}

} // verus!
