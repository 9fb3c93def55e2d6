//! The activation poller: what one activation call asks for, and what its
//! answer amounts to.

use crate::config::WorkerConfig;
use crate::error::Error;
use crate::error::RemoteCall;
use crate::job::ActivationRequest;
use crate::job::Job;
use vstd::prelude::*;

verus! {

/// The request that asks the broker for at most `amount` jobs on behalf of
/// the worker that `config` describes.
pub open spec fn request_for(config: WorkerConfig, amount: usize) -> ActivationRequest {
    ActivationRequest {
        job_type: config.job_type,
        worker_name: config.worker_name,
        max_jobs_to_activate: amount,
        timeout: config.job_timeout,
    }
}

/// The batch an activation call produced, or the error it failed with.
pub open spec fn activation_outcome(response: Result<Vec<Job>, String>) -> Result<
    Vec<Job>,
    Error,
> {
    match response {
        Ok(jobs) => Ok(jobs),
        Err(detail) => Err(Error::ActivateJobError(detail)),
    }
}

/// Builds the request of one poll cycle.
pub fn activation_request(config: &WorkerConfig, amount: usize) -> (request: ActivationRequest)
    ensures
        request == request_for(*config, amount),
{
    ActivationRequest {
        job_type: config.job_type.clone(),
        worker_name: config.worker_name.clone(),
        max_jobs_to_activate: amount,
        timeout: config.job_timeout,
    }
}

/// Turns the answer of the activation call into a batch of jobs, which may
/// be empty, or into the activation error to surface.
pub fn collect(response: Result<Vec<Job>, String>) -> (batch: Result<Vec<Job>, Error>)
    ensures
        batch == activation_outcome(response),
{
    match response {
        Ok(jobs) => Ok(jobs),
        Err(detail) => Err(Error::of_failed(RemoteCall::ActivateJobs, detail)),
    }
}

} // verus!
