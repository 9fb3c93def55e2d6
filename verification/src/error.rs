//! Everything the client and the engine can report as gone wrong.

use vstd::prelude::*;
use vstd::string::*;

verus! {

/// Why a worker configuration was refused.
#[derive(Clone, Copy, Debug, PartialEq, Eq, Structural)]
pub enum ConfigProblem {
    /// The job type is the empty string.
    EmptyJobType,
    /// `max_concurrent_jobs` is zero.
    ZeroConcurrency,
}

/// A remote operation of the gateway. The calls that close a lease name
/// the job they are about.
#[derive(Clone, Copy, Debug, PartialEq, Eq, Structural)]
pub enum RemoteCall {
    Topology,
    ListWorkflows,
    DeployWorkflow,
    CreateWorkflowInstance,
    ActivateJobs,
    CompleteJob(i64),
    PublishMessage,
    FailJob(i64),
}

/// An error of the client or of a worker. Variants that stem from a remote
/// call carry the transport's description of the failure.
#[derive(Clone, Debug, PartialEq, Eq)]
pub enum Error {
    GatewayError(String),
    TopologyError(String),
    ListWorkflowsError(String),
    DeployWorkflowError(String),
    CreateWorkflowInstanceError(String),
    /// An activation call failed; the scheduler polls again on its cadence.
    ActivateJobError(String),
    /// The completion call for this job key failed; it is not repeated.
    CompleteJobError(i64, String),
    PublishMessageError(String),
    /// The failure call for this job key failed; it is not repeated.
    FailJobError(i64, String),
    JsonError(String),
    /// The worker configuration was refused; the worker never starts.
    ConfigurationError(ConfigProblem),
}

impl Error {
    /// The error that stands for the failure of `call`, with the
    /// transport's description of it.
    pub open spec fn failed(call: RemoteCall, detail: String) -> Error {
        match call {
            RemoteCall::Topology => Error::TopologyError(detail),
            RemoteCall::ListWorkflows => Error::ListWorkflowsError(detail),
            RemoteCall::DeployWorkflow => Error::DeployWorkflowError(detail),
            RemoteCall::CreateWorkflowInstance => Error::CreateWorkflowInstanceError(detail),
            RemoteCall::ActivateJobs => Error::ActivateJobError(detail),
            RemoteCall::CompleteJob(key) => Error::CompleteJobError(key, detail),
            RemoteCall::PublishMessage => Error::PublishMessageError(detail),
            RemoteCall::FailJob(key) => Error::FailJobError(key, detail),
        }
    }

    /// Names the failure of a remote call.
    pub fn of_failed(call: RemoteCall, detail: String) -> (error: Error)
        ensures
            error == Error::failed(call, detail),
    {
        match call {
            RemoteCall::Topology => Error::TopologyError(detail),
            RemoteCall::ListWorkflows => Error::ListWorkflowsError(detail),
            RemoteCall::DeployWorkflow => Error::DeployWorkflowError(detail),
            RemoteCall::CreateWorkflowInstance => Error::CreateWorkflowInstanceError(detail),
            RemoteCall::ActivateJobs => Error::ActivateJobError(detail),
            RemoteCall::CompleteJob(key) => Error::CompleteJobError(key, detail),
            RemoteCall::PublishMessage => Error::PublishMessageError(detail),
            RemoteCall::FailJob(key) => Error::FailJobError(key, detail),
        }
    }

    /// The fixed text that opens the message of each variant.
    pub open spec fn headline(self) -> Seq<char> {
        match self {
            Error::GatewayError(_) => "Gateway Error. "@,
            Error::TopologyError(_) => "Topology Error. "@,
            Error::ListWorkflowsError(_) => "List Workflows Error. "@,
            Error::DeployWorkflowError(_) => "Deploy Workflow Error. "@,
            Error::CreateWorkflowInstanceError(_) => "Create Workflow Instance Error. "@,
            Error::ActivateJobError(_) => "Activate Job Error. "@,
            Error::CompleteJobError(_, _) => "Complete Job Error. "@,
            Error::PublishMessageError(_) => "Publish Message Error. "@,
            Error::FailJobError(_, _) => "Fail Job Error. "@,
            Error::JsonError(_) => "Json Payload Serialization Error. "@,
            Error::ConfigurationError(_) => "Configuration Error. "@,
        }
    }

    /// What follows the headline: the transport's description, or the
    /// reason a configuration was refused.
    pub open spec fn detail(self) -> Seq<char> {
        match self {
            Error::GatewayError(d) => d@,
            Error::TopologyError(d) => d@,
            Error::ListWorkflowsError(d) => d@,
            Error::DeployWorkflowError(d) => d@,
            Error::CreateWorkflowInstanceError(d) => d@,
            Error::ActivateJobError(d) => d@,
            Error::CompleteJobError(_, d) => d@,
            Error::PublishMessageError(d) => d@,
            Error::FailJobError(_, d) => d@,
            Error::JsonError(d) => d@,
            Error::ConfigurationError(ConfigProblem::EmptyJobType) => "job type is empty"@,
            Error::ConfigurationError(ConfigProblem::ZeroConcurrency) => {
                "max_concurrent_jobs is zero"@
            },
        }
    }

    /// The job a failed report was about, if the error is one.
    pub open spec fn reported_key(self) -> Option<i64> {
        match self {
            Error::CompleteJobError(key, _) => Some(key),
            Error::FailJobError(key, _) => Some(key),
            _ => None,
        }
    }

    /// The job a failed report was about, if the error is one.
    pub fn job_key(&self) -> (key: Option<i64>)
        ensures
            key == self.reported_key(),
    {
        match self {
            Error::CompleteJobError(key, _) => Some(*key),
            Error::FailJobError(key, _) => Some(*key),
            _ => None,
        }
    }

    /// The message shown for this error: headline, then detail.
    pub fn message(&self) -> (text: String)
        ensures
            text@ == self.headline() + self.detail(),
    {
        match self {
            Error::GatewayError(d) => String::from_str("Gateway Error. ").concat(d.as_str()),
            Error::TopologyError(d) => String::from_str("Topology Error. ").concat(d.as_str()),
            Error::ListWorkflowsError(d) => String::from_str("List Workflows Error. ").concat(
                d.as_str(),
            ),
            Error::DeployWorkflowError(d) => String::from_str("Deploy Workflow Error. ").concat(
                d.as_str(),
            ),
            Error::CreateWorkflowInstanceError(d) => String::from_str(
                "Create Workflow Instance Error. ",
            ).concat(d.as_str()),
            Error::ActivateJobError(d) => String::from_str("Activate Job Error. ").concat(
                d.as_str(),
            ),
            Error::CompleteJobError(_, d) => String::from_str("Complete Job Error. ").concat(
                d.as_str(),
            ),
            Error::PublishMessageError(d) => String::from_str("Publish Message Error. ").concat(
                d.as_str(),
            ),
            Error::FailJobError(_, d) => String::from_str("Fail Job Error. ").concat(d.as_str()),
            Error::JsonError(d) => String::from_str("Json Payload Serialization Error. ").concat(
                d.as_str(),
            ),
            Error::ConfigurationError(ConfigProblem::EmptyJobType) => String::from_str(
                "Configuration Error. ",
            ).concat("job type is empty"),
            Error::ConfigurationError(ConfigProblem::ZeroConcurrency) => String::from_str(
                "Configuration Error. ",
            ).concat("max_concurrent_jobs is zero"),
        }
    }
}

} // verus!
