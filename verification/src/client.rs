//! The client: the broker endpoint, the requests of the one-shot
//! operations, and the entry point to workers.

use crate::error::Error;
use crate::job::ReportCall;
use crate::payload::encode;
use crate::payload::json_text;
use crate::requests::CompletedJobData;
use crate::requests::CreateWorkflowInstanceRequest;
use crate::requests::DeployWorkflowRequest;
use crate::requests::PublishMessageRequest;
use crate::requests::WorkflowRequestObject;
use crate::requests::bpmn_resource_name;
use crate::requests::definitions;
use crate::requests::ends_with;
use crate::requests::repeated;
use crate::version::WorkflowVersion;
use crate::worker::Worker;
use vstd::prelude::*;
use vstd::string::*;

verus! {

/// A client of one broker, identified by the endpoint of its gateway.
#[derive(Debug, PartialEq, Eq)]
pub struct Client {
    host: String,
    port: u16,
}

impl Clone for Client {
    fn clone(&self) -> (copy: Client)
        ensures
            copy == *self,
    {
        Client { host: self.host.clone(), port: self.port }
    }
}

impl Client {
    /// The host of the gateway.
    pub closed spec fn spec_host(&self) -> Seq<char> {
        self.host@
    }

    /// The port of the gateway.
    pub closed spec fn spec_port(&self) -> u16 {
        self.port
    }

    /// A client of the broker whose gateway listens at `host` and `port`.
    /// An empty host names no gateway and is refused.
    pub fn new(host: &str, port: u16) -> (client: Result<Client, Error>)
        ensures
            match client {
                Ok(client) => {
                    &&& host@.len() > 0
                    &&& client.spec_host() == host@
                    &&& client.spec_port() == port
                },
                Err(error) => {
                    &&& host@.len() == 0
                    &&& error matches Error::GatewayError(detail)
                    &&& detail@ == "host is empty"@
                },
            },
    {
        if host.is_empty() {
            Err(Error::GatewayError(String::from_str("host is empty")))
        } else {
            Ok(Client { host: String::from_str(host), port })
        }
    }

    /// The host of the gateway.
    pub fn host(&self) -> (host: &String)
        ensures
            host@ == self.spec_host(),
    {
        &self.host
    }

    /// The port of the gateway.
    pub fn port(&self) -> (port: u16)
        ensures
            port == self.spec_port(),
    {
        self.port
    }

    /// The request that deploys a single BPMN workflow. The definition is
    /// deployed under the given name, extended by `.bpmn` unless the name
    /// already ends in it.
    pub fn deploy_bpmn_workflow(
        &self,
        workflow_name: String,
        workflow_definition: Vec<u8>,
    ) -> (request: DeployWorkflowRequest)
        ensures
            definitions(request.workflows).len() == 1,
            definitions(request.workflows)[0].name@ == bpmn_resource_name(workflow_name@),
            definitions(request.workflows)[0].definition == workflow_definition,
    {
        let mut name = workflow_name;
        if !ends_with(name.as_str(), ".bpmn") {
            name.append(".bpmn");
        }
        let mut workflows: Vec<WorkflowRequestObject> = Vec::new();
        workflows.push(WorkflowRequestObject { name, definition: workflow_definition });
        DeployWorkflowRequest { workflows: repeated(workflows) }
    }

    /// The request that deploys the given workflow definitions, in order.
    pub fn deploy_workflows(&self, workflow_requests: Vec<WorkflowRequestObject>) -> (request:
        DeployWorkflowRequest)
        ensures
            definitions(request.workflows) == workflow_requests@,
    {
        DeployWorkflowRequest { workflows: repeated(workflow_requests) }
    }

    /// The request that creates an instance of a workflow whose variables
    /// are already encoded, or the error that encoding them gave.
    pub fn instance_request(
        bpmn_process_id: String,
        version: WorkflowVersion,
        encoded: Result<String, Error>,
    ) -> (request: Result<CreateWorkflowInstanceRequest, Error>)
        ensures
            request == match encoded {
                Ok(text) => Ok::<CreateWorkflowInstanceRequest, Error>(
                    CreateWorkflowInstanceRequest {
                        bpmn_process_id,
                        version: version.wire() as i32,
                        payload: Some(text),
                    },
                ),
                Err(error) => Err(error),
            },
    {
        match encoded {
            Ok(text) => Ok(
                CreateWorkflowInstanceRequest {
                    bpmn_process_id,
                    version: i32::from(version),
                    payload: Some(text),
                },
            ),
            Err(error) => Err(error),
        }
    }

    /// The request that creates an instance of a workflow with the given
    /// variables, encoded as the JSON text they hold. Where they cannot be
    /// written, the failure comes back as a `JsonError` and no request is
    /// built.
    pub fn create_workflow_instance(
        &self,
        bpmn_process_id: String,
        version: WorkflowVersion,
        value: &serde_json::Value,
    ) -> (request: Result<CreateWorkflowInstanceRequest, Error>)
        ensures
            match request {
                Ok(request) => {
                    &&& request.bpmn_process_id == bpmn_process_id
                    &&& request.version == version.wire()
                    &&& request.payload matches Some(text)
                    &&& json_text(*value) == Some(text@)
                },
                Err(error) => error is JsonError && json_text(*value) is None,
            },
    {
        Self::instance_request(bpmn_process_id, version, encode(value))
    }

    /// The request that creates an instance of a workflow without variables.
    pub fn create_workflow_instance_no_payload(
        &self,
        bpmn_process_id: String,
        version: WorkflowVersion,
    ) -> (request: CreateWorkflowInstanceRequest)
        ensures
            request.bpmn_process_id == bpmn_process_id,
            request.version == version.wire(),
            request.payload is None,
    {
        CreateWorkflowInstanceRequest {
            bpmn_process_id,
            version: i32::from(version),
            payload: None,
        }
    }

    /// The call that completes a job outside a worker.
    pub fn complete_job(&self, completed_job_data: CompletedJobData) -> (call: ReportCall)
        ensures
            call == (ReportCall::CompleteJob {
                job_key: completed_job_data.job_key,
                updated_variables: completed_job_data.payload,
            }),
    {
        ReportCall::CompleteJob {
            job_key: completed_job_data.job_key,
            updated_variables: completed_job_data.payload,
        }
    }

    /// The request that publishes a message whose variables are already
    /// encoded, or the error that encoding them gave.
    pub fn message_request(
        name: String,
        correlation_key: String,
        time_to_live: i64,
        message_id: String,
        encoded: Result<String, Error>,
    ) -> (request: Result<PublishMessageRequest, Error>)
        ensures
            request == match encoded {
                Ok(text) => Ok::<PublishMessageRequest, Error>(
                    PublishMessageRequest {
                        name,
                        correlation_key,
                        time_to_live,
                        message_id,
                        payload: Some(text),
                    },
                ),
                Err(error) => Err(error),
            },
    {
        match encoded {
            Ok(text) => Ok(
                PublishMessageRequest {
                    name,
                    correlation_key,
                    time_to_live,
                    message_id,
                    payload: Some(text),
                },
            ),
            Err(error) => Err(error),
        }
    }

    /// The request that publishes a message with the given variables,
    /// encoded as the JSON text they hold. Where they cannot be written,
    /// the failure comes back as a `JsonError` and no request is built.
    pub fn publish_message(
        &self,
        name: String,
        correlation_key: String,
        time_to_live: i64,
        message_id: String,
        payload: &serde_json::Value,
    ) -> (request: Result<PublishMessageRequest, Error>)
        ensures
            match request {
                Ok(request) => {
                    &&& request.name == name
                    &&& request.correlation_key == correlation_key
                    &&& request.time_to_live == time_to_live
                    &&& request.message_id == message_id
                    &&& request.payload matches Some(text)
                    &&& json_text(*payload) == Some(text@)
                },
                Err(error) => error is JsonError && json_text(*payload) is None,
            },
    {
        Self::message_request(name, correlation_key, time_to_live, message_id, encode(payload))
    }

    /// The request that publishes a message without variables.
    pub fn publish_message_no_payload(
        &self,
        name: String,
        correlation_key: String,
        time_to_live: i64,
        message_id: String,
    ) -> (request: PublishMessageRequest)
        ensures
            request.name == name,
            request.correlation_key == correlation_key,
            request.time_to_live == time_to_live,
            request.message_id == message_id,
            request.payload is None,
    {
        PublishMessageRequest { name, correlation_key, time_to_live, message_id, payload: None }
    }

    /// A worker of this client that identifies itself as `name`.
    pub fn worker(&self, name: &str) -> (worker: Worker)
        ensures
            worker.spec_name() == name@,
            worker.spec_client() == *self,
    {
        Worker::new(String::from_str(name), self.clone())
    }
}

} // verus!
