use zeebest::config::WorkerConfig;
use zeebest::error::ConfigProblem;
use zeebest::error::Error;
use zeebest::error::RemoteCall;
use zeebest::payload::encode;
use zeebest::payload::payload;
use zeebest::job::FaultPolicy;

fn options(job_type: &str, max_concurrent_jobs: usize) -> WorkerConfig {
    WorkerConfig {
        job_type: job_type.to_string(),
        worker_name: "w".to_string(),
        max_concurrent_jobs,
        poll_interval: 100,
        job_timeout: 5_000,
        on_handler_fault: FaultPolicy::ReportAsFailure,
    }
}

#[test]
fn error_messages_open_with_their_headline() {
    let d = || "refused".to_string();
    assert_eq!(Error::GatewayError(d()).message(), "Gateway Error. refused");
    assert_eq!(Error::TopologyError(d()).message(), "Topology Error. refused");
    assert_eq!(Error::ListWorkflowsError(d()).message(), "List Workflows Error. refused");
    assert_eq!(Error::DeployWorkflowError(d()).message(), "Deploy Workflow Error. refused");
    assert_eq!(
        Error::CreateWorkflowInstanceError(d()).message(),
        "Create Workflow Instance Error. refused"
    );
    assert_eq!(Error::ActivateJobError(d()).message(), "Activate Job Error. refused");
    assert_eq!(Error::CompleteJobError(7, d()).message(), "Complete Job Error. refused");
    assert_eq!(Error::PublishMessageError(d()).message(), "Publish Message Error. refused");
    assert_eq!(Error::FailJobError(7, d()).message(), "Fail Job Error. refused");
    assert_eq!(Error::JsonError(d()).message(), "Json Payload Serialization Error. refused");
}

#[test]
fn configuration_error_messages() {
    assert_eq!(
        Error::ConfigurationError(ConfigProblem::EmptyJobType).message(),
        "Configuration Error. job type is empty"
    );
    assert_eq!(
        Error::ConfigurationError(ConfigProblem::ZeroConcurrency).message(),
        "Configuration Error. max_concurrent_jobs is zero"
    );
}

#[test]
fn error_message_with_empty_detail() {
    assert_eq!(Error::GatewayError(String::new()).message(), "Gateway Error. ");
}

#[test]
fn only_report_errors_name_a_job() {
    assert_eq!(Error::CompleteJobError(7, "x".to_string()).job_key(), Some(7));
    assert_eq!(Error::FailJobError(-3, "x".to_string()).job_key(), Some(-3));
    assert_eq!(Error::ActivateJobError("x".to_string()).job_key(), None);
    assert_eq!(Error::ConfigurationError(ConfigProblem::EmptyJobType).job_key(), None);
}

#[test]
fn valid_options_pass() {
    assert_eq!(options("payment", 1).validate(), Ok(()));
    assert_eq!(options("payment", usize::MAX).validate(), Ok(()));
}

#[test]
fn empty_job_type_is_refused() {
    assert_eq!(
        options("", 4).validate(),
        Err(Error::ConfigurationError(ConfigProblem::EmptyJobType))
    );
}

#[test]
fn zero_concurrency_is_refused() {
    assert_eq!(
        options("payment", 0).validate(),
        Err(Error::ConfigurationError(ConfigProblem::ZeroConcurrency))
    );
}

#[test]
fn empty_job_type_is_named_first() {
    assert_eq!(
        options("", 0).validate(),
        Err(Error::ConfigurationError(ConfigProblem::EmptyJobType))
    );
}

#[test]
fn zero_durations_and_empty_worker_name_are_accepted() {
    let config = WorkerConfig {
        job_type: "t".to_string(),
        worker_name: String::new(),
        max_concurrent_jobs: 1,
        poll_interval: 0,
        job_timeout: 0,
        on_handler_fault: FaultPolicy::DropAndLetLeaseExpire,
    };
    assert_eq!(config.validate(), Ok(()));
}

#[test]
fn failed_calls_are_named_after_the_operation() {
    let d = || "unavailable".to_string();
    assert_eq!(Error::of_failed(RemoteCall::Topology, d()), Error::TopologyError(d()));
    assert_eq!(Error::of_failed(RemoteCall::ListWorkflows, d()), Error::ListWorkflowsError(d()));
    assert_eq!(Error::of_failed(RemoteCall::DeployWorkflow, d()), Error::DeployWorkflowError(d()));
    assert_eq!(
        Error::of_failed(RemoteCall::CreateWorkflowInstance, d()),
        Error::CreateWorkflowInstanceError(d())
    );
    assert_eq!(Error::of_failed(RemoteCall::ActivateJobs, d()), Error::ActivateJobError(d()));
    assert_eq!(Error::of_failed(RemoteCall::CompleteJob(5), d()), Error::CompleteJobError(5, d()));
    assert_eq!(Error::of_failed(RemoteCall::PublishMessage, d()), Error::PublishMessageError(d()));
    assert_eq!(Error::of_failed(RemoteCall::FailJob(-9), d()), Error::FailJobError(-9, d()));
}

#[test]
fn payload_keeps_text_and_names_encoding_failures() {
    assert_eq!(payload(Ok("{}".to_string())), Ok("{}".to_string()));
    assert_eq!(payload(Ok(String::new())), Ok(String::new()));
    assert_eq!(
        payload(Err("key must be a string".to_string())),
        Err(Error::JsonError("key must be a string".to_string()))
    );
}

#[test]
fn encode_writes_compact_json() {
    assert_eq!(encode(&serde_json::Value::Null), Ok("null".to_string()));
    assert_eq!(encode(&serde_json::Value::from(-3)), Ok("-3".to_string()));
    assert_eq!(encode(&serde_json::Value::from("a\"b")), Ok("\"a\\\"b\"".to_string()));
    let mut inner = serde_json::Map::new();
    inner.insert("paid".to_string(), serde_json::Value::from(true));
    let mut outer = serde_json::Map::new();
    outer.insert("order".to_string(), serde_json::Value::Object(inner));
    outer.insert("items".to_string(), serde_json::Value::Array(vec![serde_json::Value::from(1)]));
    let text = encode(&serde_json::Value::Object(outer)).unwrap();
    assert_eq!(text, "{\"items\":[1],\"order\":{\"paid\":true}}");
}
