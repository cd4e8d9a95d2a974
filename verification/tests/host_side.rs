use std::io;
use std::path::Path;
use std::time::Duration;

use crankshaft_plugin::{
    correlate_response, decode_rpc_error, resolve_reply, HostConfig, HostError, JobId,
    PluginError, RequestId, RpcErrorObject, RpcOutcome, RpcRequest, RpcResponse,
};
use serde_json::Value;

#[test]
fn test_new_defaults() {
    let config = HostConfig::new("/usr/local/bin/my-plugin");
    assert_eq!(Path::new(config.plugin_path()), Path::new("/usr/local/bin/my-plugin"));
    assert!(config.plugin_args().is_empty());
    assert_eq!(config.connect_retries(), 5);
    assert_eq!(config.connect_retry_delay(), Duration::from_millis(500));
    assert_eq!(config.poll_interval(), Duration::from_secs(1));
    assert_eq!(config.rpc_timeout(), Duration::from_secs(30));
}

#[test]
fn test_builder_chain() {
    let config = HostConfig::new("plugin-bin")
        .with_args(&["--verbose"])
        .with_connect_retries(10)
        .with_connect_retry_delay(Duration::from_millis(100))
        .with_poll_interval(Duration::from_millis(250))
        .with_rpc_timeout(Duration::from_secs(5));

    assert_eq!(config.plugin_args(), &["--verbose".to_string()]);
    assert_eq!(config.connect_retries(), 10);
    assert_eq!(config.connect_retry_delay(), Duration::from_millis(100));
    assert_eq!(config.poll_interval(), Duration::from_millis(250));
    assert_eq!(config.rpc_timeout(), Duration::from_secs(5));
}

#[test]
fn config_setter_keeps_other_fields_and_clone_is_equal() {
    let config = HostConfig::new("p").with_args(&["a", "b"]).with_connect_retries(0);
    let copy = config.clone();
    assert_eq!(copy.plugin_path(), "p");
    assert_eq!(copy.plugin_args(), &["a".to_string(), "b".to_string()]);
    assert_eq!(copy.connect_retries(), 0);
    assert_eq!(copy.connect_retry_delay(), Duration::from_millis(500));
}

#[test]
fn test_spawn_message() {
    let source = io::Error::new(io::ErrorKind::NotFound, "no such file or directory");
    let err = HostError::Spawn {
        path: "/usr/local/bin/my-plugin".into(),
        source,
    };
    assert_eq!(
        err.message(),
        "failed to spawn plugin binary `/usr/local/bin/my-plugin`: no such file or \
         directory"
    );
}

#[test]
fn test_process_exited_with_code() {
    let err = HostError::ProcessExited(Some(1));
    assert_eq!(
        err.message(),
        "plugin process exited unexpectedly (exit code: Some(1))"
    );
}

#[test]
fn test_process_exited_no_code() {
    let err = HostError::ProcessExited(None);
    assert_eq!(
        err.message(),
        "plugin process exited unexpectedly (exit code: None)"
    );
}

#[test]
fn test_process_io_error_passthrough() {
    let source = io::Error::new(io::ErrorKind::Other, "no such process");
    let err: HostError = source.into();
    assert_eq!(
        err.message(),
        "I/O error managing plugin process: no such process"
    );
}

#[test]
fn test_plugin_error_passthrough() {
    let err: HostError = PluginError::Timeout.into();
    assert_eq!(err.message(), "timeout");
}

#[test]
fn process_exited_with_negative_code() {
    let err = HostError::ProcessExited(Some(-9));
    assert_eq!(
        err.message(),
        "plugin process exited unexpectedly (exit code: Some(-9))"
    );
}

fn error_object(code: &str, message: &str) -> RpcErrorObject {
    RpcErrorObject { code: code.to_string(), message: message.to_string() }
}

#[test]
fn decode_maps_each_known_code() {
    assert_eq!(
        decode_rpc_error(error_object("connection_failed", "refused"), None),
        PluginError::ConnectionFailed("refused".into())
    );
    assert_eq!(decode_rpc_error(error_object("timeout", "slow"), None), PluginError::Timeout);
    assert_eq!(
        decode_rpc_error(error_object("invalid_response", "bad"), None),
        PluginError::InvalidResponse("bad".into())
    );
    let id = JobId::new("job-404");
    assert_eq!(
        decode_rpc_error(error_object("job_not_found", "job job-404 not found"), Some(&id)),
        PluginError::JobNotFound(JobId::new("job-404"))
    );
}

#[test]
fn decode_job_not_found_without_a_job_is_unknown() {
    assert_eq!(
        decode_rpc_error(error_object("job_not_found", "job job-404 not found"), None),
        PluginError::Unknown("job job-404 not found".into())
    );
}

#[test]
fn decode_unrecognized_code_falls_back_to_unknown() {
    let id = JobId::new("job-1");
    assert_eq!(
        decode_rpc_error(error_object("something_weird", "the plugin exploded"), Some(&id)),
        PluginError::Unknown("the plugin exploded".into())
    );
}

#[test]
fn resolve_reply_passes_results_and_decodes_errors() {
    let ok: Result<u32, RpcErrorObject> = Ok(7);
    assert_eq!(resolve_reply(ok, None), Ok(7));
    let id = JobId::new("job-9");
    let err: Result<u32, RpcErrorObject> = Err(error_object("job_not_found", "gone"));
    assert_eq!(resolve_reply(err, Some(&id)), Err(PluginError::JobNotFound(JobId::new("job-9"))));
}

#[test]
fn correlate_accepts_matching_success() {
    let response = RpcResponse::ok(RequestId(1), Value::from("pong"));
    let result = correlate_response(RequestId(1), response).expect("ids match");
    assert_eq!(result, Ok(Value::from("pong")));
}

#[test]
fn correlate_returns_raw_error_object() {
    let response = RpcResponse::err(RequestId(4), "job_not_found", "job job-404 not found");
    let result = correlate_response(RequestId(4), response).expect("ids match");
    let error = result.expect_err("plugin reported an error");
    assert_eq!(error.code, "job_not_found");
    assert_eq!(error.message, "job job-404 not found");
}

#[test]
fn correlate_rejects_mismatched_id() {
    let response = RpcResponse::ok(RequestId(999), Value::Null);
    let err = correlate_response(RequestId(1), response).expect_err("ids differ");
    assert_eq!(
        err,
        PluginError::InvalidResponse(
            "response id RequestId(999) did not match request id RequestId(1)".into()
        )
    );
}

#[test]
fn response_constructors_and_predicates() {
    let ok = RpcResponse::ok(RequestId(3), Value::Null);
    assert!(ok.is_ok());
    assert!(!ok.is_err());
    assert!(matches!(ok.outcome, RpcOutcome::Success { result } if result == Value::Null));
    let err = RpcResponse::err(RequestId(5), "timeout", "too slow");
    assert!(err.is_err());
    assert!(!err.is_ok());
    assert_eq!(err.id, RequestId(5));
}

#[test]
fn request_new_keeps_its_parts() {
    let request = RpcRequest::new(RequestId(2), crankshaft_plugin::method::SUBMIT, Value::from(3));
    assert_eq!(request.id, RequestId(2));
    assert_eq!(request.method, "submit");
    assert_eq!(request.params, Value::from(3));
}

#[test]
fn request_ids_run_from_one() {
    let mut ids = crankshaft_plugin::RequestIdCounter::new();
    assert_eq!(ids.next_request_id(), RequestId(1));
    assert_eq!(ids.next_request_id(), RequestId(2));
    assert_eq!(ids.next_request_id(), RequestId(3));
}

#[test]
fn protocol_types_clone_to_equal_parts() {
    let request = RpcRequest::new(RequestId(7), "status", Value::from("job-1"));
    let copy = request.clone();
    assert_eq!(copy.id, RequestId(7));
    assert_eq!(copy.method, "status");
    assert_eq!(copy.params, Value::from("job-1"));
    let response = RpcResponse::ok(RequestId(8), Value::Null);
    let copy = response.clone();
    assert_eq!(copy.id, RequestId(8));
    assert!(copy.is_ok());
    let outcome = copy.outcome.clone();
    assert!(matches!(outcome, RpcOutcome::Success { result } if result == Value::Null));
}

#[test]
fn builders_keep_plugin_path() {
    let config = HostConfig::new("/opt/plugin")
        .with_args(&["-v"])
        .with_connect_retries(1)
        .with_connect_retry_delay(Duration::from_millis(1))
        .with_poll_interval(Duration::from_millis(2))
        .with_rpc_timeout(Duration::from_millis(3));
    assert_eq!(Path::new(config.plugin_path()), Path::new("/opt/plugin"));
}

#[test]
fn requests_drawn_in_turn_carry_ids_one_two_three() {
    let mut ids = crankshaft_plugin::RequestIdCounter::new();
    let first = ids.next_request("submit", Value::Null);
    let second = ids.next_request("status", Value::from("job-1"));
    let third = ids.next_request_id();
    assert_eq!(first.id, RequestId(1));
    assert_eq!(first.method, "submit");
    assert_eq!(second.id, RequestId(2));
    assert_eq!(second.params, Value::from("job-1"));
    assert_eq!(third, RequestId(3));
}
