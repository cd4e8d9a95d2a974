use crankshaft_plugin::{JobExecution, JobId, JobStatus, PluginError, PluginResult};

#[test]
fn test_connection_failed_message() {
    let err = PluginError::ConnectionFailed("refused".into());
    assert_eq!(err.message(), "connection failed: refused");
}

#[test]
fn test_job_not_found_message() {
    let id = JobId::new("job-404");
    let err = PluginError::JobNotFound(id);
    assert_eq!(err.message(), "job not found: job-404");
}

#[test]
fn test_invalid_response_message() {
    let err = PluginError::InvalidResponse("bad json".into());
    assert_eq!(err.message(), "invalid response: bad json");
}

#[test]
fn test_timeout_message() {
    let err = PluginError::Timeout;
    assert_eq!(err.message(), "timeout");
}

#[test]
fn test_unknown_message() {
    let err = PluginError::Unknown("something broke".into());
    assert_eq!(err.message(), "unknown error: something broke");
}

#[test]
fn test_plugin_result_ok() {
    let result: PluginResult<i32> = Ok(42);
    assert!(result.is_ok());
    assert_eq!(result.unwrap(), 42);
}

#[test]
fn test_plugin_result_err() {
    let result: PluginResult<i32> = Err(PluginError::Timeout);
    assert!(result.is_err());
}

#[test]
fn test_job_id_display() {
    let id = JobId::new("job-123");
    assert_eq!(id.as_str().to_string(), "job-123");
}

#[test]
fn test_job_id_as_str() {
    let id = JobId::new("job-abc");
    assert_eq!(id.as_str(), "job-abc");
}

#[test]
fn test_job_id_equality() {
    let a = JobId::new("job-1");
    let b = JobId::new("job-1");
    let c = JobId::new("job-2");
    assert_eq!(a, b);
    assert_ne!(a, c);
}

#[test]
fn test_pending_display() {
    assert_eq!(JobStatus::Pending.display_text(), "Pending");
}

#[test]
fn test_running_display() {
    assert_eq!(JobStatus::Running.display_text(), "Running");
}

#[test]
fn test_completed_display() {
    let s = JobStatus::Completed(vec![0]);
    assert_eq!(s.display_text(), "Completed: [0]");
}

#[test]
fn test_completed_multi_execution_display() {
    let s = JobStatus::Completed(vec![0, 0, 1]);
    assert_eq!(s.display_text(), "Completed: [0, 0, 1]");
}

#[test]
fn test_failed_display() {
    let s = JobStatus::Failed("out of memory".into());
    assert_eq!(s.display_text(), "Failed: out of memory");
}

#[test]
fn test_cancelled_display() {
    assert_eq!(JobStatus::Cancelled.display_text(), "Cancelled");
}

#[test]
fn test_is_terminal_completed() {
    assert!(JobStatus::Completed(vec![0]).is_terminal());
}

#[test]
fn test_is_terminal_failed() {
    assert!(JobStatus::Failed("err".into()).is_terminal());
}

#[test]
fn test_is_terminal_cancelled() {
    assert!(JobStatus::Cancelled.is_terminal());
}

#[test]
fn test_is_not_terminal_pending() {
    assert!(!JobStatus::Pending.is_terminal());
}

#[test]
fn test_is_not_terminal_running() {
    assert!(!JobStatus::Running.is_terminal());
}

#[test]
fn test_equality() {
    assert_eq!(JobStatus::Pending, JobStatus::Pending);
    assert_eq!(
        JobStatus::Completed(vec![0, 0]),
        JobStatus::Completed(vec![0, 0])
    );
    assert_ne!(
        JobStatus::Completed(vec![0]),
        JobStatus::Completed(vec![1])
    );
    assert_eq!(JobStatus::Failed("x".into()), JobStatus::Failed("x".into()));
    assert_ne!(JobStatus::Failed("x".into()), JobStatus::Failed("y".into()));
}

#[test]
fn test_clone() {
    let a = JobStatus::Running;
    let b = a.clone();
    assert_eq!(a, b);
}

#[test]
fn completed_display_renders_negative_and_extreme_codes() {
    let s = JobStatus::Completed(vec![-1, 137, i32::MIN, i32::MAX]);
    assert_eq!(
        s.display_text(),
        "Completed: [-1, 137, -2147483648, 2147483647]"
    );
}

#[test]
fn completed_display_of_no_codes_is_empty_brackets() {
    assert_eq!(JobStatus::Completed(vec![]).display_text(), "Completed: []");
}

#[test]
fn job_id_equality_follows_text() {
    assert_eq!(JobId::new(""), JobId::new(""));
    assert_ne!(JobId::new("a"), JobId::new("A"));
}

#[test]
fn execution_new_has_empty_defaults() {
    let exec = JobExecution::new("alpine:latest", "echo");
    assert_eq!(exec.image, "alpine:latest");
    assert_eq!(exec.program, "echo");
    assert!(exec.args.is_empty());
    assert!(exec.work_dir.is_none());
    assert!(exec.stdin.is_none());
    assert!(exec.stdout.is_none());
    assert!(exec.stderr.is_none());
    assert!(exec.env.is_empty());
}

#[test]
fn execution_builder_chain_sets_each_field() {
    let exec = JobExecution::new("python:3.11", "python3")
        .with_args(vec!["script.py".into()])
        .with_env("ENV", "prod")
        .with_stdin("/tmp/in.txt")
        .with_stdout("/tmp/out.txt")
        .with_stderr("/tmp/err.txt")
        .with_work_dir("/workspace");
    assert_eq!(exec.image, "python:3.11");
    assert_eq!(exec.args, vec!["script.py"]);
    assert_eq!(exec.env, vec![("ENV".to_string(), "prod".to_string())]);
    assert_eq!(exec.stdin.as_deref(), Some("/tmp/in.txt"));
    assert_eq!(exec.stdout.as_deref(), Some("/tmp/out.txt"));
    assert_eq!(exec.stderr.as_deref(), Some("/tmp/err.txt"));
    assert_eq!(exec.work_dir.as_deref(), Some("/workspace"));
}

#[test]
fn execution_env_later_write_wins_and_names_stay_distinct() {
    let exec = JobExecution::new("alpine", "sh")
        .with_env("A", "1")
        .with_env("B", "2")
        .with_env("A", "3");
    assert_eq!(exec.env.len(), 2);
    let a: Vec<&String> = exec.env.iter().filter(|(k, _)| k == "A").map(|(_, v)| v).collect();
    let b: Vec<&String> = exec.env.iter().filter(|(k, _)| k == "B").map(|(_, v)| v).collect();
    assert_eq!(a, vec!["3"]);
    assert_eq!(b, vec!["2"]);
}

#[test]
fn execution_with_env_removes_duplicate_names_keeping_the_last() {
    let mut exec = JobExecution::new("alpine", "sh");
    exec.env = vec![
        ("X".to_string(), "old".to_string()),
        ("Y".to_string(), "1".to_string()),
        ("X".to_string(), "new".to_string()),
    ];
    let exec = exec.with_env("Z", "2");
    assert_eq!(exec.env.len(), 3);
    let x: Vec<&String> = exec.env.iter().filter(|(k, _)| k == "X").map(|(_, v)| v).collect();
    assert_eq!(x, vec!["new"]);
    let z: Vec<&String> = exec.env.iter().filter(|(k, _)| k == "Z").map(|(_, v)| v).collect();
    assert_eq!(z, vec!["2"]);
}
