use std::time::Duration;

use crankshaft_engine::task::Execution;
use crankshaft_engine::Task;
use crankshaft_plugin::{JobCore, JobExecution, JobId};
use nonempty::NonEmpty;

#[test]
fn test_job_new_defaults() {
    let id = JobId::new("job-001");
    let exec = JobExecution::new("alpine:latest", "echo");
    let job = JobCore::new(id.clone(), exec);
    assert_eq!(job.id, id);
    assert_eq!(job.executions.head.program, "echo");
    assert!(job.name.is_none());
    assert!(job.volumes.is_empty());
    assert!(job.timeout.is_none());
}

#[test]
fn test_job_builder_chain() {
    let id = JobId::new("job-002");
    let exec = JobExecution::new("python:3.11", "python3")
        .with_args(vec!["script.py".into()])
        .with_env("ENV", "prod")
        .with_stdin("/tmp/in.txt")
        .with_stdout("/tmp/out.txt")
        .with_stderr("/tmp/err.txt")
        .with_work_dir("/workspace");

    let job = JobCore::new(id, exec)
        .with_name("my-job")
        .with_timeout(Duration::from_secs(60));

    assert_eq!(job.name.as_deref(), Some("my-job"));
    assert_eq!(job.executions.head.image, "python:3.11");
    assert_eq!(job.executions.head.args, vec!["script.py"]);
    assert_eq!(
        job.executions
            .head
            .env
            .iter()
            .find(|(k, _)| k == "ENV")
            .map(|(_, v)| v.as_str()),
        Some("prod")
    );
    assert_eq!(job.timeout, Some(Duration::from_secs(60)));
}

#[test]
fn test_job_multi_execution() {
    let id = JobId::new("job-multi");
    let first = JobExecution::new("alpine:latest", "setup.sh");
    let second = JobExecution::new("alpine:latest", "main.sh");
    let job = JobCore::new(id, first).push_execution(second);
    assert_eq!(job.executions.len(), 2);
    assert_eq!(job.executions.last().program, "main.sh");
}

#[test]
fn job_description_is_set_and_other_fields_kept() {
    let job = JobCore::new(JobId::new("j"), JobExecution::new("img", "prog"))
        .with_name("n")
        .with_description("d");
    assert_eq!(job.name.as_deref(), Some("n"));
    assert_eq!(job.description.as_deref(), Some("d"));
    assert_eq!(job.executions.len(), 1);
}

#[test]
fn from_task_parts_keeps_every_execution_in_order() {
    let executions = vec![
        JobExecution::new("a", "one"),
        JobExecution::new("b", "two"),
        JobExecution::new("c", "three"),
    ];
    let job = JobCore::from_task_parts(
        JobId::new("job-t"),
        Some("name".into()),
        None,
        executions,
        vec!["vol".into()],
    )
    .expect("three executions");
    assert_eq!(job.id, JobId::new("job-t"));
    assert_eq!(job.executions.len(), 3);
    let programs: Vec<&str> = job.executions.iter().map(|e| e.program.as_str()).collect();
    assert_eq!(programs, vec!["one", "two", "three"]);
    assert_eq!(job.name.as_deref(), Some("name"));
    assert!(job.description.is_none());
    assert_eq!(job.volumes, vec!["vol".to_string()]);
    assert!(job.timeout.is_none());
}

#[test]
fn from_task_parts_without_executions_is_none() {
    let job = JobCore::from_task_parts(JobId::new("job-e"), None, None, Vec::new(), Vec::new());
    assert!(job.is_none());
}

#[test]
fn from_task_converts_every_engine_execution() {
    let first = Execution::builder()
        .images(["alpine:latest", "busybox"])
        .expect("an image")
        .program("setup.sh")
        .args(vec!["--fast".to_string()])
        .work_dir("/work")
        .stdout("/tmp/out.txt")
        .env([("A".to_string(), "1".to_string()), ("B".to_string(), "2".to_string())])
        .build();
    let second = Execution::builder()
        .images(["ubuntu"])
        .expect("an image")
        .program("main.sh")
        .build();
    let mut executions = NonEmpty::new(first);
    executions.push(second);
    let task = Task::builder()
        .name("task-name")
        .executions(executions)
        .volumes(vec!["/shared".to_string()])
        .build();

    let job = JobCore::from_task(JobId::new("job-7"), &task);
    assert_eq!(job.id, JobId::new("job-7"));
    assert_eq!(job.name.as_deref(), Some("task-name"));
    assert!(job.description.is_none());
    assert_eq!(job.volumes, vec!["/shared".to_string()]);
    assert!(job.timeout.is_none());
    assert_eq!(job.executions.len(), 2);
    let head = &job.executions.head;
    assert_eq!(head.image, "alpine:latest");
    assert_eq!(head.program, "setup.sh");
    assert_eq!(head.args, vec!["--fast"]);
    assert_eq!(head.work_dir.as_deref(), Some("/work"));
    assert!(head.stdin.is_none());
    assert_eq!(head.stdout.as_deref(), Some("/tmp/out.txt"));
    assert_eq!(
        head.env,
        vec![("A".to_string(), "1".to_string()), ("B".to_string(), "2".to_string())]
    );
    assert_eq!(job.executions.last().image, "ubuntu");
    assert_eq!(job.executions.last().program, "main.sh");
}
