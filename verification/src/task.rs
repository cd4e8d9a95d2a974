//! Reading an engine task: the calls that take the plain values out of the
//! engine's `Task` and `Execution`, and the verified conversion of a task
//! into a job.

use crankshaft_engine::task::Execution;
use crankshaft_engine::Task;
use vstd::prelude::*;
use crate::job::{env_names_distinct, JobCore, JobExecution, JobId};

verus! {

#[verifier::external_type_specification]
#[verifier::external_body]
pub struct ExEngineTask(Task);

#[verifier::external_type_specification]
#[verifier::external_body]
pub struct ExEngineExecution(Execution);

/// `Task::name`, converted to an owned string. Which name a task carries
/// is not stated.
#[verifier::external_body]
fn task_name(task: &Task) -> Option<String> {
    task.name().map(String::from)
}

/// `Task::description`, converted to an owned string. Which description a
/// task carries is not stated.
#[verifier::external_body]
fn task_description(task: &Task) -> Option<String> {
    task.description().map(String::from)
}

/// `Task::executions`, collected in order. The task holds its executions
/// in a non-empty list and the iterator yields every one of them, so there
/// is at least one; which they are is not stated.
#[verifier::external_body]
fn task_executions<'a>(task: &'a Task) -> (res: Vec<&'a Execution>)
    ensures
        res@.len() >= 1,
{
    task.executions().collect()
}

/// `Task::shared_volumes`, collected in order as owned strings. Which
/// volumes a task shares is not stated.
#[verifier::external_body]
fn task_shared_volumes(task: &Task) -> Vec<String> {
    task.shared_volumes().map(String::from).collect()
}

/// `Execution::images`, collected in order as owned strings. The execution
/// holds its images in a non-empty list, so there is at least one; which
/// they are is not stated.
#[verifier::external_body]
fn execution_images(execution: &Execution) -> (res: Vec<String>)
    ensures
        res@.len() >= 1,
{
    execution.images().iter().cloned().collect()
}

/// `Execution::program`, converted to an owned string; not stated further.
#[verifier::external_body]
fn execution_program(execution: &Execution) -> String {
    execution.program().to_string()
}

/// `Execution::args`, copied into a vector; not stated further.
#[verifier::external_body]
fn execution_args(execution: &Execution) -> Vec<String> {
    execution.args().to_vec()
}

/// `Execution::work_dir`, converted to an owned string; not stated further.
#[verifier::external_body]
fn execution_work_dir(execution: &Execution) -> Option<String> {
    execution.work_dir().map(String::from)
}

/// `Execution::stdin`, converted to an owned string; not stated further.
#[verifier::external_body]
fn execution_stdin(execution: &Execution) -> Option<String> {
    execution.stdin().map(String::from)
}

/// `Execution::stdout`, converted to an owned string; not stated further.
#[verifier::external_body]
fn execution_stdout(execution: &Execution) -> Option<String> {
    execution.stdout().map(String::from)
}

/// `Execution::stderr`, converted to an owned string; not stated further.
#[verifier::external_body]
fn execution_stderr(execution: &Execution) -> Option<String> {
    execution.stderr().map(String::from)
}

/// `Execution::env`, the execution's environment map, copied in its order
/// into `(name, value)` pairs. The map's keys are distinct strings, so no
/// name occurs twice among the pairs; which they are is not stated.
#[verifier::external_body]
fn execution_env(execution: &Execution) -> (res: Vec<(String, String)>)
    ensures
        env_names_distinct(res@),
{
    execution.env().iter().map(|(k, v)| (k.clone(), v.clone())).collect()
}

impl JobExecution {
    /// The job execution that an engine execution describes: its first
    /// image, its program, arguments, working directory, redirections and
    /// environment. The environment names come out distinct.
    pub fn from_engine(execution: &Execution) -> (res: Self)
        ensures
            env_names_distinct(res.env@),
    {
        let mut images = execution_images(execution);
        let image = images.swap_remove(0);
        JobExecution {
            image,
            program: execution_program(execution),
            args: execution_args(execution),
            work_dir: execution_work_dir(execution),
            stdin: execution_stdin(execution),
            stdout: execution_stdout(execution),
            stderr: execution_stderr(execution),
            env: execution_env(execution),
        }
    }
}

impl JobCore {
    /// Builds a job from an engine task, given an id assigned by the caller
    /// (the task carries none): every execution of the task, in order, as
    /// [`JobExecution::from_engine`] converts it, the task's name,
    /// description and shared volumes, and no timeout.
    pub fn from_task(id: JobId, task: &Task) -> (res: Self)
        ensures
            res.id@ == id@,
            res.executions_view().len() >= 1,
            res.timeout is None,
    {
        let engine_executions = task_executions(task);
        let mut executions: Vec<JobExecution> = Vec::new();
        let mut i: usize = 0;
        while i < engine_executions.len()
            invariant
                i <= engine_executions@.len(),
                executions@.len() == i,
            decreases engine_executions@.len() - i,
        {
            executions.push(JobExecution::from_engine(engine_executions[i]));
            i = i + 1;
        }
        let name = task_name(task);
        let description = task_description(task);
        let volumes = task_shared_volumes(task);
        JobCore::from_task_parts(id, name, description, executions, volumes).unwrap()
    }
}

} // verus!
