//! Job identifiers and the executions that make up a job.

use vstd::prelude::*;
use vstd::string::*;
use vstd::std_specs::cmp::PartialEqSpec;
use nonempty::NonEmpty;
use std::time::Duration;

verus! {

/// A unique identifier for a submitted job.
#[derive(Debug, Clone, Eq, Hash)]
pub struct JobId(String);

impl View for JobId {
    type V = Seq<char>;

    closed spec fn view(&self) -> Seq<char> {
        self.0@
    }
}

impl PartialEq for JobId {
    fn eq(&self, other: &Self) -> (res: bool) {
        self.0 == other.0
    }
}

impl vstd::std_specs::cmp::PartialEqSpecImpl for JobId {
    open spec fn obeys_eq_spec() -> bool {
        true
    }

    open spec fn eq_spec(&self, other: &Self) -> bool {
        self@ == other@
    }
}

/// Two job ids are equal exactly when their texts are.
pub proof fn lemma_job_ids_equal_iff_texts_equal(a: JobId, b: JobId)
    ensures
        a.eq_spec(&b) <==> a@ == b@,
{
}

impl JobId {
    /// Wraps the given text as a job identifier.
    pub fn new(id: &str) -> (res: Self)
        ensures
            res@ == id@,
    {
        JobId(String::from_str(id))
    }

    /// The identifier's text.
    pub fn as_str(&self) -> (res: &str)
        ensures
            res@ == self@,
    {
        self.0.as_str()
    }
}


/// The environment that a list of `(name, value)` pairs sets, read front to
/// back: a later pair for a name overrides an earlier one.
pub open spec fn env_map(pairs: Seq<(String, String)>) -> Map<Seq<char>, Seq<char>>
    decreases pairs.len(),
{
    if pairs.len() == 0 {
        Map::empty()
    } else {
        env_map(pairs.drop_last()).insert(pairs.last().0@, pairs.last().1@)
    }
}

/// No variable name occurs twice among the pairs.
pub open spec fn env_names_distinct(pairs: Seq<(String, String)>) -> bool {
    forall|i: int, j: int|
        0 <= i < j < pairs.len() ==> #[trigger] pairs[i].0@ != #[trigger] pairs[j].0@
}

/// The mathematical value of an execution step.
pub struct JobExecutionView {
    pub image: Seq<char>,
    pub program: Seq<char>,
    pub args: Seq<Seq<char>>,
    pub work_dir: Option<Seq<char>>,
    pub stdin: Option<Seq<char>>,
    pub stdout: Option<Seq<char>>,
    pub stderr: Option<Seq<char>>,
    pub env: Map<Seq<char>, Seq<char>>,
}

/// The view of an optional string.
pub open spec fn opt_view(o: Option<String>) -> Option<Seq<char>> {
    match o {
        Some(s) => Some(s@),
        None => None,
    }
}

/// One executable step within a job: a program run in a container image.
///
/// The environment is held as `(name, value)` pairs; for a name that occurs
/// more than once, the last pair sets its value. [`JobExecution::new`]
/// starts with no pairs, and [`JobExecution::with_env`] leaves every name
/// occurring once, whatever pairs it was given.
#[derive(Debug, Clone)]
pub struct JobExecution {
    pub image: String,
    pub program: String,
    pub args: Vec<String>,
    pub work_dir: Option<String>,
    pub stdin: Option<String>,
    pub stdout: Option<String>,
    pub stderr: Option<String>,
    pub env: Vec<(String, String)>,
}

impl View for JobExecution {
    type V = JobExecutionView;

    open spec fn view(&self) -> JobExecutionView {
        JobExecutionView {
            image: self.image@,
            program: self.program@,
            args: self.args@.map_values(|a: String| a@),
            work_dir: opt_view(self.work_dir),
            stdin: opt_view(self.stdin),
            stdout: opt_view(self.stdout),
            stderr: opt_view(self.stderr),
            env: env_map(self.env@),
        }
    }
}

proof fn lemma_env_map_push(pairs: Seq<(String, String)>, p: (String, String))
    ensures
        env_map(pairs.push(p)) == env_map(pairs).insert(p.0@, p.1@),
{
    assert(pairs.push(p).drop_last() =~= pairs);
}

/// The environment with one name looked up among the pairs: the names
/// the map holds are exactly the names that occur.
proof fn lemma_env_map_names(pairs: Seq<(String, String)>, name: Seq<char>)
    ensures
        env_map(pairs).dom().contains(name) <==> exists|j: int|
            0 <= j < pairs.len() && #[trigger] pairs[j].0@ == name,
    decreases pairs.len(),
{
    if pairs.len() > 0 {
        let rest = pairs.drop_last();
        lemma_env_map_names(rest, name);
        if env_map(pairs).dom().contains(name) && name != pairs.last().0@ {
            let j = choose|j: int| 0 <= j < rest.len() && #[trigger] rest[j].0@ == name;
            assert(pairs[j] == rest[j]);
        }
        if exists|j: int| 0 <= j < pairs.len() && #[trigger] pairs[j].0@ == name {
            let j = choose|j: int| 0 <= j < pairs.len() && #[trigger] pairs[j].0@ == name;
            if j < rest.len() {
                assert(rest[j] == pairs[j]);
            }
        }
    }
}

/// Putting a pair in front of others: a later pair for the same name still
/// overrides it.
proof fn lemma_env_map_prepend(p: (String, String), pairs: Seq<(String, String)>)
    ensures
        env_map(seq![p] + pairs) == if env_map(pairs).dom().contains(p.0@) {
            env_map(pairs)
        } else {
            env_map(pairs).insert(p.0@, p.1@)
        },
    decreases pairs.len(),
{
    let whole = seq![p] + pairs;
    if pairs.len() == 0 {
        assert(whole.drop_last() =~= Seq::<(String, String)>::empty());
        assert(whole.last() == p);
        assert(env_map(whole.drop_last()) == Map::<Seq<char>, Seq<char>>::empty());
        assert(env_map(whole) =~= Map::<Seq<char>, Seq<char>>::empty().insert(p.0@, p.1@));
    } else {
        let rest = pairs.drop_last();
        let last = pairs.last();
        assert(whole.drop_last() =~= seq![p] + rest);
        assert(whole.last() == last);
        lemma_env_map_prepend(p, rest);
        if env_map(rest).dom().contains(p.0@) {
            assert(env_map(whole) =~= env_map(pairs));
        } else if last.0@ == p.0@ {
            assert(env_map(pairs).dom().contains(p.0@));
            assert(env_map(whole) =~= env_map(pairs));
        } else {
            assert(!env_map(pairs).dom().contains(p.0@));
            assert(env_map(whole) =~= env_map(pairs).insert(p.0@, p.1@));
        }
    }
}

/// Whether `name` is among the names of `pairs`.
fn names_contain(pairs: &Vec<(String, String)>, name: &String) -> (res: bool)
    ensures
        res == env_map(pairs@).dom().contains(name@),
{
    let mut i: usize = 0;
    while i < pairs.len()
        invariant
            i <= pairs@.len(),
            forall|j: int| 0 <= j < i ==> #[trigger] pairs@[j].0@ != name@,
        decreases pairs@.len() - i,
    {
        if pairs[i].0 == *name {
            assert(pairs@[i as int].0@ == name@);
            proof {
                lemma_env_map_names(pairs@, name@);
            }
            return true;
        }
        i = i + 1;
    }
    proof {
        lemma_env_map_names(pairs@, name@);
    }
    false
}

impl JobExecutionView {
    /// The execution after `with_env(key, value)`.
    pub open spec fn with_env_var(self, key: Seq<char>, value: Seq<char>) -> JobExecutionView {
        JobExecutionView { env: self.env.insert(key, value), ..self }
    }
}

/// Setting an environment variable twice keeps the second value:
/// `with_env(k, a).with_env(k, b)` is `with_env(k, b)`, and `k` reads `b`.
pub proof fn lemma_with_env_last_write_wins(
    e: JobExecutionView,
    key: Seq<char>,
    first: Seq<char>,
    second: Seq<char>,
)
    ensures
        e.with_env_var(key, first).with_env_var(key, second) == e.with_env_var(key, second),
        e.with_env_var(key, first).with_env_var(key, second).env[key] == second,
{
    assert(e.env.insert(key, first).insert(key, second) =~= e.env.insert(key, second));
}

/// Setting two different environment variables gives the same execution in
/// either order, and each variable reads back the value written to it.
pub proof fn lemma_with_env_distinct_vars_commute(
    e: JobExecutionView,
    k1: Seq<char>,
    v1: Seq<char>,
    k2: Seq<char>,
    v2: Seq<char>,
)
    requires
        k1 != k2,
    ensures
        e.with_env_var(k1, v1).with_env_var(k2, v2) == e.with_env_var(k2, v2).with_env_var(
            k1,
            v1,
        ),
        e.with_env_var(k1, v1).with_env_var(k2, v2).env[k1] == v1,
        e.with_env_var(k1, v1).with_env_var(k2, v2).env[k2] == v2,
{
    assert(e.env.insert(k1, v1).insert(k2, v2) =~= e.env.insert(k2, v2).insert(k1, v1));
}

/// Setting an environment variable leaves every other variable, and every
/// other field, as it was.
pub proof fn lemma_with_env_keeps_other_vars(
    e: JobExecutionView,
    key: Seq<char>,
    value: Seq<char>,
    other: Seq<char>,
)
    requires
        other != key,
    ensures
        e.with_env_var(key, value).env.dom().contains(other) == e.env.dom().contains(other),
        e.with_env_var(key, value).env[other] == e.env[other],
        e.with_env_var(key, value).image == e.image,
        e.with_env_var(key, value).program == e.program,
        e.with_env_var(key, value).args == e.args,
{
}

impl JobExecution {
    /// An execution of `program` in `image`, with no arguments, no
    /// redirections, no working directory and an empty environment.
    pub fn new(image: &str, program: &str) -> (res: Self)
        ensures
            res@ == (JobExecutionView {
                image: image@,
                program: program@,
                args: Seq::empty(),
                work_dir: None,
                stdin: None,
                stdout: None,
                stderr: None,
                env: Map::empty(),
            }),
            env_names_distinct(res.env@),
    {
        let res = JobExecution {
            image: String::from_str(image),
            program: String::from_str(program),
            args: Vec::new(),
            work_dir: None,
            stdin: None,
            stdout: None,
            stderr: None,
            env: Vec::new(),
        };
        assert(res.args@.map_values(|a: String| a@) =~= Seq::<Seq<char>>::empty());
        res
    }

    /// Replaces the program's arguments.
    pub fn with_args(self, args: Vec<String>) -> (res: Self)
        ensures
            res@ == (JobExecutionView { args: args@.map_values(|a: String| a@), ..self@ }),
            res.env@ == self.env@,
    {
        JobExecution { args, ..self }
    }

    /// Sets the environment variable `key` to `value`, replacing any value
    /// it had. Afterwards no name occurs twice among the pairs; for a name
    /// that occurred more than once, the pair that set its value (the last
    /// one) is the one kept.
    pub fn with_env(self, key: &str, value: &str) -> (res: Self)
        ensures
            res@ == self@.with_env_var(key@, value@),
            env_names_distinct(res.env@),
    {
        let key_string = String::from_str(key);
        let value_string = String::from_str(value);
        let mut kept: Vec<(String, String)> = Vec::new();
        let mut i: usize = self.env.len();
        while i > 0
            invariant
                i <= self.env@.len(),
                key_string@ == key@,
                env_map(kept@) == env_map(self.env@.skip(i as int)).remove(key@),
                env_names_distinct(kept@),
            decreases i,
        {
            let entry = &self.env[i - 1];
            let ghost rest = self.env@.skip(i as int);
            proof {
                assert(self.env@.skip(i - 1) =~= seq![self.env@[i - 1]] + rest);
                lemma_env_map_prepend(self.env@[i - 1], rest);
            }
            if entry.0 == key_string {
                assert(env_map(kept@) =~= env_map(self.env@.skip(i - 1)).remove(key@));
            } else if names_contain(&kept, &entry.0) {
                assert(env_map(kept@) =~= env_map(self.env@.skip(i - 1)).remove(key@));
            } else {
                let copy = (entry.0.clone(), entry.1.clone());
                let ghost before = kept@;
                kept.push(copy);
                proof {
                    lemma_env_map_push(before, copy);
                    assert(env_map(kept@) =~= env_map(self.env@.skip(i - 1)).remove(key@));
                    assert forall|a: int, b: int| 0 <= a < b < kept@.len() implies
                        #[trigger] kept@[a].0@ != #[trigger] kept@[b].0@ by {
                        assert(kept@[a] == before[a]);
                        if b == before.len() {
                            lemma_env_map_names(before, copy.0@);
                        } else {
                            assert(kept@[b] == before[b]);
                        }
                    }
                }
            }
            i = i - 1;
        }
        proof {
            assert(self.env@.skip(0) =~= self.env@);
            lemma_env_map_names(kept@, key@);
        }
        let ghost before = kept@;
        let pair = (key_string, value_string);
        kept.push(pair);
        proof {
            lemma_env_map_push(before, pair);
            assert(env_map(kept@) =~= env_map(self.env@).insert(key@, value@));
            assert forall|a: int, b: int| 0 <= a < b < kept@.len() implies
                #[trigger] kept@[a].0@ != #[trigger] kept@[b].0@ by {
                assert(kept@[a] == before[a]);
                if b < before.len() {
                    assert(kept@[b] == before[b]);
                }
            }
        }
        JobExecution { env: kept, ..self }
    }

    /// Sets the working directory.
    pub fn with_work_dir(self, dir: &str) -> (res: Self)
        ensures
            res@ == (JobExecutionView { work_dir: Some(dir@), ..self@ }),
            res.env@ == self.env@,
    {
        JobExecution { work_dir: Some(String::from_str(dir)), ..self }
    }

    /// Sets the file that standard input is read from.
    pub fn with_stdin(self, path: &str) -> (res: Self)
        ensures
            res@ == (JobExecutionView { stdin: Some(path@), ..self@ }),
            res.env@ == self.env@,
    {
        JobExecution { stdin: Some(String::from_str(path)), ..self }
    }

    /// Sets the file that standard output is written to.
    pub fn with_stdout(self, path: &str) -> (res: Self)
        ensures
            res@ == (JobExecutionView { stdout: Some(path@), ..self@ }),
            res.env@ == self.env@,
    {
        JobExecution { stdout: Some(String::from_str(path)), ..self }
    }

    /// Sets the file that standard error is written to.
    pub fn with_stderr(self, path: &str) -> (res: Self)
        ensures
            res@ == (JobExecutionView { stderr: Some(path@), ..self@ }),
            res.env@ == self.env@,
    {
        JobExecution { stderr: Some(String::from_str(path)), ..self }
    }
}


#[verifier::external_type_specification]
#[verifier::external_body]
#[verifier::reject_recursive_types(T)]
pub struct ExNonEmpty<T>(NonEmpty<T>);

/// The executions a non-empty list holds, in order, by their views.
pub uninterp spec fn execution_views(executions: NonEmpty<JobExecution>) -> Seq<JobExecutionView>;

/// `NonEmpty::new`: a list holding just `execution`.
#[verifier::external_body]
fn executions_of_one(execution: JobExecution) -> (res: NonEmpty<JobExecution>)
    ensures
        execution_views(res) == seq![execution@],
{
    NonEmpty::new(execution)
}

/// `NonEmpty::push`: appends `execution` at the end of the list.
#[verifier::external_body]
fn push_to_executions(executions: &mut NonEmpty<JobExecution>, execution: JobExecution)
    ensures
        execution_views(*final(executions)) == execution_views(*old(executions)).push(
            execution@,
        ),
{
    executions.push(execution)
}

/// `NonEmpty::from_vec`: `None` for an empty vector, otherwise a list
/// holding the vector's elements in order.
#[verifier::external_body]
fn executions_from_vec(executions: Vec<JobExecution>) -> (res: Option<NonEmpty<JobExecution>>)
    ensures
        res is Some <==> executions@.len() > 0,
        res matches Some(list) ==> execution_views(list) == executions@.map_values(
            |e: JobExecution| e@,
        ),
{
    NonEmpty::from_vec(executions)
}

/// The part of a job that holds no floating point: its id, name,
/// description, one or more executions that run together, shared volumes
/// and timeout. The job's resource requests stand beside it.
#[derive(Debug)]
pub struct JobCore {
    pub id: JobId,
    pub name: Option<String>,
    pub description: Option<String>,
    pub executions: NonEmpty<JobExecution>,
    pub volumes: Vec<String>,
    /// The engine's task has no timeout of its own.
    pub timeout: Option<Duration>,
}

impl JobCore {
    /// The executions of the job, in order, by their views.
    pub open spec fn executions_view(&self) -> Seq<JobExecutionView> {
        execution_views(self.executions)
    }

    /// A job running the single `execution`, with no name, description,
    /// volumes or timeout.
    pub fn new(id: JobId, execution: JobExecution) -> (res: Self)
        ensures
            res.id == id,
            res.executions_view() == seq![execution@],
            res.name is None,
            res.description is None,
            res.volumes@.len() == 0,
            res.timeout is None,
    {
        JobCore {
            id,
            name: None,
            description: None,
            executions: executions_of_one(execution),
            volumes: Vec::new(),
            timeout: None,
        }
    }

    /// Sets the job's name.
    pub fn with_name(self, name: &str) -> (res: Self)
        ensures
            res.name matches Some(n) && n@ == name@,
            res.id == self.id,
            res.description == self.description,
            res.executions == self.executions,
            res.volumes == self.volumes,
            res.timeout == self.timeout,
    {
        JobCore { name: Some(String::from_str(name)), ..self }
    }

    /// Sets the job's description.
    pub fn with_description(self, description: &str) -> (res: Self)
        ensures
            res.description matches Some(d) && d@ == description@,
            res.id == self.id,
            res.name == self.name,
            res.executions == self.executions,
            res.volumes == self.volumes,
            res.timeout == self.timeout,
    {
        JobCore { description: Some(String::from_str(description)), ..self }
    }

    /// Sets the job's timeout.
    pub fn with_timeout(self, duration: Duration) -> (res: Self)
        ensures
            res.timeout == Some(duration),
            res.id == self.id,
            res.name == self.name,
            res.description == self.description,
            res.executions == self.executions,
            res.volumes == self.volumes,
    {
        JobCore { timeout: Some(duration), ..self }
    }

    /// Appends an execution that runs together with the others.
    pub fn push_execution(self, execution: JobExecution) -> (res: Self)
        ensures
            res.executions_view() == self.executions_view().push(execution@),
            res.id == self.id,
            res.name == self.name,
            res.description == self.description,
            res.volumes == self.volumes,
            res.timeout == self.timeout,
    {
        let mut job = self;
        push_to_executions(&mut job.executions, execution);
        job
    }

    /// The job that the parts of an engine task describe: all of
    /// `executions`, in order, and the given id, name, description and
    /// volumes, with no timeout; `None` when there is no execution.
    pub fn from_task_parts(
        id: JobId,
        name: Option<String>,
        description: Option<String>,
        executions: Vec<JobExecution>,
        volumes: Vec<String>,
    ) -> (res: Option<Self>)
        ensures
            res is Some <==> executions@.len() > 0,
            res matches Some(job) ==> {
                &&& job.executions_view() == executions@.map_values(|e: JobExecution| e@)
                &&& job.id == id
                &&& job.name == name
                &&& job.description == description
                &&& job.volumes == volumes
                &&& job.timeout is None
            },
    {
        match executions_from_vec(executions) {
            Some(list) => Some(
                JobCore { id, name, description, executions: list, volumes, timeout: None },
            ),
            None => None,
        }
    }
}

} // verus!
