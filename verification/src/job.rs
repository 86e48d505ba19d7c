//! What a job is: a named list of tasks, each one script or an ordered chain
//! of scripts, each script with the place where it runs and the shell that
//! runs it.

use crate::command::Failure;
use crate::text::{join, joined, to_debug_string, debug_text};
use vstd::prelude::*;
use vstd::string::*;

verus! {

/// Where a script runs.
#[derive(Debug, PartialEq, Eq)]
pub enum Destination {
    /// Run on the machine making the call
    Local,
    /// Run on a remote machine via ssh
    Remote(String),
}

/// A [`Destination`] as a mathematical value.
pub enum DestinationView {
    Local,
    Remote(Seq<char>),
}

impl View for Destination {
    type V = DestinationView;

    open spec fn view(&self) -> DestinationView {
        match *self {
            Destination::Local => DestinationView::Local,
            Destination::Remote(host) => DestinationView::Remote(host@),
        }
    }
}

impl Clone for Destination {
    fn clone(&self) -> (copy: Self)
        ensures
            copy == *self,
    {
        match self {
            Destination::Local => Destination::Local,
            Destination::Remote(host) => Destination::Remote(host.clone()),
        }
    }
}

/// Which environment variables a script is meant to see. The policy is part
/// of a job's definition and is kept with the script; launching does not act
/// on it yet, so that a script sees the environment of the program that
/// starts it under either policy.
#[derive(Clone, Copy, Debug, PartialEq, Eq)]
pub enum Environment {
    /// The script is meant to see no environment variable.
    Clear,
    /// The script is meant to see the current environment variables.
    Current,
}

/// The interpreter of a script.
#[derive(Debug, PartialEq, Eq)]
pub enum Shell {
    Bash,
    Custom(String),
}

/// A [`Shell`] as a mathematical value.
pub enum ShellView {
    Bash,
    Custom(Seq<char>),
}

impl ShellView {
    /// The program that runs the script.
    pub open spec fn path(self) -> Seq<char> {
        match self {
            ShellView::Bash => "bash"@,
            ShellView::Custom(path) => path,
        }
    }
}

impl View for Shell {
    type V = ShellView;

    open spec fn view(&self) -> ShellView {
        match *self {
            Shell::Bash => ShellView::Bash,
            Shell::Custom(path) => ShellView::Custom(path@),
        }
    }
}

impl Clone for Shell {
    fn clone(&self) -> (copy: Self)
        ensures
            copy == *self,
    {
        match self {
            Shell::Bash => Shell::Bash,
            Shell::Custom(path) => Shell::Custom(path.clone()),
        }
    }
}

impl Shell {
    /// The program that runs the script. Never fails.
    pub fn path(&self) -> (path: Result<String, Failure>)
        ensures
            path matches Ok(p) && p@ == self@.path(),
    {
        match self {
            Shell::Bash => Ok(String::from_str("bash")),
            Shell::Custom(x) => Ok(x.clone()),
        }
    }
}

impl Environment {
    /// The program that runs a script under an environment: the shell's own,
    /// whatever the environment. Never fails.
    pub fn with_shell(&self, shell: &Shell) -> (path: Result<String, Failure>)
        ensures
            path matches Ok(p) && p@ == shell@.path(),
    {
        match self {
            Environment::Clear => shell.path(),
            _ => shell.path(),
        }
    }
}

/// One shell invocation.
#[derive(Debug, PartialEq, Eq)]
pub struct Script {
    pub name: String,
    pub destination: Destination,
    pub environment: Environment,
    pub shell: Shell,
    pub script: String,
}

/// A [`Script`] as a mathematical value.
pub struct ScriptView {
    pub name: Seq<char>,
    pub destination: DestinationView,
    pub environment: Environment,
    pub shell: ShellView,
    pub script: Seq<char>,
}

impl ScriptView {
    /// The script that runs when nothing else is asked for.
    pub open spec fn default() -> ScriptView {
        ScriptView {
            name: "default"@,
            destination: DestinationView::Local,
            environment: Environment::Clear,
            shell: ShellView::Bash,
            script: "bash --version"@,
        }
    }
}

impl View for Script {
    type V = ScriptView;

    open spec fn view(&self) -> ScriptView {
        ScriptView {
            name: self.name@,
            destination: self.destination@,
            environment: self.environment,
            shell: self.shell@,
            script: self.script@,
        }
    }
}

impl Clone for Script {
    fn clone(&self) -> (copy: Self)
        ensures
            copy == *self,
    {
        Script {
            name: self.name.clone(),
            destination: self.destination.clone(),
            environment: self.environment,
            shell: self.shell.clone(),
            script: self.script.clone(),
        }
    }
}

impl Default for Script {
    fn default() -> (script: Self)
        ensures
            script@ == ScriptView::default(),
    {
        Self {
            name: String::from_str("default"),
            destination: Destination::Local,
            environment: Environment::Clear,
            shell: Shell::Bash,
            script: String::from_str("bash --version"),
        }
    }
}

/// How a remote destination prints, given its host as `{:?}` writes it.
pub open spec fn remote_text(quoted_host: Seq<char>) -> Seq<char> {
    "Remote("@ + quoted_host + ")"@
}

/// How a remote destination prints, given its host as `{:?}` writes it:
/// the variant's name and the quoted host in parentheses.
pub fn remote_to_text(quoted_host: &str) -> (text: String)
    ensures
        text@ == remote_text(quoted_host@),
{
    let mut text = String::from_str("Remote(");
    text.append(quoted_host);
    text.append(")");
    text
}

/// The views of a sequence of scripts.
pub open spec fn script_views(scripts: Seq<Script>) -> Seq<ScriptView> {
    Seq::new(scripts.len(), |i: int| scripts[i]@)
}

/// The names of a sequence of scripts.
pub open spec fn script_names(scripts: Seq<ScriptView>) -> Seq<Seq<char>> {
    Seq::new(scripts.len(), |i: int| scripts[i].name)
}

/// A unit of work in a job.
#[derive(Debug, PartialEq, Eq)]
pub enum Task {
    /// One script.
    Script(Script),
    /// A chain of scripts that run one after the other, in this order.
    Serial(Vec<Script>),
}

/// A [`Task`] as a mathematical value.
pub enum TaskView {
    Script(ScriptView),
    Serial(Seq<ScriptView>),
}

impl TaskView {
    /// The scripts of the task, in the order in which they run.
    pub open spec fn scripts(self) -> Seq<ScriptView> {
        match self {
            TaskView::Script(script) => seq![script],
            TaskView::Serial(scripts) => scripts,
        }
    }

    /// A script's own name; for a chain the names of its scripts in the
    /// order in which they run, with ` => ` between them.
    pub open spec fn name(self) -> Seq<char> {
        match self {
            TaskView::Script(script) => script.name,
            TaskView::Serial(scripts) => joined(script_names(scripts), " => "@),
        }
    }

    /// `Local` or `Remote: ` and the host for a script, `Serial` for a chain.
    pub open spec fn kind_name(self) -> Seq<char> {
        match self {
            TaskView::Script(script) => match script.destination {
                DestinationView::Local => "Local"@,
                DestinationView::Remote(host) => "Remote: "@ + host,
            },
            TaskView::Serial(_) => "Serial"@,
        }
    }

    /// How the task prints: a script as its destination is written in the
    /// source, a chain as `Serial`.
    pub open spec fn text(self) -> Seq<char> {
        match self {
            TaskView::Script(script) => match script.destination {
                DestinationView::Local => "Local"@,
                DestinationView::Remote(host) => remote_text(debug_text(host)),
            },
            TaskView::Serial(_) => "Serial"@,
        }
    }
}

impl View for Task {
    type V = TaskView;

    open spec fn view(&self) -> TaskView {
        match *self {
            Task::Script(script) => TaskView::Script(script@),
            Task::Serial(scripts) => TaskView::Serial(script_views(scripts@)),
        }
    }
}

/// A copy of the scripts, in the same order.
fn clone_scripts(scripts: &Vec<Script>) -> (copy: Vec<Script>)
    ensures
        copy@ == scripts@,
{
    let mut copy: Vec<Script> = Vec::new();
    let mut i: usize = 0;
    while i < scripts.len()
        invariant
            i <= scripts.len(),
            copy@ == scripts@.take(i as int),
        decreases scripts.len() - i,
    {
        copy.push(scripts[i].clone());
        assert(copy@ =~= scripts@.take(i + 1));
        i += 1;
    }
    assert(scripts@.take(scripts.len() as int) =~= scripts@);
    copy
}

impl Clone for Task {
    fn clone(&self) -> (copy: Self)
        ensures
            copy@ == self@,
    {
        match self {
            Task::Script(script) => Task::Script(script.clone()),
            Task::Serial(scripts) => Task::Serial(clone_scripts(scripts)),
        }
    }
}

impl Task {
    /// The name under which the task is shown.
    pub fn name(&self) -> (name: String)
        ensures
            name@ == self@.name(),
    {
        match self {
            Task::Script(s) => s.name.clone(),
            Task::Serial(ss) => {
                let mut names: Vec<String> = Vec::new();
                let mut i: usize = 0;
                while i < ss.len()
                    invariant
                        i <= ss.len(),
                        names.len() == i,
                        forall|j: int| 0 <= j < i ==> names@[j]@ == ss@[j].name@,
                    decreases ss.len() - i,
                {
                    names.push(ss[i].name.clone());
                    i += 1;
                }
                assert(crate::text::texts(names@) =~= script_names(script_views(ss@)));
                join(&names, " => ")
            },
        }
    }

    /// The kind of the task, as it is shown.
    pub fn kind_name(&self) -> (kind: String)
        ensures
            kind@ == self@.kind_name(),
    {
        match self {
            Self::Script(s) => {
                match &s.destination {
                    Destination::Local => String::from_str("Local"),
                    Destination::Remote(r) => {
                        let mut kind = String::from_str("Remote: ");
                        kind.append(r.as_str());
                        kind
                    },
                }
            },
            Self::Serial(_) => String::from_str("Serial"),
        }
    }

    /// The task as it prints.
    pub fn to_text(&self) -> (text: String)
        ensures
            text@ == self@.text(),
    {
        match self {
            Task::Script(s) => match &s.destination {
                Destination::Local => String::from_str("Local"),
                Destination::Remote(r) => {
                    let host = to_debug_string(r.as_str());
                    remote_to_text(host.as_str())
                },
            },
            _ => String::from_str("Serial"),
        }
    }

    /// The number of scripts of the task.
    pub fn len(&self) -> (n: usize)
        ensures
            n == self@.scripts().len(),
    {
        match self {
            Task::Script(_) => 1,
            Task::Serial(ss) => ss.len(),
        }
    }

    /// The script that runs at a position of the task, if there is one.
    pub fn script(&self, step: usize) -> (script: Option<&Script>)
        ensures
            script is Some <==> step < self@.scripts().len(),
            script matches Some(s) ==> s@ == self@.scripts()[step as int],
    {
        match self {
            Task::Script(s) => if step == 0 {
                Some(s)
            } else {
                None
            },
            Task::Serial(ss) => if step < ss.len() {
                Some(&ss[step])
            } else {
                None
            },
        }
    }
}

/// The views of a sequence of tasks.
pub open spec fn task_views(tasks: Seq<Task>) -> Seq<TaskView> {
    Seq::new(tasks.len(), |i: int| tasks[i]@)
}

/// Tasks are always ran in parallel
#[derive(Debug, PartialEq, Eq)]
pub struct Job {
    pub name: String,
    pub tasks: Vec<Task>,
}

/// A [`Job`] as a mathematical value.
pub struct JobView {
    pub name: Seq<char>,
    pub tasks: Seq<TaskView>,
}

impl View for Job {
    type V = JobView;

    open spec fn view(&self) -> JobView {
        JobView { name: self.name@, tasks: task_views(self.tasks@) }
    }
}

/// A copy of the tasks, in the same order.
fn clone_tasks(tasks: &Vec<Task>) -> (copy: Vec<Task>)
    ensures
        task_views(copy@) == task_views(tasks@),
{
    let mut copy: Vec<Task> = Vec::new();
    let mut i: usize = 0;
    while i < tasks.len()
        invariant
            i <= tasks.len(),
            copy.len() == i,
            forall|j: int| 0 <= j < i ==> copy@[j]@ == tasks@[j]@,
        decreases tasks.len() - i,
    {
        copy.push(tasks[i].clone());
        i += 1;
    }
    assert(task_views(copy@) =~= task_views(tasks@));
    copy
}

impl Clone for Job {
    fn clone(&self) -> (copy: Self)
        ensures
            copy@ == self@,
    {
        Job { name: self.name.clone(), tasks: clone_tasks(&self.tasks) }
    }
}

/// The job that shows what a job can hold: a local script, a remote script,
/// and a chain of two remote scripts of which the second reads what the
/// first wrote.
pub open spec fn test_data() -> JobView {
    let remote = DestinationView::Remote("zthayer@10.17.68.57"@);
    JobView {
        name: "Test"@,
        tasks: seq![
            TaskView::Script(
                ScriptView {
                    name: "local: bash_version"@,
                    script: "bash --version"@,
                    ..ScriptView::default()
                },
            ),
            TaskView::Script(
                ScriptView {
                    name: "znix: bash_version"@,
                    script: "bash --version"@,
                    destination: remote,
                    ..ScriptView::default()
                },
            ),
            TaskView::Serial(
                seq![
                    ScriptView {
                        name: "write"@,
                        script: "date >> /tmp/date.tmp"@,
                        destination: remote,
                        ..ScriptView::default()
                    },
                    ScriptView {
                        name: "read"@,
                        script: "cat /tmp/date.tmp"@,
                        destination: remote,
                        ..ScriptView::default()
                    },
                ],
            ),
        ],
    }
}

/// Builds the job that shows what a job can hold.
pub fn generate_test_data() -> (job: Job)
    ensures
        job@ == test_data(),
{
    let mut chain: Vec<Script> = Vec::new();
    chain.push(
        Script {
            name: String::from_str("write"),
            script: String::from_str("date >> /tmp/date.tmp"),
            destination: Destination::Remote(String::from_str("zthayer@10.17.68.57")),
            ..Script::default()
        },
    );
    chain.push(
        Script {
            name: String::from_str("read"),
            script: String::from_str("cat /tmp/date.tmp"),
            destination: Destination::Remote(String::from_str("zthayer@10.17.68.57")),
            ..Script::default()
        },
    );
    let mut tasks: Vec<Task> = Vec::new();
    tasks.push(
        Task::Script(
            Script {
                name: String::from_str("local: bash_version"),
                script: String::from_str("bash --version"),
                ..Script::default()
            },
        ),
    );
    tasks.push(
        Task::Script(
            Script {
                name: String::from_str("znix: bash_version"),
                script: String::from_str("bash --version"),
                destination: Destination::Remote(String::from_str("zthayer@10.17.68.57")),
                ..Script::default()
            },
        ),
    );
    tasks.push(Task::Serial(chain));
    let test = Job { name: String::from_str("Test"), tasks };
    proof {
        assert(script_views(chain@) =~= test_data().tasks[2]->Serial_0);
        assert(task_views(test.tasks@) =~= test_data().tasks);
    }
    test
}

} // verus!
