//! What a task has come to once all its scripts have ended.

use crate::command::{CommandRunner, ExitStatus, Failure, Handle, Phase};
use crate::job::{Task, TaskView};
use crate::runner::{JobThread, ThreadView};
use vstd::prelude::*;

verus! {

/// What a process left behind.
#[derive(Debug, PartialEq, Eq)]
pub struct Output {
    pub status: ExitStatus,
    pub stdout: Vec<u8>,
    pub stderr: Vec<u8>,
}

/// An [`Output`] as a mathematical value.
pub struct OutputView {
    pub status: ExitStatus,
    pub stdout: Seq<u8>,
    pub stderr: Seq<u8>,
}

impl View for Output {
    type V = OutputView;

    open spec fn view(&self) -> OutputView {
        OutputView { status: self.status, stdout: self.stdout@, stderr: self.stderr@ }
    }
}

/// The view of what one execution has come to.
pub open spec fn outcome_view(outcome: Result<Output, Failure>) -> Result<OutputView, Failure> {
    match outcome {
        Ok(output) => Ok(output@),
        Err(cause) => Err(cause),
    }
}

/// The views of what a sequence of executions have come to.
pub open spec fn outcome_views(outcomes: Seq<Result<Output, Failure>>) -> Seq<
    Result<OutputView, Failure>,
> {
    Seq::new(outcomes.len(), |i: int| outcome_view(outcomes[i]))
}

/// What a task has come to: for a script its output or the cause of its
/// failure, for a chain the same of each of its scripts, in their order.
#[derive(Debug, PartialEq, Eq)]
pub enum TaskResult {
    Script(Result<Output, Failure>),
    Serial(Vec<Result<Output, Failure>>),
}

/// A [`TaskResult`] as a mathematical value.
pub enum TaskResultView {
    Script(Result<OutputView, Failure>),
    Serial(Seq<Result<OutputView, Failure>>),
}

impl View for TaskResult {
    type V = TaskResultView;

    open spec fn view(&self) -> TaskResultView {
        match *self {
            TaskResult::Script(outcome) => TaskResultView::Script(outcome_view(outcome)),
            TaskResult::Serial(outcomes) => TaskResultView::Serial(outcome_views(outcomes@)),
        }
    }
}

impl Handle {
    /// What the execution has come to: its exit status and buffers once it
    /// is complete, the cause once it has failed, nothing before.
    pub open spec fn outcome(self) -> Option<Result<OutputView, Failure>> {
        match self.phase {
            Phase::Completed(status) => Some(
                Ok(OutputView { status, stdout: self.stdout, stderr: self.stderr }),
            ),
            Phase::Failed(cause) => Some(Err(cause)),
            _ => None,
        }
    }
}

/// Whether every handle is terminal.
pub open spec fn all_terminal(hs: Seq<Handle>) -> bool {
    forall|i: int| 0 <= i < hs.len() ==> (#[trigger] hs[i]).terminal()
}

/// What each execution has come to, all of them being terminal.
pub open spec fn outcomes(hs: Seq<Handle>) -> Seq<Result<OutputView, Failure>> {
    Seq::new(hs.len(), |i: int| hs[i].outcome()->0)
}

impl ThreadView {
    /// What the task has come to. There is a result once the task has one
    /// handle for each script and all of them are terminal.
    pub open spec fn result(self) -> Option<TaskResultView> {
        if self.runners.len() != self.task.scripts().len() || !all_terminal(self.runners) {
            None
        } else {
            match self.task {
                TaskView::Script(_) => Some(TaskResultView::Script(outcomes(self.runners)[0])),
                TaskView::Serial(_) => Some(TaskResultView::Serial(outcomes(self.runners))),
            }
        }
    }
}

impl CommandRunner {
    /// What the execution has come to, once it is terminal.
    pub fn outcome(&self) -> (outcome: Option<Result<Output, Failure>>)
        ensures
            outcome is Some <==> self@.terminal(),
            outcome matches Some(o) ==> Some(outcome_view(o)) == self@.outcome(),
    {
        match self.phase() {
            Phase::Completed(status) => Some(
                Ok(Output { status, stdout: self.stdout(), stderr: self.stderr() }),
            ),
            Phase::Failed(cause) => Some(Err(cause)),
            _ => None,
        }
    }
}

impl JobThread {
    /// What the task has come to, once all its scripts have ended.
    pub fn result(&self) -> (result: Option<TaskResult>)
        ensures
            result is Some <==> self@.result() is Some,
            result matches Some(r) ==> Some(r@) == self@.result(),
    {
        let ghost hs = self@.runners;
        if self.runners.len() != self.task.len() {
            return None;
        }
        let mut all: Vec<Result<Output, Failure>> = Vec::new();
        let mut i: usize = 0;
        while i < self.runners.len()
            invariant
                i <= self.runners.len(),
                hs == self@.runners,
                all.len() == i,
                forall|j: int| 0 <= j < i ==> (#[trigger] hs[j]).terminal(),
                forall|j: int| 0 <= j < i ==> Some(outcome_view(#[trigger] all@[j])) == hs[j].outcome(),
            decreases self.runners.len() - i,
        {
            match self.runners[i].outcome() {
                Some(outcome) => {
                    all.push(outcome);
                },
                None => {
                    assert(!hs[i as int].terminal());
                    return None;
                },
            }
            i += 1;
        }
        assert(outcome_views(all@) =~= outcomes(hs));
        match &self.task {
            Task::Script(_) => {
                let first = all.remove(0);
                Some(TaskResult::Script(first))
            },
            Task::Serial(_) => Some(TaskResult::Serial(all)),
        }
    }
}

} // verus!
