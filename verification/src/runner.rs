//! A job in flight: for each task its handles, one per script, and the rule
//! that says which script of a chain may start next.

use crate::command::{Action, CommandRunner, Event, EventView, Handle, Phase, Tick, Wait};
use crate::job::{Job, JobView, Task, TaskView};
use vstd::prelude::*;

verus! {

/// The states of a sequence of handles.
pub open spec fn handles(runners: Seq<CommandRunner>) -> Seq<Handle> {
    Seq::new(runners.len(), |i: int| runners[i]@)
}

/// As many handles as asked for, none of them started.
pub open spec fn all_pending(n: nat) -> Seq<Handle> {
    Seq::new(n, |i: int| Handle::pending())
}

/// Whether an execution has exited with success.
pub open spec fn succeeded(h: Handle) -> bool {
    h.phase matches Phase::Completed(status) && status.succeeded()
}

/// The position of the first handle that is not terminal; the number of
/// handles when all are.
pub open spec fn front(hs: Seq<Handle>) -> nat
    decreases hs.len(),
{
    if hs.len() == 0 || !hs.first().terminal() {
        0
    } else {
        1 + front(hs.drop_first())
    }
}

/// Whether every handle before a position is terminal.
pub open spec fn all_terminal_before(hs: Seq<Handle>, k: int) -> bool {
    forall|j: int| 0 <= j < k ==> (#[trigger] hs[j]).terminal()
}

/// Whether every handle before a position has exited with success.
pub open spec fn all_succeeded_before(hs: Seq<Handle>, k: int) -> bool {
    forall|j: int| 0 <= j < k ==> succeeded(#[trigger] hs[j])
}

/// Whether the handle at a position may take events: a pending one only
/// when every handle before it is terminal.
pub open spec fn in_turn(hs: Seq<Handle>, k: int) -> bool {
    hs[k].phase is Pending ==> all_terminal_before(hs, k)
}

/// The order of a chain: a script has left the pending phase only if every
/// script before it has reached a terminal phase.
pub open spec fn ordered(hs: Seq<Handle>) -> bool {
    forall|i: int, j: int|
        0 <= i < j < hs.len() && !((#[trigger] hs[j]).phase is Pending) ==> (#[trigger] hs[i]).terminal()
}

/// What a chain does after a script that did not exit with success.
#[derive(Clone, Copy, Debug, PartialEq, Eq)]
pub enum ChainPolicy {
    /// The scripts after it still run.
    Continue,
    /// The scripts after it never start: their handles stay pending.
    Halt,
}

impl Default for ChainPolicy {
    fn default() -> (policy: Self)
        ensures
            policy == ChainPolicy::Continue,
    {
        ChainPolicy::Continue
    }
}

/// What the controller of a task does now.
#[derive(Clone, Copy, Debug, PartialEq, Eq)]
pub enum Step {
    /// Start the script at this position.
    Launch(usize),
    /// A script runs: look again when its handle has changed.
    Wait,
    /// Nothing is left to start.
    Done,
}

/// The decision of a task's controller.
///
/// It looks at the first script that has not reached a terminal phase. If
/// there is none, the task is done. If that script runs, the controller
/// waits. If it is pending, it is launched, unless the policy halts the
/// chain because a script before it did not exit with success.
pub open spec fn decide(hs: Seq<Handle>, policy: ChainPolicy) -> Step {
    let k = front(hs);
    if k >= hs.len() {
        Step::Done
    } else if hs[k as int].phase is Running {
        Step::Wait
    } else if policy == ChainPolicy::Halt && !all_succeeded_before(hs, k as int) {
        Step::Done
    } else {
        Step::Launch(k as usize)
    }
}

/// Why a handle did not take an event.
#[derive(Clone, Copy, Debug, PartialEq, Eq)]
pub enum Refused {
    /// The task has no script at that position.
    NoSuchStep,
    /// The script is pending and a script before it has not ended.
    OutOfTurn,
}

/// One task of a job in flight.
///
/// The fields are open, as a job's are. The order of a chain is kept by
/// [`JobThread::deliver`] and [`JobThread::poll`]: whoever changes a handle
/// in another way answers for that order.
#[derive(Debug)]
pub struct JobThread {
    pub task: Task,
    pub runners: Vec<CommandRunner>,
}

/// A [`JobThread`] as a mathematical value.
pub struct ThreadView {
    pub task: TaskView,
    pub runners: Seq<Handle>,
}

impl ThreadView {
    /// The task right after the job was started: one pending handle for
    /// each of its scripts.
    pub open spec fn started(task: TaskView) -> ThreadView {
        ThreadView { task, runners: all_pending(task.scripts().len()) }
    }

    /// The task after the handle at a position took an event in its turn.
    pub open spec fn delivered(self, step: int, event: EventView) -> ThreadView {
        ThreadView { runners: self.runners.update(step, self.runners[step].step(event)), ..self }
    }

    /// The task after the handle at a position took a poll in its turn.
    pub open spec fn polled(self, step: int, tick: Tick) -> ThreadView {
        ThreadView { runners: self.runners.update(step, self.runners[step].poll(tick)), ..self }
    }

    /// A task in flight has one handle for each of its scripts, and they
    /// are in the order of a chain.
    pub open spec fn well_formed(self) -> bool {
        &&& self.runners.len() == self.task.scripts().len()
        &&& ordered(self.runners)
    }
}

impl View for JobThread {
    type V = ThreadView;

    open spec fn view(&self) -> ThreadView {
        ThreadView { task: self.task@, runners: handles(self.runners@) }
    }
}

/// A copy of the handles, in the same order.
fn clone_runners(runners: &Vec<CommandRunner>) -> (copy: Vec<CommandRunner>)
    ensures
        handles(copy@) == handles(runners@),
{
    let mut copy: Vec<CommandRunner> = Vec::new();
    let mut i: usize = 0;
    while i < runners.len()
        invariant
            i <= runners.len(),
            copy.len() == i,
            forall|j: int| 0 <= j < i ==> copy@[j]@ == runners@[j]@,
        decreases runners.len() - i,
    {
        copy.push(runners[i].clone());
        i += 1;
    }
    assert(handles(copy@) =~= handles(runners@));
    copy
}

impl Clone for JobThread {
    fn clone(&self) -> (copy: Self)
        ensures
            copy@ == self@,
    {
        JobThread { task: self.task.clone(), runners: clone_runners(&self.runners) }
    }
}

impl Task {
    /// The handles of the task before anything has started: one for each
    /// script, in the order in which the scripts run.
    pub fn into_runners(self) -> (runners: Vec<CommandRunner>)
        ensures
            handles(runners@) == all_pending(self@.scripts().len()),
    {
        let n = self.len();
        let mut runners: Vec<CommandRunner> = Vec::new();
        let mut i: usize = 0;
        while i < n
            invariant
                i <= n,
                runners.len() == i,
                forall|j: int| 0 <= j < i ==> runners@[j]@ == Handle::pending(),
            decreases n - i,
        {
            runners.push(CommandRunner::new());
            i += 1;
        }
        assert(handles(runners@) =~= all_pending(n as nat));
        runners
    }
}

impl JobThread {
    /// What the task's controller does now.
    pub fn next_step(&self, policy: ChainPolicy) -> (step: Step)
        ensures
            step == decide(self@.runners, policy),
    {
        let ghost hs = self@.runners;
        let mut k: usize = 0;
        let mut succeeded_so_far = true;
        while k < self.runners.len() && self.runners[k].terminal()
            invariant
                k <= self.runners.len(),
                hs == handles(self.runners@),
                all_terminal_before(hs, k as int),
                succeeded_so_far == all_succeeded_before(hs, k as int),
            decreases self.runners.len() - k,
        {
            let ok = match self.runners[k].status() {
                Some(status) => status.success(),
                None => false,
            };
            assert(ok == succeeded(hs[k as int]));
            succeeded_so_far = succeeded_so_far && ok;
            k += 1;
        }
        proof {
            lemma_front(hs, k as int);
        }
        if k >= self.runners.len() {
            Step::Done
        } else {
            match self.runners[k].phase() {
                Phase::Running { .. } => Step::Wait,
                _ => match policy {
                    ChainPolicy::Halt => if succeeded_so_far {
                        Step::Launch(k)
                    } else {
                        Step::Done
                    },
                    ChainPolicy::Continue => Step::Launch(k),
                },
            }
        }
    }

    /// Whether the task has a handle at a position that may take events.
    pub fn is_in_turn(&self, step: usize) -> (free: bool)
        ensures
            free == (step < self@.runners.len() && in_turn(self@.runners, step as int)),
    {
        let ghost hs = self@.runners;
        if step >= self.runners.len() {
            return false;
        }
        if !self.runners[step].is_pending() {
            return true;
        }
        let mut j: usize = 0;
        while j < step
            invariant
                j <= step < self.runners.len(),
                hs == self@.runners,
                hs[step as int].phase is Pending,
                all_terminal_before(hs, j as int),
            decreases step - j,
        {
            if !self.runners[j].terminal() {
                assert(!hs[j as int].terminal());
                assert(!all_terminal_before(hs, step as int));
                return false;
            }
            j += 1;
        }
        true
    }

    /// Hands an event to the handle at a position. A position that the task
    /// does not have is refused, and so is a pending script while a script
    /// before it has not ended; then nothing changes. Otherwise that one
    /// handle takes the event and the others stay as they are.
    pub fn deliver(&mut self, step: usize, event: Event) -> (taken: Result<Action, Refused>)
        ensures
            match taken {
                Ok(action) => {
                    &&& step < old(self)@.runners.len()
                    &&& in_turn(old(self)@.runners, step as int)
                    &&& final(self)@ == old(self)@.delivered(step as int, event@)
                    &&& action == final(self)@.runners[step as int].action()
                },
                Err(Refused::NoSuchStep) => {
                    &&& step >= old(self)@.runners.len()
                    &&& final(self)@ == old(self)@
                },
                Err(Refused::OutOfTurn) => {
                    &&& step < old(self)@.runners.len()
                    &&& !in_turn(old(self)@.runners, step as int)
                    &&& final(self)@ == old(self)@
                },
            },
            old(self)@.well_formed() ==> final(self)@.well_formed(),
    {
        if step >= self.runners.len() {
            return Err(Refused::NoSuchStep);
        }
        let ghost hs = self@.runners;
        if !self.is_in_turn(step) {
            return Err(Refused::OutOfTurn);
        }
        let action = self.runners[step].apply(event);
        proof {
            assert(handles(self.runners@) =~= hs.update(step as int, hs[step as int].step(event@)));
            if ordered(hs) {
                law_delivery_keeps_order(hs, step as int, event@);
            }
        }
        Ok(action)
    }

    /// Hands one poll of a local process to the handle at a position, which
    /// is refused as an event would be. On [`Action::Continue`] the caller
    /// sleeps and polls again.
    pub fn poll(&mut self, step: usize, wait: Wait, stdout: Vec<u8>, stderr: Vec<u8>) -> (taken:
        Result<Action, Refused>)
        ensures
            match taken {
                Ok(action) => {
                    &&& step < old(self)@.runners.len()
                    &&& in_turn(old(self)@.runners, step as int)
                    &&& final(self)@ == old(self)@.polled(
                        step as int,
                        Tick { wait, stdout: stdout@, stderr: stderr@ },
                    )
                    &&& action == final(self)@.runners[step as int].action()
                },
                Err(Refused::NoSuchStep) => {
                    &&& step >= old(self)@.runners.len()
                    &&& final(self)@ == old(self)@
                },
                Err(Refused::OutOfTurn) => {
                    &&& step < old(self)@.runners.len()
                    &&& !in_turn(old(self)@.runners, step as int)
                    &&& final(self)@ == old(self)@
                },
            },
            old(self)@.well_formed() ==> final(self)@.well_formed(),
    {
        if step >= self.runners.len() {
            return Err(Refused::NoSuchStep);
        }
        let ghost hs = self@.runners;
        if !self.is_in_turn(step) {
            return Err(Refused::OutOfTurn);
        }
        let ghost tick = Tick { wait, stdout: stdout@, stderr: stderr@ };
        let action = self.runners[step].poll(wait, stdout, stderr);
        proof {
            assert(handles(self.runners@) =~= hs.update(step as int, hs[step as int].poll(tick)));
            if ordered(hs) {
                law_poll_keeps_order(hs, step as int, tick);
            }
        }
        Ok(action)
    }
}

/// The views of a sequence of tasks in flight.
pub open spec fn thread_views(threads: Seq<JobThread>) -> Seq<ThreadView> {
    Seq::new(threads.len(), |i: int| threads[i]@)
}

/// A job in flight.
#[derive(Debug)]
pub struct JobRunner {
    pub job: Job,
    pub threads: Vec<JobThread>,
}

/// A [`JobRunner`] as a mathematical value.
pub struct RunView {
    pub job: JobView,
    pub threads: Seq<ThreadView>,
}

impl JobView {
    /// The job right after it was started: its tasks in their order, each
    /// with one pending handle for each of its scripts.
    pub open spec fn started(self) -> RunView {
        RunView {
            job: self,
            threads: Seq::new(self.tasks.len(), |i: int| ThreadView::started(self.tasks[i])),
        }
    }
}

impl RunView {
    /// A job in flight has its tasks in the job's order, each of them well
    /// formed.
    pub open spec fn well_formed(self) -> bool {
        &&& self.threads.len() == self.job.tasks.len()
        &&& forall|i: int|
            0 <= i < self.threads.len() ==> (#[trigger] self.threads[i]).task == self.job.tasks[i]
                && self.threads[i].well_formed()
    }
}

impl View for JobRunner {
    type V = RunView;

    open spec fn view(&self) -> RunView {
        RunView { job: self.job@, threads: thread_views(self.threads@) }
    }
}

impl Clone for JobRunner {
    fn clone(&self) -> (copy: Self)
        ensures
            copy@ == self@,
    {
        let mut threads: Vec<JobThread> = Vec::new();
        let mut i: usize = 0;
        while i < self.threads.len()
            invariant
                i <= self.threads.len(),
                threads.len() == i,
                forall|j: int| 0 <= j < i ==> threads@[j]@ == self.threads@[j]@,
            decreases self.threads.len() - i,
        {
            threads.push(self.threads[i].clone());
            i += 1;
        }
        assert(thread_views(threads@) =~= thread_views(self.threads@));
        JobRunner { job: self.job.clone(), threads }
    }
}

impl Job {
    /// Starts the job: every task gets its handles, all pending, and none
    /// waits for another. A job without tasks gives a run without handles.
    pub fn run(self) -> (runner: JobRunner)
        ensures
            runner@ == self@.started(),
            runner@.well_formed(),
    {
        let mut threads: Vec<JobThread> = Vec::new();
        let mut i: usize = 0;
        while i < self.tasks.len()
            invariant
                i <= self.tasks.len(),
                threads.len() == i,
                forall|j: int| 0 <= j < i ==> threads@[j]@ == ThreadView::started(self.tasks@[j]@),
            decreases self.tasks.len() - i,
        {
            let t = &self.tasks[i];
            threads.push(JobThread { task: t.clone(), runners: t.clone().into_runners() });
            i += 1;
        }
        assert(thread_views(threads@) =~= self@.started().threads);
        JobRunner { threads, job: self }
    }
}

/// The front of a chain is the one position before which every handle is
/// terminal and at which, if there is a handle, it is not.
pub proof fn lemma_front(hs: Seq<Handle>, k: int)
    requires
        0 <= k <= hs.len(),
        all_terminal_before(hs, k),
        k < hs.len() ==> !hs[k].terminal(),
    ensures
        front(hs) == k,
    decreases hs.len(),
{
    if k > 0 {
        assert(hs[0].terminal());
        let rest = hs.drop_first();
        assert forall|j: int| 0 <= j < k - 1 implies (#[trigger] rest[j]).terminal() by {
            assert(hs[j + 1].terminal());
        }
        lemma_front(rest, k - 1);
    }
}

/// A job that has just been started is in order: nothing has left the
/// pending phase.
pub proof fn law_start_is_ordered(n: nat)
    ensures
        ordered(all_pending(n)),
{
}

/// A script is launched only after every script before it has ended: when
/// the controller decides to launch, the script at that position is pending,
/// every handle before it is terminal, and under the halting policy every
/// script before it has exited with success.
pub proof fn law_launch_follows_endings(hs: Seq<Handle>, policy: ChainPolicy, k: usize)
    requires
        hs.len() <= usize::MAX,
        decide(hs, policy) == Step::Launch(k),
    ensures
        k < hs.len(),
        hs[k as int].phase is Pending,
        all_terminal_before(hs, k as int),
        in_turn(hs, k as int),
        policy == ChainPolicy::Halt ==> all_succeeded_before(hs, k as int),
{
    lemma_front_is_front(hs);
}

/// Before the front every handle is terminal, and the handle at the front,
/// if there is one, is not.
pub proof fn lemma_front_is_front(hs: Seq<Handle>)
    ensures
        front(hs) <= hs.len(),
        all_terminal_before(hs, front(hs) as int),
        front(hs) < hs.len() ==> !hs[front(hs) as int].terminal(),
    decreases hs.len(),
{
    if hs.len() > 0 && hs.first().terminal() {
        let rest = hs.drop_first();
        lemma_front_is_front(rest);
        assert forall|j: int| 0 <= j < front(hs) implies (#[trigger] hs[j]).terminal() by {
            if j > 0 {
                assert(rest[j - 1].terminal());
            }
        }
    }
}

/// Events taken in turn keep a chain in order.
pub proof fn law_delivery_keeps_order(hs: Seq<Handle>, k: int, event: EventView)
    requires
        0 <= k < hs.len(),
        ordered(hs),
        in_turn(hs, k),
    ensures
        ordered(hs.update(k, hs[k].step(event))),
{
    let after = hs.update(k, hs[k].step(event));
    assert forall|i: int, j: int|
        0 <= i < j < after.len() && !((#[trigger] after[j]).phase is Pending) implies (
    #[trigger] after[i]).terminal() by {
        if j != k {
            assert(!(hs[j].phase is Pending));
        }
        assert(hs[i].terminal());
    }
}

/// A poll taken in turn keeps a chain in order.
pub proof fn law_poll_keeps_order(hs: Seq<Handle>, k: int, tick: Tick)
    requires
        0 <= k < hs.len(),
        ordered(hs),
        in_turn(hs, k),
    ensures
        ordered(hs.update(k, hs[k].poll(tick))),
{
    let h = hs[k];
    let polled = h.poll(tick);
    let after = hs.update(k, polled);
    assert(h.terminal() ==> polled == h);
    assert(!(h.phase is Pending) ==> !(polled.phase is Pending));
    assert forall|i: int, j: int|
        0 <= i < j < after.len() && !((#[trigger] after[j]).phase is Pending) implies (
    #[trigger] after[i]).terminal() by {
        if j != k {
            assert(!(hs[j].phase is Pending));
        }
        assert(hs[i].terminal());
    }
}

/// In a chain that is in order at most one script runs at a time, and
/// every script before a running one has ended.
pub proof fn law_one_script_at_a_time(hs: Seq<Handle>, i: int, j: int)
    requires
        ordered(hs),
        0 <= i < j < hs.len(),
        hs[j].phase is Running,
    ensures
        hs[i].terminal(),
        !(hs[i].phase is Running),
{
}

} // verus!
