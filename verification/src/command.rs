//! The progress handle of one script: what its process has written, whether it
//! has ended, and how. A handle changes only by the events that the unit
//! running the process reports; readers take snapshots.

use vstd::prelude::*;

verus! {

/// Milliseconds to sleep between two polls of a local process.
pub const POLL_INTERVAL_MS: u64 = 100;

/// How a process ended: its exit code, absent when a signal ended it.
#[derive(Clone, Copy, Debug, PartialEq, Eq)]
pub struct ExitStatus {
    pub code: Option<i32>,
}

impl ExitStatus {
    pub fn new(code: Option<i32>) -> (status: ExitStatus)
        ensures
            status.code == code,
    {
        ExitStatus { code }
    }

    /// Success is a zero exit code.
    pub open spec fn succeeded(self) -> bool {
        self.code == Some(0i32)
    }

    pub fn success(&self) -> (ok: bool)
        ensures
            ok == self.succeeded(),
    {
        match self.code {
            Some(c) => c == 0,
            None => false,
        }
    }

    pub fn code(&self) -> (code: Option<i32>)
        ensures
            code == self.code,
    {
        self.code
    }
}

/// Why an execution ended without an exit status.
#[derive(Clone, Copy, Debug, PartialEq, Eq)]
pub enum Failure {
    /// The local process could not be started.
    SpawnError,
    /// The session with the remote host could not be established.
    ConnectError,
    /// The script could not be transferred to the remote host.
    UploadError,
    /// An output stream became unreadable while the process ran.
    ReadError,
    /// The process could no longer be waited for.
    WaitError,
}

/// Where an execution stands. `Completed` and `Failed` are terminal.
///
/// A running execution has three parts that end on their own: the process
/// and its two output streams. It completes when all three have ended, so
/// that whatever the process wrote is in the buffers by then.
#[derive(Clone, Copy, Debug, PartialEq, Eq)]
pub enum Phase {
    Pending,
    Running { exited: Option<ExitStatus>, stdout_open: bool, stderr_open: bool },
    Completed(ExitStatus),
    Failed(Failure),
}

impl Phase {
    /// The phase of an execution that has just got under way.
    pub open spec fn started() -> Phase {
        Phase::Running { exited: None, stdout_open: true, stderr_open: true }
    }

    pub open spec fn terminal(self) -> bool {
        self is Completed || self is Failed
    }

    /// A running execution whose three parts have all ended is completed.
    pub open spec fn settled(self) -> Phase {
        match self {
            Phase::Running { exited: Some(status), stdout_open: false, stderr_open: false } => {
                Phase::Completed(status)
            },
            _ => self,
        }
    }
}

/// What the unit that runs a process reports.
#[derive(Debug, PartialEq, Eq)]
pub enum Event {
    /// The execution is under way: the local process has been started, or
    /// the session with the remote host is established.
    Started,
    /// Bytes read from its standard output.
    Stdout(Vec<u8>),
    /// Its standard output has been read to the end.
    StdoutClosed,
    /// Bytes read from its standard error.
    Stderr(Vec<u8>),
    /// Its standard error has been read to the end.
    StderrClosed,
    /// The process has exited.
    Exited(ExitStatus),
    /// The execution cannot go on.
    Failed(Failure),
}

/// An [`Event`] as a mathematical value.
pub enum EventView {
    Started,
    Stdout(Seq<u8>),
    StdoutClosed,
    Stderr(Seq<u8>),
    StderrClosed,
    Exited(ExitStatus),
    Failed(Failure),
}

impl View for Event {
    type V = EventView;

    open spec fn view(&self) -> EventView {
        match *self {
            Event::Started => EventView::Started,
            Event::Stdout(bytes) => EventView::Stdout(bytes@),
            Event::StdoutClosed => EventView::StdoutClosed,
            Event::Stderr(bytes) => EventView::Stderr(bytes@),
            Event::StderrClosed => EventView::StderrClosed,
            Event::Exited(status) => EventView::Exited(status),
            Event::Failed(cause) => EventView::Failed(cause),
        }
    }
}

impl Clone for Event {
    fn clone(&self) -> (copy: Self)
        ensures
            copy@ == self@,
    {
        match self {
            Event::Started => Event::Started,
            Event::Stdout(bytes) => Event::Stdout(bytes.clone()),
            Event::StdoutClosed => Event::StdoutClosed,
            Event::Stderr(bytes) => Event::Stderr(bytes.clone()),
            Event::StderrClosed => Event::StderrClosed,
            Event::Exited(status) => Event::Exited(*status),
            Event::Failed(cause) => Event::Failed(*cause),
        }
    }
}

/// What one look at a local process found.
#[derive(Clone, Copy, Debug, PartialEq, Eq)]
pub enum Wait {
    Running,
    Exited(ExitStatus),
    Failed,
}

/// One poll of a local process: its liveness and the output drained with it.
pub struct Tick {
    pub wait: Wait,
    pub stdout: Seq<u8>,
    pub stderr: Seq<u8>,
}

/// What the unit that runs a process does after reporting.
#[derive(Clone, Copy, Debug, PartialEq, Eq)]
pub enum Action {
    /// The execution goes on: keep reporting.
    Continue,
    /// The execution has reached a terminal phase: nothing more is taken.
    Stop,
}

/// The state of a handle as a mathematical value.
pub struct Handle {
    pub stdout: Seq<u8>,
    pub stderr: Seq<u8>,
    pub phase: Phase,
}

impl Handle {
    /// The handle of an execution that has not started.
    pub open spec fn pending() -> Handle {
        Handle { stdout: Seq::empty(), stderr: Seq::empty(), phase: Phase::Pending }
    }

    pub open spec fn terminal(self) -> bool {
        self.phase.terminal()
    }

    pub open spec fn complete(self) -> bool {
        self.phase is Completed
    }

    pub open spec fn status(self) -> Option<ExitStatus> {
        match self.phase {
            Phase::Completed(status) => Some(status),
            _ => None,
        }
    }

    pub open spec fn failure(self) -> Option<Failure> {
        match self.phase {
            Phase::Failed(cause) => Some(cause),
            _ => None,
        }
    }

    /// What the unit that reported does next.
    pub open spec fn action(self) -> Action {
        if self.terminal() {
            Action::Stop
        } else {
            Action::Continue
        }
    }

    /// The handle after one event.
    ///
    /// A terminal handle takes nothing. A pending one can only start or fail.
    /// A running one takes output on the streams that are still open, and
    /// completes with the last of its three parts to end.
    pub open spec fn step(self, event: EventView) -> Handle {
        match self.phase {
            Phase::Completed(_) | Phase::Failed(_) => self,
            Phase::Pending => match event {
                EventView::Started => Handle { phase: Phase::started(), ..self },
                EventView::Failed(cause) => Handle { phase: Phase::Failed(cause), ..self },
                _ => self,
            },
            Phase::Running { exited, stdout_open, stderr_open } => match event {
                EventView::Started => self,
                EventView::Stdout(bytes) => if stdout_open {
                    Handle { stdout: self.stdout + bytes, ..self }
                } else {
                    self
                },
                EventView::StdoutClosed => Handle {
                    phase: Phase::Running { exited, stdout_open: false, stderr_open }.settled(),
                    ..self
                },
                EventView::Stderr(bytes) => if stderr_open {
                    Handle { stderr: self.stderr + bytes, ..self }
                } else {
                    self
                },
                EventView::StderrClosed => Handle {
                    phase: Phase::Running { exited, stdout_open, stderr_open: false }.settled(),
                    ..self
                },
                EventView::Exited(status) => Handle {
                    phase: Phase::Running {
                        exited: if exited is Some { exited } else { Some(status) },
                        stdout_open,
                        stderr_open,
                    }.settled(),
                    ..self
                },
                EventView::Failed(cause) => Handle { phase: Phase::Failed(cause), ..self },
            },
        }
    }

    /// The handle after a sequence of events, in order.
    pub open spec fn replay(self, events: Seq<EventView>) -> Handle
        decreases events.len(),
    {
        if events.len() == 0 {
            self
        } else {
            self.replay(events.drop_last()).step(events.last())
        }
    }

    /// The handle after one poll of a local process: what was drained goes
    /// into the buffers first, then the process's end, if it has ended, is
    /// recorded and both streams are closed.
    pub open spec fn poll(self, tick: Tick) -> Handle {
        let drained = self.step(EventView::Stdout(tick.stdout)).step(
            EventView::Stderr(tick.stderr),
        );
        match tick.wait {
            Wait::Running => drained,
            Wait::Exited(status) => drained.step(EventView::Exited(status)).step(
                EventView::StdoutClosed,
            ).step(EventView::StderrClosed),
            Wait::Failed => drained.step(EventView::Failed(Failure::WaitError)),
        }
    }

    /// The handle after a sequence of polls, in order.
    pub open spec fn poll_all(self, ticks: Seq<Tick>) -> Handle
        decreases ticks.len(),
    {
        if ticks.len() == 0 {
            self
        } else {
            self.poll_all(ticks.drop_last()).poll(ticks.last())
        }
    }
}

/// All the standard output that a sequence of polls drained, in order.
pub open spec fn drained_stdout(ticks: Seq<Tick>) -> Seq<u8>
    decreases ticks.len(),
{
    if ticks.len() == 0 {
        Seq::empty()
    } else {
        drained_stdout(ticks.drop_last()) + ticks.last().stdout
    }
}

/// All the standard error that a sequence of polls drained, in order.
pub open spec fn drained_stderr(ticks: Seq<Tick>) -> Seq<u8>
    decreases ticks.len(),
{
    if ticks.len() == 0 {
        Seq::empty()
    } else {
        drained_stderr(ticks.drop_last()) + ticks.last().stderr
    }
}

/// All the standard output that a sequence of events carries, in order.
pub open spec fn reported_stdout(events: Seq<EventView>) -> Seq<u8>
    decreases events.len(),
{
    if events.len() == 0 {
        Seq::empty()
    } else {
        reported_stdout(events.drop_last()) + match events.last() {
            EventView::Stdout(bytes) => bytes,
            _ => Seq::empty(),
        }
    }
}

/// All the standard error that a sequence of events carries, in order.
pub open spec fn reported_stderr(events: Seq<EventView>) -> Seq<u8>
    decreases events.len(),
{
    if events.len() == 0 {
        Seq::empty()
    } else {
        reported_stderr(events.drop_last()) + match events.last() {
            EventView::Stderr(bytes) => bytes,
            _ => Seq::empty(),
        }
    }
}

/// The progress handle of one script.
#[derive(Debug)]
pub struct CommandRunner {
    stdout: Vec<u8>,
    stderr: Vec<u8>,
    phase: Phase,
}

impl View for CommandRunner {
    type V = Handle;

    closed spec fn view(&self) -> Handle {
        Handle { stdout: self.stdout@, stderr: self.stderr@, phase: self.phase }
    }
}

impl Clone for CommandRunner {
    fn clone(&self) -> (copy: Self)
        ensures
            copy@ == self@,
    {
        CommandRunner {
            stdout: self.stdout.clone(),
            stderr: self.stderr.clone(),
            phase: self.phase,
        }
    }
}

impl CommandRunner {
    /// The handle of an execution that has not started.
    pub fn new() -> (runner: CommandRunner)
        ensures
            runner@ == Handle::pending(),
    {
        CommandRunner { stdout: Vec::new(), stderr: Vec::new(), phase: Phase::Pending }
    }

    /// The handle of a local execution, given whether its process could be
    /// started: it runs, or it has failed with [`Failure::SpawnError`].
    pub fn from_command(spawned: bool) -> (runner: CommandRunner)
        ensures
            runner@ == Handle::pending().step(
                if spawned {
                    EventView::Started
                } else {
                    EventView::Failed(Failure::SpawnError)
                },
            ),
    {
        let mut runner = CommandRunner::new();
        if spawned {
            runner.apply(Event::Started);
        } else {
            runner.apply(Event::Failed(Failure::SpawnError));
        }
        runner
    }

    /// The handle of a remote execution, given whether its script could be
    /// transferred: it is pending until the session is established and the
    /// process runs, or it has failed with [`Failure::UploadError`].
    pub fn from_command_ssh(uploaded: bool) -> (runner: CommandRunner)
        ensures
            runner@ == if uploaded {
                Handle::pending()
            } else {
                Handle::pending().step(EventView::Failed(Failure::UploadError))
            },
    {
        let mut runner = CommandRunner::new();
        if !uploaded {
            runner.apply(Event::Failed(Failure::UploadError));
        }
        runner
    }

    /// Takes one event and says what the reporting unit does next.
    pub fn apply(&mut self, event: Event) -> (action: Action)
        ensures
            final(self)@ == old(self)@.step(event@),
            action == final(self)@.action(),
    {
        match self.phase {
            Phase::Completed(_) | Phase::Failed(_) => {},
            Phase::Pending => match event {
                Event::Started => {
                    self.phase =
                    Phase::Running { exited: None, stdout_open: true, stderr_open: true };
                },
                Event::Failed(cause) => {
                    self.phase = Phase::Failed(cause);
                },
                _ => {},
            },
            Phase::Running { exited, stdout_open, stderr_open } => match event {
                Event::Started => {},
                Event::Stdout(bytes) => {
                    if stdout_open {
                        let mut bytes = bytes;
                        self.stdout.append(&mut bytes);
                    }
                },
                Event::StdoutClosed => {
                    self.phase = settle(exited, false, stderr_open);
                },
                Event::Stderr(bytes) => {
                    if stderr_open {
                        let mut bytes = bytes;
                        self.stderr.append(&mut bytes);
                    }
                },
                Event::StderrClosed => {
                    self.phase = settle(exited, stdout_open, false);
                },
                Event::Exited(status) => {
                    let first = match exited {
                        Some(_) => exited,
                        None => Some(status),
                    };
                    self.phase = settle(first, stdout_open, stderr_open);
                },
                Event::Failed(cause) => {
                    self.phase = Phase::Failed(cause);
                },
            },
        }
        self.next_action()
    }

    /// Takes one poll of a local process. On [`Action::Continue`] the caller
    /// sleeps for [`POLL_INTERVAL_MS`] and polls again.
    pub fn poll(&mut self, wait: Wait, stdout: Vec<u8>, stderr: Vec<u8>) -> (action: Action)
        ensures
            final(self)@ == old(self)@.poll(Tick { wait, stdout: stdout@, stderr: stderr@ }),
            action == final(self)@.action(),
    {
        self.apply(Event::Stdout(stdout));
        self.apply(Event::Stderr(stderr));
        match wait {
            Wait::Running => {},
            Wait::Exited(status) => {
                self.apply(Event::Exited(status));
                self.apply(Event::StdoutClosed);
                self.apply(Event::StderrClosed);
            },
            Wait::Failed => {
                self.apply(Event::Failed(Failure::WaitError));
            },
        }
        self.next_action()
    }

    fn next_action(&self) -> (action: Action)
        ensures
            action == self@.action(),
    {
        if self.terminal() {
            Action::Stop
        } else {
            Action::Continue
        }
    }

    /// Whether the process has exited and all its output is in the buffers.
    pub fn complete(&self) -> (done: bool)
        ensures
            done == self@.complete(),
    {
        match self.phase {
            Phase::Completed(_) => true,
            _ => false,
        }
    }

    /// Whether the execution has not started yet.
    pub fn is_pending(&self) -> (waiting: bool)
        ensures
            waiting == (self@.phase is Pending),
    {
        match self.phase {
            Phase::Pending => true,
            _ => false,
        }
    }

    /// Whether nothing will change any more.
    pub fn terminal(&self) -> (ended: bool)
        ensures
            ended == self@.terminal(),
    {
        match self.phase {
            Phase::Completed(_) | Phase::Failed(_) => true,
            _ => false,
        }
    }

    /// The exit status, once the execution is complete.
    pub fn status(&self) -> (status: Option<ExitStatus>)
        ensures
            status == self@.status(),
    {
        match self.phase {
            Phase::Completed(status) => Some(status),
            _ => None,
        }
    }

    /// The cause, once the execution has failed.
    pub fn failure(&self) -> (cause: Option<Failure>)
        ensures
            cause == self@.failure(),
    {
        match self.phase {
            Phase::Failed(cause) => Some(cause),
            _ => None,
        }
    }

    pub fn phase(&self) -> (phase: Phase)
        ensures
            phase == self@.phase,
    {
        self.phase
    }

    /// The standard output so far.
    pub fn stdout(&self) -> (bytes: Vec<u8>)
        ensures
            bytes@ == self@.stdout,
    {
        self.stdout.clone()
    }

    /// The standard error so far.
    pub fn stderr(&self) -> (bytes: Vec<u8>)
        ensures
            bytes@ == self@.stderr,
    {
        self.stderr.clone()
    }

    /// Both buffers, the completion flag and the exit status, read together.
    pub fn snapshot(&self) -> (shot: (Vec<u8>, Vec<u8>, bool, Option<ExitStatus>))
        ensures
            shot.0@ == self@.stdout,
            shot.1@ == self@.stderr,
            shot.2 == self@.complete(),
            shot.3 == self@.status(),
    {
        (self.stdout(), self.stderr(), self.complete(), self.status())
    }
}

fn settle(exited: Option<ExitStatus>, stdout_open: bool, stderr_open: bool) -> (phase: Phase)
    ensures
        phase == (Phase::Running { exited, stdout_open, stderr_open }).settled(),
{
    match exited {
        Some(status) => {
            if !stdout_open && !stderr_open {
                Phase::Completed(status)
            } else {
                Phase::Running { exited, stdout_open, stderr_open }
            }
        },
        None => Phase::Running { exited, stdout_open, stderr_open },
    }
}

/// A terminal handle never changes again: whatever is reported after an
/// execution has completed or failed, the handle stays as it is. In
/// particular a handle once seen complete is complete ever after.
pub proof fn law_terminal_is_final(h: Handle, events: Seq<EventView>)
    requires
        h.terminal(),
    ensures
        h.replay(events) == h,
        h.complete() ==> h.replay(events).complete(),
    decreases events.len(),
{
    if events.len() > 0 {
        law_terminal_is_final(h, events.drop_last());
    }
}

/// The buffers only grow: after any events, each buffer starts with what it
/// held before.
pub proof fn law_output_only_grows(h: Handle, events: Seq<EventView>)
    ensures
        h.stdout.is_prefix_of(h.replay(events).stdout),
        h.stderr.is_prefix_of(h.replay(events).stderr),
    decreases events.len(),
{
    if events.len() > 0 {
        law_output_only_grows(h, events.drop_last());
        let before = h.replay(events.drop_last());
        let after = before.step(events.last());
        assert(before.stdout.is_prefix_of(after.stdout));
        assert(before.stderr.is_prefix_of(after.stderr));
    }
}

/// While both streams of a running execution are open, every byte reported
/// is in the buffers: after any events that neither close a stream nor fail
/// the execution, in any order and with chunks of any size, each buffer
/// holds what it held at the start followed by all chunks reported for it,
/// and both streams are still open, whether or not the process has exited
/// meanwhile.
pub proof fn law_open_streams_keep_all_output(h: Handle, events: Seq<EventView>)
    requires
        h.phase is Running,
        h.phase->stdout_open,
        h.phase->stderr_open,
        forall|i: int|
            0 <= i < events.len() ==> !(events[i] is StdoutClosed) && !(events[i] is StderrClosed)
                && !(events[i] is Failed),
    ensures
        h.replay(events).stdout == h.stdout + reported_stdout(events),
        h.replay(events).stderr == h.stderr + reported_stderr(events),
        h.replay(events).phase is Running,
        h.replay(events).phase->stdout_open,
        h.replay(events).phase->stderr_open,
    decreases events.len(),
{
    if events.len() == 0 {
        assert(h.stdout + reported_stdout(events) =~= h.stdout);
        assert(h.stderr + reported_stderr(events) =~= h.stderr);
    } else {
        let earlier = events.drop_last();
        law_open_streams_keep_all_output(h, earlier);
        let before = h.replay(earlier);
        let after = before.step(events.last());
        assert(after.stdout =~= h.stdout + reported_stdout(events));
        assert(after.stderr =~= h.stderr + reported_stderr(events));
    }
}

/// While a local process runs, every byte drained by a poll is in the
/// buffers: after any number of polls that found the process running, of
/// chunks of any size, the buffers hold what they held at the start followed
/// by all chunks in order, and the execution still runs.
pub proof fn law_polls_keep_all_output(h: Handle, ticks: Seq<Tick>)
    requires
        h.phase == Phase::started(),
        forall|i: int| 0 <= i < ticks.len() ==> ticks[i].wait is Running,
    ensures
        h.poll_all(ticks) == (Handle {
            stdout: h.stdout + drained_stdout(ticks),
            stderr: h.stderr + drained_stderr(ticks),
            phase: Phase::started(),
        }),
    decreases ticks.len(),
{
    if ticks.len() == 0 {
        assert(h.stdout + drained_stdout(ticks) =~= h.stdout);
        assert(h.stderr + drained_stderr(ticks) =~= h.stderr);
    } else {
        let earlier = ticks.drop_last();
        law_polls_keep_all_output(h, earlier);
        let last = ticks.last();
        assert((h.stdout + drained_stdout(earlier)) + last.stdout =~= h.stdout + drained_stdout(
            ticks,
        ));
        assert((h.stderr + drained_stderr(earlier)) + last.stderr =~= h.stderr + drained_stderr(
            ticks,
        ));
    }
}

/// A completed local execution holds the whole output of its process: when
/// a process is started, polled any number of times while it runs and then
/// found exited, the handle is complete with that exit status, and its
/// buffers are exactly the chunks drained by all polls, the last included.
pub proof fn law_local_run_is_complete(ticks: Seq<Tick>, last: Tick, status: ExitStatus)
    requires
        forall|i: int| 0 <= i < ticks.len() ==> ticks[i].wait is Running,
        last.wait == Wait::Exited(status),
    ensures
        Handle::pending().step(EventView::Started).poll_all(ticks.push(last)) == (Handle {
            stdout: drained_stdout(ticks.push(last)),
            stderr: drained_stderr(ticks.push(last)),
            phase: Phase::Completed(status),
        }),
{
    let started = Handle::pending().step(EventView::Started);
    let all = ticks.push(last);
    assert(all.drop_last() =~= ticks);
    assert(all.last() == last);
    law_polls_keep_all_output(started, ticks);
    assert(started.stdout + drained_stdout(ticks) =~= drained_stdout(ticks));
    assert(started.stderr + drained_stderr(ticks) =~= drained_stderr(ticks));
}

/// An execution completes only when its process has exited and both its
/// streams have been read to the end: a step that makes a handle complete
/// leaves it with that process's first reported exit status, and was the
/// last of the three endings.
pub proof fn law_completion_follows_all_endings(h: Handle, event: EventView)
    requires
        !h.complete(),
        h.step(event).complete(),
    ensures
        h.phase is Running,
        event is Exited || event is StdoutClosed || event is StderrClosed,
        event is Exited ==> !h.phase->stdout_open && !h.phase->stderr_open,
        event is StdoutClosed ==> h.phase->exited is Some && !h.phase->stderr_open,
        event is StderrClosed ==> h.phase->exited is Some && !h.phase->stdout_open,
        h.step(event).stdout == h.stdout,
        h.step(event).stderr == h.stderr,
{
}

} // verus!
