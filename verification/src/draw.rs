//! What the dashboard shows: the selection and the keys that move it, the
//! table of a job with one row for each task, and the full output of one
//! task. The texts are made here; putting them on a terminal is left to the
//! program.

use crate::command::{CommandRunner, Handle, Phase};
use crate::runner::{all_succeeded_before, succeeded, JobRunner, JobThread, RunView, ThreadView};
use crate::text::{
    concat, concat_all, debug_text, decimal, decimal_string, from_utf8, join, joined, texts,
    to_debug_string,
};
use vstd::prelude::*;
use vstd::string::*;
use vstd::utf8::*;

verus! {

/// Which of the two screens is shown.
#[derive(Clone, Copy, Debug, PartialEq, Eq)]
pub enum DrawMode {
    /// The table of the job's tasks.
    Job,
    /// The output of the selected task.
    Task,
}

/// What the dashboard remembers between two frames.
#[derive(Clone, Copy, Debug, PartialEq, Eq)]
pub struct State {
    /// The position of the selected task in the table, if one is selected.
    pub selected: Option<usize>,
    pub draw_mode: DrawMode,
}

impl Default for State {
    fn default() -> (state: Self)
        ensures
            state.selected == Some(0usize),
            state.draw_mode == DrawMode::Job,
    {
        Self { selected: Some(0), draw_mode: DrawMode::Job }
    }
}

/// The selection one row up: the row before, or the first row again.
pub open spec fn row_above(selected: Option<usize>) -> Option<usize> {
    match selected {
        Some(x) => Some(if x == 0 { 0usize } else { (x - 1) as usize }),
        None => None,
    }
}

/// The selection one row down: the row after, but never past the last row.
pub open spec fn row_below(selected: Option<usize>, max: usize) -> Option<usize> {
    match selected {
        Some(x) => Some(if x < max { (x + 1) as usize } else { max }),
        None => None,
    }
}

/// One column of the job's table.
#[derive(Debug, PartialEq, Eq)]
pub struct Column {
    pub title: String,
    /// The share of the table's width, in percent.
    pub width: u16,
}

/// The titles and widths of a sequence of columns.
pub open spec fn column_views(columns: Seq<Column>) -> Seq<(Seq<char>, u16)> {
    Seq::new(columns.len(), |i: int| (columns[i].title@, columns[i].width))
}

/// The columns of the job's table, from left to right.
pub open spec fn job_columns() -> Seq<(Seq<char>, u16)> {
    seq![("Task"@, 20u16), ("Status"@, 6u16), ("Type"@, 14u16), ("Output"@, 60u16)]
}

/// The keys that the dashboard knows, as the help line lists them.
pub open spec fn help_commands() -> Seq<Seq<char>> {
    seq![
        "<ctrl+c>: Quit"@,
        "<↑/↓>: Navigate"@,
        "<enter>: View full logs"@,
        "<esc> Go back to Job view"@,
    ]
}

/// How the dashboard names the state of one execution.
pub open spec fn status_text(h: Handle) -> Seq<char> {
    match h.phase {
        Phase::Completed(status) => if status.succeeded() {
            "Complete"@
        } else {
            "Failed"@
        },
        Phase::Failed(_) => "Failed"@,
        _ => "In Progress"@,
    }
}

/// Whether an execution has ended without success: it has failed, or its
/// process has exited with another status than success.
pub open spec fn unsuccessful(h: Handle) -> bool {
    match h.phase {
        Phase::Failed(_) => true,
        Phase::Completed(status) => !status.succeeded(),
        _ => false,
    }
}

/// Whether some execution before a position has ended without success.
pub open spec fn any_unsuccessful_before(hs: Seq<Handle>, k: int) -> bool {
    exists|j: int| 0 <= j < k && unsuccessful(#[trigger] hs[j])
}

/// Whether the standard output of every execution is valid UTF-8.
pub open spec fn readable(hs: Seq<Handle>) -> bool {
    forall|i: int| 0 <= i < hs.len() ==> valid_utf8(#[trigger] hs[i].stdout)
}

/// Whether the standard error of every execution is valid UTF-8.
pub open spec fn readable_errors(hs: Seq<Handle>) -> bool {
    forall|i: int| 0 <= i < hs.len() ==> valid_utf8(#[trigger] hs[i].stderr)
}

/// The standard output of each execution as text.
pub open spec fn outputs(hs: Seq<Handle>) -> Seq<Seq<char>> {
    Seq::new(hs.len(), |i: int| decode_utf8(hs[i].stdout))
}

/// The standard error of each execution as text.
pub open spec fn error_outputs(hs: Seq<Handle>) -> Seq<Seq<char>> {
    Seq::new(hs.len(), |i: int| decode_utf8(hs[i].stderr))
}

/// The standard output of each execution as text, each written as `{:?}`
/// writes a string.
pub open spec fn quoted_outputs(hs: Seq<Handle>) -> Seq<Seq<char>> {
    Seq::new(hs.len(), |i: int| debug_text(decode_utf8(hs[i].stdout)))
}

impl ThreadView {
    /// The state of a task, over all its scripts: `Failed` as soon as one
    /// of them has ended without success; else `Complete` when there is a
    /// script and every script has exited with success; else `In Progress`.
    pub open spec fn status_text(self) -> Seq<char> {
        if any_unsuccessful_before(self.runners, self.runners.len() as int) {
            "Failed"@
        } else if self.runners.len() > 0 && all_succeeded_before(
            self.runners,
            self.runners.len() as int,
        ) {
            "Complete"@
        } else {
            "In Progress"@
        }
    }

    /// The state of each script of the task, in the scripts' order.
    pub open spec fn step_status_texts(self) -> Seq<Seq<char>> {
        Seq::new(self.runners.len(), |i: int| status_text(self.runners[i]))
    }

    /// The error text of the task: the standard error of its scripts one
    /// after the other, if all of it is valid UTF-8.
    pub open spec fn error_text(self) -> Option<Seq<char>> {
        if readable_errors(self.runners) {
            Some(concat(error_outputs(self.runners)))
        } else {
            None
        }
    }

    /// The row of the task in the job's table: its name, its state, its
    /// kind, and the quoted output of its scripts one after the other.
    pub open spec fn cells(self) -> Seq<Seq<char>> {
        seq![
            self.task.name(),
            self.status_text(),
            self.task.kind_name(),
            concat(quoted_outputs(self.runners)),
        ]
    }
}

/// The table of a job.
#[derive(Debug, PartialEq, Eq)]
pub struct JobScreen {
    pub title: String,
    /// One row for each task, one cell for each column.
    pub rows: Vec<Vec<String>>,
}

/// The output of one task.
#[derive(Debug, PartialEq, Eq)]
pub struct TaskScreen {
    pub title: String,
    /// What follows the title, set apart from it.
    pub status: String,
    /// The standard output of the task's scripts, one after the other.
    pub output: String,
    /// The standard error of the task's scripts, one after the other;
    /// absent when some of it is not valid UTF-8.
    pub errors: Option<String>,
}

/// What is shown.
#[derive(Debug, PartialEq, Eq)]
pub enum Screen {
    Job(JobScreen),
    Task(TaskScreen),
}

/// A [`Screen`] as a mathematical value.
pub enum ScreenView {
    Job { title: Seq<char>, rows: Seq<Seq<Seq<char>>> },
    Task { title: Seq<char>, status: Seq<char>, output: Seq<char>, errors: Option<Seq<char>> },
}

/// The text of a string that may be absent.
pub open spec fn text_of(text: Option<String>) -> Option<Seq<char>> {
    match text {
        Some(t) => Some(t@),
        None => None,
    }
}

/// The texts of a sequence of rows.
pub open spec fn row_texts(rows: Seq<Vec<String>>) -> Seq<Seq<Seq<char>>> {
    Seq::new(rows.len(), |i: int| texts(rows[i]@))
}

impl View for Screen {
    type V = ScreenView;

    open spec fn view(&self) -> ScreenView {
        match *self {
            Screen::Job(screen) => ScreenView::Job {
                title: screen.title@,
                rows: row_texts(screen.rows@),
            },
            Screen::Task(screen) => ScreenView::Task {
                title: screen.title@,
                status: screen.status@,
                output: screen.output@,
                errors: text_of(screen.errors),
            },
        }
    }
}

impl RunView {
    /// Whether all output of the job's table can be shown.
    pub open spec fn readable(self) -> bool {
        forall|i: int| 0 <= i < self.threads.len() ==> readable((#[trigger] self.threads[i]).runners)
    }

    /// The table of the job: `Job: ` and its name above one row for each
    /// task.
    pub open spec fn job_screen(self) -> ScreenView {
        ScreenView::Job {
            title: "Job: "@ + self.job.name,
            rows: Seq::new(self.threads.len(), |i: int| self.threads[i].cells()),
        }
    }

    /// Whether a selection names a task of the job in flight.
    pub open spec fn has_task(self, selected: Option<usize>) -> bool {
        selected matches Some(at) && at < self.threads.len() && at < self.job.tasks.len()
    }

    /// The output of the task at a position: the job, the position and the
    /// task's name above the output of its scripts one after the other, and
    /// the task's error text.
    pub open spec fn task_screen(self, at: int) -> ScreenView {
        ScreenView::Task {
            title: "Job: "@ + self.job.name + " - Task["@ + decimal(at as nat) + "]: "@
                + self.job.tasks[at].name() + " - "@,
            status: "STATUS"@,
            output: concat(outputs(self.threads[at].runners)),
            errors: self.threads[at].error_text(),
        }
    }

    /// Whether a dashboard in a given state can show the job: the output
    /// that the chosen screen shows is valid UTF-8.
    pub open spec fn shows(self, state: State) -> bool {
        match state.draw_mode {
            DrawMode::Job => self.readable(),
            DrawMode::Task => readable(self.threads[state.selected->0 as int].runners),
        }
    }

    /// What a dashboard in a given state shows of the job.
    pub open spec fn screen(self, state: State) -> ScreenView {
        match state.draw_mode {
            DrawMode::Job => self.job_screen(),
            DrawMode::Task => self.task_screen(state.selected->0 as int),
        }
    }
}

impl State {
    /// Moves the selection one row up.
    pub fn up_key(&mut self)
        ensures
            final(self).selected == row_above(old(self).selected),
            final(self).draw_mode == old(self).draw_mode,
    {
        self.selected = match self.selected {
            Some(x) => Some(x.saturating_sub(1)),
            None => None,
        };
    }

    /// Moves the selection one row down, `max` being the last row.
    pub fn down_key(&mut self, max: usize)
        ensures
            final(self).selected == row_below(old(self).selected, max),
            final(self).draw_mode == old(self).draw_mode,
    {
        self.selected = match self.selected {
            Some(x) => Some(if x < max { x + 1 } else { max }),
            None => None,
        };
    }

    /// Shows the output of the selected task.
    pub fn enter_key(&mut self)
        ensures
            final(self).selected == old(self).selected,
            final(self).draw_mode == DrawMode::Task,
    {
        self.draw_mode = DrawMode::Task;
    }

    /// Goes back to the table of the job.
    pub fn back_key(&mut self)
        ensures
            final(self).selected == old(self).selected,
            final(self).draw_mode == DrawMode::Job,
    {
        self.draw_mode = DrawMode::Job;
    }

    /// What is to be shown of a job, by the screen that is chosen. The
    /// screen of a task needs a selected task that the job has. There is
    /// nothing to show when output on the screen is not valid UTF-8.
    pub fn draw(&self, runner: &JobRunner) -> (screen: Option<Screen>)
        requires
            self.draw_mode == DrawMode::Task ==> runner@.has_task(self.selected),
        ensures
            screen is Some <==> runner@.shows(*self),
            screen matches Some(shown) ==> shown@ == runner@.screen(*self),
    {
        match self.draw_mode {
            DrawMode::Job => match draw_job(runner) {
                Some(screen) => Some(Screen::Job(screen)),
                None => None,
            },
            DrawMode::Task => match draw_task(self.selected, runner) {
                Some(screen) => Some(Screen::Task(screen)),
                None => None,
            },
        }
    }
}

/// The columns of the job's table, from left to right.
pub fn columns() -> (columns: Vec<Column>)
    ensures
        column_views(columns@) == job_columns(),
{
    let mut columns: Vec<Column> = Vec::new();
    columns.push(Column { title: String::from_str("Task"), width: 20 });
    columns.push(Column { title: String::from_str("Status"), width: 6 });
    columns.push(Column { title: String::from_str("Type"), width: 14 });
    columns.push(Column { title: String::from_str("Output"), width: 60 });
    assert(column_views(columns@) =~= job_columns());
    columns
}

/// The line that lists the keys, four spaces between each two.
pub fn help() -> (line: String)
    ensures
        line@ == joined(help_commands(), "    "@),
{
    let mut commands: Vec<String> = Vec::new();
    commands.push(String::from_str("<ctrl+c>: Quit"));
    commands.push(String::from_str("<↑/↓>: Navigate"));
    commands.push(String::from_str("<enter>: View full logs"));
    commands.push(String::from_str("<esc> Go back to Job view"));
    assert(texts(commands@) =~= help_commands());
    join(&commands, "    ")
}

/// The banner of the dashboard.
pub fn title() -> (banner: String)
    ensures
        banner@ == "♚ Checkmate ♔"@,
{
    String::from_str("♚ Checkmate ♔")
}

/// How the dashboard names the state of one execution.
pub fn status_label(runner: &CommandRunner) -> (label: String)
    ensures
        label@ == status_text(runner@),
{
    match runner.phase() {
        Phase::Completed(s) => {
            if s.success() {
                String::from_str("Complete")
            } else {
                String::from_str("Failed")
            }
        },
        Phase::Failed(_) => String::from_str("Failed"),
        _ => String::from_str("In Progress"),
    }
}

impl JobThread {
    /// How the dashboard names the state of the task.
    pub fn status_label(&self) -> (label: String)
        ensures
            label@ == self@.status_text(),
    {
        let ghost hs = self@.runners;
        let mut failed = false;
        let mut all_well = true;
        let mut i: usize = 0;
        while i < self.runners.len()
            invariant
                i <= self.runners.len(),
                hs == self@.runners,
                failed == any_unsuccessful_before(hs, i as int),
                all_well == all_succeeded_before(hs, i as int),
            decreases self.runners.len() - i,
        {
            let ghost h = hs[i as int];
            match self.runners[i].phase() {
                Phase::Completed(status) => {
                    if !status.success() {
                        failed = true;
                        all_well = false;
                    }
                },
                Phase::Failed(_) => {
                    failed = true;
                    all_well = false;
                },
                _ => {
                    all_well = false;
                },
            }
            proof {
                assert(any_unsuccessful_before(hs, i + 1) == (any_unsuccessful_before(hs, i as int)
                    || unsuccessful(h))) by {
                    if unsuccessful(h) {
                        assert(unsuccessful(hs[i as int]));
                    }
                    if any_unsuccessful_before(hs, i as int) {
                        let j = choose|j: int| 0 <= j < i && unsuccessful(#[trigger] hs[j]);
                        assert(unsuccessful(hs[j]));
                    }
                }
                assert(all_succeeded_before(hs, i + 1) == (all_succeeded_before(hs, i as int)
                    && succeeded(h))) by {
                    if all_succeeded_before(hs, i + 1) {
                        assert(succeeded(hs[i as int]));
                    }
                }
            }
            i += 1;
        }
        if failed {
            String::from_str("Failed")
        } else if self.runners.len() > 0 && all_well {
            String::from_str("Complete")
        } else {
            String::from_str("In Progress")
        }
    }

    /// How the dashboard names the state of each script of the task, in
    /// the scripts' order.
    pub fn step_labels(&self) -> (labels: Vec<String>)
        ensures
            texts(labels@) == self@.step_status_texts(),
    {
        let ghost hs = self@.runners;
        let mut labels: Vec<String> = Vec::new();
        let mut i: usize = 0;
        while i < self.runners.len()
            invariant
                i <= self.runners.len(),
                hs == self@.runners,
                labels.len() == i,
                forall|j: int| 0 <= j < i ==> (#[trigger] labels@[j])@ == status_text(hs[j]),
            decreases self.runners.len() - i,
        {
            labels.push(status_label(&self.runners[i]));
            i += 1;
        }
        assert(texts(labels@) =~= self@.step_status_texts());
        labels
    }

    /// The standard error of the task's scripts, one after the other. There
    /// is none when some of it is not valid UTF-8.
    pub fn errors(&self) -> (text: Option<String>)
        ensures
            text_of(text) == self@.error_text(),
    {
        let ghost hs = self@.runners;
        let mut parts: Vec<String> = Vec::new();
        let mut i: usize = 0;
        while i < self.runners.len()
            invariant
                i <= self.runners.len(),
                hs == self@.runners,
                parts.len() == i,
                forall|j: int| 0 <= j < i ==> valid_utf8(#[trigger] hs[j].stderr),
                forall|j: int| 0 <= j < i ==> (#[trigger] parts@[j])@ == decode_utf8(hs[j].stderr),
            decreases self.runners.len() - i,
        {
            match from_utf8(self.runners[i].stderr()) {
                Some(text) => {
                    parts.push(text);
                },
                None => {
                    assert(!valid_utf8(hs[i as int].stderr));
                    return None;
                },
            }
            i += 1;
        }
        assert(texts(parts@) =~= error_outputs(hs));
        Some(concat_all(&parts))
    }

    /// The standard output of the task's scripts, one after the other, each
    /// as `{:?}` writes it if `quoted`. There is none when some output is
    /// not valid UTF-8.
    pub fn output(&self, quoted: bool) -> (text: Option<String>)
        ensures
            text is Some <==> readable(self@.runners),
            text matches Some(t) ==> t@ == if quoted {
                concat(quoted_outputs(self@.runners))
            } else {
                concat(outputs(self@.runners))
            },
    {
        let ghost hs = self@.runners;
        let mut parts: Vec<String> = Vec::new();
        let mut i: usize = 0;
        while i < self.runners.len()
            invariant
                i <= self.runners.len(),
                hs == self@.runners,
                parts.len() == i,
                forall|j: int| 0 <= j < i ==> valid_utf8(#[trigger] hs[j].stdout),
                forall|j: int|
                    0 <= j < i ==> (#[trigger] parts@[j])@ == if quoted {
                        debug_text(decode_utf8(hs[j].stdout))
                    } else {
                        decode_utf8(hs[j].stdout)
                    },
            decreases self.runners.len() - i,
        {
            match from_utf8(self.runners[i].stdout()) {
                Some(text) => {
                    if quoted {
                        parts.push(to_debug_string(text.as_str()));
                    } else {
                        parts.push(text);
                    }
                },
                None => {
                    assert(!valid_utf8(hs[i as int].stdout));
                    return None;
                },
            }
            i += 1;
        }
        proof {
            if quoted {
                assert(texts(parts@) =~= quoted_outputs(hs));
            } else {
                assert(texts(parts@) =~= outputs(hs));
            }
        }
        Some(concat_all(&parts))
    }

    /// The row of the task in the job's table, one cell for each column.
    /// There is none when some output is not valid UTF-8.
    pub fn cells(&self) -> (row: Option<Vec<String>>)
        ensures
            row is Some <==> readable(self@.runners),
            row matches Some(r) ==> texts(r@) == self@.cells(),
    {
        match self.output(true) {
            Some(output) => {
                let mut row: Vec<String> = Vec::new();
                row.push(self.task.name());
                row.push(self.status_label());
                row.push(self.task.kind_name());
                row.push(output);
                assert(texts(row@) =~= self@.cells());
                Some(row)
            },
            None => None,
        }
    }
}

/// The table of a job. There is none when some output is not valid UTF-8.
pub fn draw_job(runner: &JobRunner) -> (screen: Option<JobScreen>)
    ensures
        screen is Some <==> runner@.readable(),
        screen matches Some(s) ==> Screen::Job(s)@ == runner@.job_screen(),
{
    let ghost run = runner@;
    let mut rows: Vec<Vec<String>> = Vec::new();
    let mut i: usize = 0;
    while i < runner.threads.len()
        invariant
            i <= runner.threads.len(),
            run == runner@,
            rows.len() == i,
            forall|j: int| 0 <= j < i ==> readable((#[trigger] run.threads[j]).runners),
            forall|j: int| 0 <= j < i ==> texts((#[trigger] rows@[j])@) == run.threads[j].cells(),
        decreases runner.threads.len() - i,
    {
        match runner.threads[i].cells() {
            Some(row) => {
                rows.push(row);
            },
            None => {
                assert(!readable(run.threads[i as int].runners));
                return None;
            },
        }
        i += 1;
    }
    let mut title = String::from_str("Job: ");
    title.append(runner.job.name.as_str());
    assert(row_texts(rows@) =~= run.job_screen()->Job_rows);
    Some(JobScreen { title, rows })
}

/// The output of the selected task, which must be a task that the job has.
/// There is none when some output of the task is not valid UTF-8.
pub fn draw_task(selected: Option<usize>, runner: &JobRunner) -> (screen: Option<TaskScreen>)
    requires
        runner@.has_task(selected),
    ensures
        screen is Some <==> readable(runner@.threads[selected->0 as int].runners),
        screen matches Some(s) ==> Screen::Task(s)@ == runner@.task_screen(selected->0 as int),
{
    let at = match selected {
        Some(at) => at,
        None => {
            return None;
        },
    };
    let output = match runner.threads[at].output(false) {
        Some(output) => output,
        None => {
            return None;
        },
    };
    let errors = runner.threads[at].errors();
    let mut title = String::from_str("Job: ");
    title.append(runner.job.name.as_str());
    title.append(" - Task[");
    title.append(decimal_string(at).as_str());
    title.append("]: ");
    title.append(runner.job.tasks[at].name().as_str());
    title.append(" - ");
    Some(TaskScreen { title, status: String::from_str("STATUS"), output, errors })
}

} // verus!
