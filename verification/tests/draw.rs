use checkmate::draw::{columns, draw_job, draw_task, help, status_label, title};
use checkmate::{
    Column, CommandRunner, Destination, DrawMode, Event, ExitStatus, Failure, Job,
    JobRunner, JobScreen, JobThread, Screen, Script, State, Task, TaskScreen, Wait,
};

fn script(name: &str) -> Script {
    Script { name: name.to_string(), ..Script::default() }
}

fn finished(code: i32, stdout: &[u8]) -> CommandRunner {
    let mut handle = CommandRunner::from_command(true);
    handle.poll(Wait::Exited(ExitStatus::new(Some(code))), stdout.to_vec(), Vec::new());
    handle
}

fn live(stdout: &[u8]) -> CommandRunner {
    let mut handle = CommandRunner::from_command(true);
    handle.apply(Event::Stdout(stdout.to_vec()));
    handle
}

fn sample_run() -> JobRunner {
    let chain = Task::Serial(vec![script("write"), script("read")]);
    let remote = Task::Script(Script {
        destination: Destination::Remote("ops@box".to_string()),
        ..script("deploy")
    });
    let local = Task::Script(script("build"));
    JobRunner {
        job: Job {
            name: "Nightly".to_string(),
            tasks: vec![local.clone(), remote.clone(), chain.clone()],
        },
        threads: vec![
            JobThread { task: local, runners: vec![finished(0, b"hello\n")] },
            JobThread { task: remote, runners: vec![CommandRunner::from_command_ssh(false)] },
            JobThread { task: chain, runners: vec![finished(1, b"a\tb"), live(b"c")] },
        ],
    }
}

fn strings(parts: &[&str]) -> Vec<String> {
    parts.iter().map(|p| p.to_string()).collect()
}

#[test]
fn default_state_selects_the_first_row_of_the_job_table() {
    let state = State::default();
    assert_eq!(state.selected, Some(0));
    assert_eq!(state.draw_mode, DrawMode::Job);
}

#[test]
fn up_key_moves_up_and_stops_at_the_first_row() {
    let mut state = State { selected: Some(2), draw_mode: DrawMode::Task };
    state.up_key();
    assert_eq!(state.selected, Some(1));
    state.up_key();
    assert_eq!(state.selected, Some(0));
    state.up_key();
    assert_eq!(state.selected, Some(0));
    assert_eq!(state.draw_mode, DrawMode::Task);
    let mut none = State { selected: None, draw_mode: DrawMode::Job };
    none.up_key();
    assert_eq!(none.selected, None);
    let mut top = State { selected: Some(usize::MAX), draw_mode: DrawMode::Job };
    top.up_key();
    assert_eq!(top.selected, Some(usize::MAX - 1));
}

#[test]
fn down_key_moves_down_and_stops_at_the_last_row() {
    let mut state = State::default();
    state.down_key(2);
    assert_eq!(state.selected, Some(1));
    state.down_key(2);
    assert_eq!(state.selected, Some(2));
    state.down_key(2);
    assert_eq!(state.selected, Some(2));
    assert_eq!(state.draw_mode, DrawMode::Job);
    state.down_key(0);
    assert_eq!(state.selected, Some(0));
    let mut none = State { selected: None, draw_mode: DrawMode::Job };
    none.down_key(5);
    assert_eq!(none.selected, None);
    let mut far = State { selected: Some(usize::MAX), draw_mode: DrawMode::Job };
    far.down_key(usize::MAX);
    assert_eq!(far.selected, Some(usize::MAX));
    far.down_key(3);
    assert_eq!(far.selected, Some(3));
}

#[test]
fn enter_and_back_switch_the_screen_and_keep_the_selection() {
    let mut state = State { selected: Some(4), draw_mode: DrawMode::Job };
    state.enter_key();
    assert_eq!(state, State { selected: Some(4), draw_mode: DrawMode::Task });
    state.enter_key();
    assert_eq!(state.draw_mode, DrawMode::Task);
    state.back_key();
    assert_eq!(state, State { selected: Some(4), draw_mode: DrawMode::Job });
    state.back_key();
    assert_eq!(state.draw_mode, DrawMode::Job);
}

#[test]
fn job_table_has_four_columns_that_fill_the_width() {
    let expected = vec![
        Column { title: "Task".to_string(), width: 20 },
        Column { title: "Status".to_string(), width: 6 },
        Column { title: "Type".to_string(), width: 14 },
        Column { title: "Output".to_string(), width: 60 },
    ];
    assert_eq!(columns(), expected);
    assert_eq!(columns().iter().map(|c| c.width).sum::<u16>(), 100);
}

#[test]
fn help_lists_the_keys_four_spaces_apart() {
    assert_eq!(
        help(),
        "<ctrl+c>: Quit    <↑/↓>: Navigate    <enter>: View full logs    <esc> Go back to Job view"
    );
}

#[test]
fn title_is_the_banner() {
    assert_eq!(title(), "♚ Checkmate ♔");
}

#[test]
fn status_label_names_each_phase() {
    assert_eq!(status_label(&CommandRunner::new()), "In Progress");
    assert_eq!(status_label(&CommandRunner::from_command(true)), "In Progress");
    assert_eq!(status_label(&finished(0, b"")), "Complete");
    assert_eq!(status_label(&finished(1, b"")), "Failed");
    assert_eq!(status_label(&CommandRunner::from_command(false)), "Failed");
    assert_eq!(status_label(&CommandRunner::from_command_ssh(false)), "Failed");
    let mut signalled = CommandRunner::from_command(true);
    signalled.poll(Wait::Exited(ExitStatus::new(None)), Vec::new(), Vec::new());
    assert_eq!(status_label(&signalled), "Failed");
    let mut draining = CommandRunner::from_command(true);
    draining.apply(Event::Exited(ExitStatus::new(Some(0))));
    assert_eq!(status_label(&draining), "In Progress");
}

fn chain(runners: Vec<CommandRunner>) -> JobThread {
    let scripts = (0..runners.len()).map(|i| script(&format!("s{}", i))).collect();
    JobThread { task: Task::Serial(scripts), runners }
}

#[test]
fn task_status_looks_at_every_script() {
    let run = sample_run();
    assert_eq!(run.threads[0].status_label(), "Complete");
    assert_eq!(run.threads[1].status_label(), "Failed");
    assert_eq!(run.threads[2].status_label(), "Failed");
    let pending = CommandRunner::new;
    assert_eq!(chain(vec![finished(0, b""), finished(0, b"")]).status_label(), "Complete");
    assert_eq!(chain(vec![finished(0, b""), live(b"")]).status_label(), "In Progress");
    assert_eq!(chain(vec![finished(0, b""), pending()]).status_label(), "In Progress");
    assert_eq!(chain(vec![pending(), pending()]).status_label(), "In Progress");
    assert_eq!(chain(vec![live(b"x")]).status_label(), "In Progress");
    assert_eq!(chain(vec![finished(0, b"")]).status_label(), "Complete");
    assert_eq!(chain(vec![finished(3, b"")]).status_label(), "Failed");
}

#[test]
fn task_with_a_failed_step_is_failed_whatever_follows() {
    let spawn_failed = || CommandRunner::from_command(false);
    assert_eq!(chain(vec![spawn_failed(), finished(0, b"")]).status_label(), "Failed");
    assert_eq!(chain(vec![finished(1, b""), finished(0, b"")]).status_label(), "Failed");
    assert_eq!(chain(vec![finished(0, b""), spawn_failed()]).status_label(), "Failed");
    assert_eq!(chain(vec![spawn_failed(), live(b"")]).status_label(), "Failed");
    assert_eq!(
        chain(vec![spawn_failed(), CommandRunner::new(), CommandRunner::new()]).status_label(),
        "Failed"
    );
    assert_eq!(
        chain(vec![finished(0, b""), finished(0, b""), finished(2, b"")]).status_label(),
        "Failed"
    );
}

#[test]
fn task_without_scripts_is_in_progress() {
    assert_eq!(chain(Vec::new()).status_label(), "In Progress");
}

#[test]
fn step_labels_name_each_script_in_order() {
    let thread = chain(vec![
        CommandRunner::from_command(false),
        finished(0, b""),
        finished(1, b""),
        live(b""),
        CommandRunner::new(),
    ]);
    assert_eq!(
        thread.step_labels(),
        strings(&["Failed", "Complete", "Failed", "In Progress", "In Progress"])
    );
    assert_eq!(chain(Vec::new()).step_labels(), Vec::<String>::new());
}

fn with_stderr(stderr: &[u8]) -> CommandRunner {
    let mut handle = CommandRunner::from_command(true);
    handle.apply(Event::Stderr(stderr.to_vec()));
    handle
}

#[test]
fn errors_put_the_standard_error_of_the_scripts_one_after_the_other() {
    let thread = chain(vec![with_stderr(b"warn\n"), with_stderr(b""), with_stderr("grüß".as_bytes())]);
    assert_eq!(thread.errors(), Some("warn\ngrüß".to_string()));
    assert_eq!(chain(Vec::new()).errors(), Some(String::new()));
    assert_eq!(chain(vec![with_stderr(b"ok"), with_stderr(&[0xff])]).errors(), None);
}

#[test]
fn output_puts_the_scripts_one_after_the_other() {
    let run = sample_run();
    assert_eq!(run.threads[2].output(false), Some("a\tbc".to_string()));
    assert_eq!(run.threads[2].output(true), Some("\"a\\tb\"\"c\"".to_string()));
    assert_eq!(run.threads[0].output(false), Some("hello\n".to_string()));
    assert_eq!(run.threads[0].output(true), Some("\"hello\\n\"".to_string()));
    assert_eq!(run.threads[1].output(false), Some(String::new()));
    assert_eq!(run.threads[1].output(true), Some("\"\"".to_string()));
    let empty = JobThread { task: Task::Serial(Vec::new()), runners: Vec::new() };
    assert_eq!(empty.output(false), Some(String::new()));
    assert_eq!(empty.output(true), Some(String::new()));
}

#[test]
fn output_decodes_utf8() {
    let thread = JobThread {
        task: Task::Script(script("s")),
        runners: vec![live("grüße ♔".as_bytes())],
    };
    assert_eq!(thread.output(false), Some("grüße ♔".to_string()));
    assert_eq!(thread.output(true), Some(format!("{:?}", "grüße ♔")));
}

#[test]
fn output_that_is_not_utf8_cannot_be_shown() {
    let good = live(b"fine");
    let bad = live(&[0xff, 0xfe]);
    let cut = live(&"ü".as_bytes()[..1]);
    let thread = |runners: Vec<CommandRunner>| JobThread {
        task: Task::Serial(vec![script("a"), script("b")]),
        runners,
    };
    assert_eq!(thread(vec![good.clone(), bad.clone()]).output(false), None);
    assert_eq!(thread(vec![bad.clone(), good.clone()]).output(true), None);
    assert_eq!(thread(vec![good.clone(), cut]).output(true), None);
    assert_eq!(thread(vec![bad, good.clone()]).cells(), None);
    assert!(thread(vec![good.clone(), good]).cells().is_some());
}

#[test]
fn cells_are_name_status_kind_and_quoted_output() {
    let run = sample_run();
    assert_eq!(
        run.threads[0].cells(),
        Some(strings(&["build", "Complete", "Local", "\"hello\\n\""]))
    );
    assert_eq!(
        run.threads[1].cells(),
        Some(strings(&["deploy", "Failed", "Remote: ops@box", "\"\""]))
    );
    assert_eq!(
        run.threads[2].cells(),
        Some(strings(&["write => read", "Failed", "Serial", "\"a\\tb\"\"c\""]))
    );
}

#[test]
fn job_screen_has_a_title_and_one_row_per_task() {
    let run = sample_run();
    let expected = JobScreen {
        title: "Job: Nightly".to_string(),
        rows: vec![
            strings(&["build", "Complete", "Local", "\"hello\\n\""]),
            strings(&["deploy", "Failed", "Remote: ops@box", "\"\""]),
            strings(&["write => read", "Failed", "Serial", "\"a\\tb\"\"c\""]),
        ],
    };
    assert_eq!(draw_job(&run), Some(expected));
    let empty = Job { name: String::new(), tasks: Vec::new() }.run();
    assert_eq!(draw_job(&empty), Some(JobScreen { title: "Job: ".to_string(), rows: Vec::new() }));
}

#[test]
fn job_screen_needs_readable_output_everywhere() {
    let mut run = sample_run();
    run.threads[2].runners[1] = live(&[0xc3]);
    assert_eq!(draw_job(&run), None);
    let state = State::default();
    assert_eq!(state.draw(&run), None);
}

#[test]
fn task_screen_shows_the_selected_task_in_full() {
    let run = sample_run();
    assert_eq!(
        draw_task(Some(2), &run),
        Some(TaskScreen {
            title: "Job: Nightly - Task[2]: write => read - ".to_string(),
            status: "STATUS".to_string(),
            output: "a\tbc".to_string(),
            errors: Some(String::new()),
        })
    );
    assert_eq!(
        draw_task(Some(0), &run),
        Some(TaskScreen {
            title: "Job: Nightly - Task[0]: build - ".to_string(),
            status: "STATUS".to_string(),
            output: "hello\n".to_string(),
            errors: Some(String::new()),
        })
    );
}

#[test]
fn task_screen_shows_the_error_text_of_the_task() {
    let mut run = sample_run();
    run.threads[2].runners[0].apply(Event::Stderr(b"late".to_vec()));
    run.threads[2].runners[1].apply(Event::Stderr(b"no such file\n".to_vec()));
    let screen = draw_task(Some(2), &run).unwrap();
    assert_eq!(screen.output, "a\tbc");
    assert_eq!(screen.errors, Some("no such file\n".to_string()));
    run.threads[2].runners[1].apply(Event::Stderr(vec![0xff]));
    let screen = draw_task(Some(2), &run).unwrap();
    assert_eq!(screen.output, "a\tbc");
    assert_eq!(screen.errors, None);
}

#[test]
fn task_screen_numbers_tasks_in_decimal() {
    let tasks: Vec<Task> = (0..12).map(|i| Task::Script(script(&format!("t{}", i)))).collect();
    let run = Job { name: "J".to_string(), tasks }.run();
    let screen = draw_task(Some(11), &run).unwrap();
    assert_eq!(screen.title, "Job: J - Task[11]: t11 - ");
    assert_eq!(screen.output, "");
    let first = draw_task(Some(0), &run).unwrap();
    assert_eq!(first.title, "Job: J - Task[0]: t0 - ");
}

#[test]
fn task_screen_needs_readable_output_of_the_selected_task_only() {
    let mut run = sample_run();
    run.threads[0].runners[0] = live(&[0x80]);
    assert_eq!(draw_task(Some(0), &run), None);
    assert!(draw_task(Some(2), &run).is_some());
}

#[test]
fn draw_follows_the_draw_mode() {
    let run = sample_run();
    let mut state = State::default();
    assert_eq!(state.draw(&run), Some(Screen::Job(draw_job(&run).unwrap())));
    state.down_key(2);
    state.enter_key();
    assert_eq!(state.draw(&run), Some(Screen::Task(draw_task(Some(1), &run).unwrap())));
    match state.draw(&run) {
        Some(Screen::Task(screen)) => {
            assert_eq!(screen.title, "Job: Nightly - Task[1]: deploy - ");
            assert_eq!(screen.output, "");
        }
        other => panic!("unexpected screen: {:?}", other),
    }
    state.back_key();
    assert!(matches!(state.draw(&run), Some(Screen::Job(_))));
}

#[test]
fn job_screen_does_not_need_a_selection() {
    let run = sample_run();
    let none = State { selected: None, draw_mode: DrawMode::Job };
    assert_eq!(none.draw(&run), Some(Screen::Job(draw_job(&run).unwrap())));
    let far = State { selected: Some(99), draw_mode: DrawMode::Job };
    assert_eq!(far.draw(&run), Some(Screen::Job(draw_job(&run).unwrap())));
    let empty = Job { name: "e".to_string(), tasks: Vec::new() }.run();
    assert!(matches!(State::default().draw(&empty), Some(Screen::Job(_))));
}

#[test]
fn failed_handle_shows_as_failed_with_its_cause() {
    let handle = CommandRunner::from_command_ssh(false);
    assert_eq!(status_label(&handle), "Failed");
    assert_eq!(handle.failure(), Some(Failure::UploadError));
}
