use checkmate::{
    generate_test_data, Destination, Environment, Job, Script, Shell, Task,
};

fn script(name: &str) -> Script {
    Script { name: name.to_string(), ..Script::default() }
}

fn remote(name: &str, host: &str) -> Script {
    Script {
        name: name.to_string(),
        destination: Destination::Remote(host.to_string()),
        ..Script::default()
    }
}

#[test]
fn default_script_prints_the_version_of_bash() {
    let s = Script::default();
    assert_eq!(s.name, "default");
    assert_eq!(s.destination, Destination::Local);
    assert_eq!(s.environment, Environment::Clear);
    assert_eq!(s.shell, Shell::Bash);
    assert_eq!(s.script, "bash --version");
}

#[test]
fn shell_path_is_bash_or_the_custom_program() {
    assert_eq!(Shell::Bash.path(), Ok("bash".to_string()));
    assert_eq!(Shell::Custom("/bin/zsh".to_string()).path(), Ok("/bin/zsh".to_string()));
    assert_eq!(Shell::Custom(String::new()).path(), Ok(String::new()));
}

#[test]
fn environment_does_not_change_the_shell() {
    let custom = Shell::Custom("/usr/bin/fish".to_string());
    assert_eq!(Environment::Clear.with_shell(&Shell::Bash), Ok("bash".to_string()));
    assert_eq!(Environment::Current.with_shell(&Shell::Bash), Ok("bash".to_string()));
    assert_eq!(Environment::Clear.with_shell(&custom), Ok("/usr/bin/fish".to_string()));
    assert_eq!(Environment::Current.with_shell(&custom), Ok("/usr/bin/fish".to_string()));
}

#[test]
fn script_task_is_named_after_its_script() {
    assert_eq!(Task::Script(script("build")).name(), "build");
    assert_eq!(Task::Script(script("")).name(), "");
}

#[test]
fn serial_task_joins_names_in_order() {
    let chain = Task::Serial(vec![script("write"), script("read"), script("check")]);
    assert_eq!(chain.name(), "write => read => check");
    assert_eq!(Task::Serial(vec![script("solo")]).name(), "solo");
    assert_eq!(Task::Serial(Vec::new()).name(), "");
}

#[test]
fn kind_name_tells_local_remote_and_serial_apart() {
    assert_eq!(Task::Script(script("a")).kind_name(), "Local");
    assert_eq!(Task::Script(remote("a", "user@host")).kind_name(), "Remote: user@host");
    assert_eq!(Task::Script(remote("a", "")).kind_name(), "Remote: ");
    assert_eq!(Task::Serial(vec![remote("a", "h")]).kind_name(), "Serial");
    assert_eq!(Task::Serial(Vec::new()).kind_name(), "Serial");
}

#[test]
fn task_prints_as_its_destination_or_serial() {
    assert_eq!(Task::Script(script("a")).to_text(), "Local");
    assert_eq!(Task::Script(remote("a", "user@host")).to_text(), "Remote(\"user@host\")");
    assert_eq!(Task::Script(remote("a", "a\"b\\c\n")).to_text(), "Remote(\"a\\\"b\\\\c\\n\")");
    assert_eq!(Task::Serial(vec![script("a")]).to_text(), "Serial");
}

#[test]
fn task_text_is_what_debug_prints_of_the_destination() {
    for host in ["", "h", "tab\there", "quote'\"", "ünï"] {
        let destination = Destination::Remote(host.to_string());
        let expected = format!("{:?}", destination);
        assert_eq!(Task::Script(remote("x", host)).to_text(), expected);
    }
    assert_eq!(Task::Script(script("x")).to_text(), format!("{:?}", Destination::Local));
}

#[test]
fn task_len_counts_its_scripts() {
    assert_eq!(Task::Script(script("a")).len(), 1);
    assert_eq!(Task::Serial(Vec::new()).len(), 0);
    assert_eq!(Task::Serial(vec![script("a"), script("b"), script("c")]).len(), 3);
}

#[test]
fn task_script_finds_each_step_in_order() {
    let single = Task::Script(script("a"));
    assert_eq!(single.script(0), Some(&script("a")));
    assert_eq!(single.script(1), None);
    let chain = Task::Serial(vec![script("a"), script("b")]);
    assert_eq!(chain.script(0), Some(&script("a")));
    assert_eq!(chain.script(1), Some(&script("b")));
    assert_eq!(chain.script(2), None);
    assert_eq!(Task::Serial(Vec::new()).script(0), None);
}

#[test]
fn clones_are_equal_to_what_they_copy() {
    let job = generate_test_data();
    assert_eq!(job.clone(), job);
    for task in &job.tasks {
        assert_eq!(&task.clone(), task);
    }
    let s = remote("n", "h");
    assert_eq!(s.clone(), s);
    assert_eq!(s.destination.clone(), s.destination);
    let shell = Shell::Custom("sh".to_string());
    assert_eq!(shell.clone(), shell);
}

#[test]
fn test_data_is_the_sample_job() {
    let host = "zthayer@10.17.68.57";
    let expected = Job {
        name: "Test".to_string(),
        tasks: vec![
            Task::Script(Script {
                name: "local: bash_version".to_string(),
                script: "bash --version".to_string(),
                ..Script::default()
            }),
            Task::Script(Script {
                name: "znix: bash_version".to_string(),
                script: "bash --version".to_string(),
                destination: Destination::Remote(host.to_string()),
                ..Script::default()
            }),
            Task::Serial(vec![
                Script {
                    name: "write".to_string(),
                    script: "date >> /tmp/date.tmp".to_string(),
                    destination: Destination::Remote(host.to_string()),
                    ..Script::default()
                },
                Script {
                    name: "read".to_string(),
                    script: "cat /tmp/date.tmp".to_string(),
                    destination: Destination::Remote(host.to_string()),
                    ..Script::default()
                },
            ]),
        ],
    };
    assert_eq!(generate_test_data(), expected);
    assert_eq!(generate_test_data().tasks[2].name(), "write => read");
}

#[test]
fn remote_text_wraps_the_quoted_host() {
    assert_eq!(checkmate::job::remote_to_text("\"h\""), "Remote(\"h\")");
    assert_eq!(checkmate::job::remote_to_text(""), "Remote()");
    assert_eq!(checkmate::job::remote_to_text("a)b"), "Remote(a)b)");
}
