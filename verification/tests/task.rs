use terminal_panel::shell::WindowsShellType;
use terminal_panel::task::{
    clone_strings, invocation_style_of, resolve_shell, retrieve_system_shell, run_in_shell,
    Platform, RevealStrategy, Shell, ShellEnvironment, SpawnInTerminal,
};

fn strings(list: &[&str]) -> Vec<String> {
    list.iter().map(|s| s.to_string()).collect()
}

fn cargo_test(shell: Shell) -> SpawnInTerminal {
    SpawnInTerminal {
        id: "cargo-test".to_string(),
        full_label: "cargo test --all".to_string(),
        command: "cargo".to_string(),
        args: strings(&["test", "--all"]),
        command_label: "cargo test --all".to_string(),
        use_new_terminal: false,
        allow_concurrent_runs: false,
        reveal: RevealStrategy::Always,
        shell,
    }
}

fn environment(platform: Platform, local: Option<bool>, shell: Option<&str>) -> ShellEnvironment {
    ShellEnvironment {
        platform,
        project_is_local: local,
        shell_variable: shell.map(|s| s.to_string()),
    }
}

#[test]
fn system_shell_is_the_shell_variable() {
    assert_eq!(
        retrieve_system_shell(Platform::Other, Some("/bin/zsh".to_string())),
        Some("/bin/zsh".to_string())
    );
    assert_eq!(retrieve_system_shell(Platform::Other, None), None);
}

#[test]
fn system_shell_on_windows_is_powershell() {
    assert_eq!(retrieve_system_shell(Platform::Windows, None), Some("powershell".to_string()));
    assert_eq!(
        retrieve_system_shell(Platform::Windows, Some("/bin/zsh".to_string())),
        Some("powershell".to_string())
    );
}

#[test]
fn a_local_project_runs_the_system_shell() {
    assert_eq!(
        resolve_shell(Shell::System, environment(Platform::Other, Some(true), Some("/bin/fish"))),
        Some(("/bin/fish".to_string(), Vec::new()))
    );
    assert_eq!(
        resolve_shell(Shell::System, environment(Platform::Windows, Some(true), None)),
        Some(("powershell".to_string(), Vec::new()))
    );
}

#[test]
fn a_local_project_without_shell_variable_has_no_shell() {
    assert_eq!(resolve_shell(Shell::System, environment(Platform::Other, Some(true), None)), None);
}

#[test]
fn a_remote_project_runs_the_far_shell() {
    assert_eq!(
        resolve_shell(Shell::System, environment(Platform::Other, Some(false), Some("/bin/zsh"))),
        Some(("\"${SHELL:-sh}\"".to_string(), Vec::new()))
    );
    assert_eq!(
        resolve_shell(Shell::System, environment(Platform::Windows, Some(false), None)),
        Some(("\"${SHELL:-sh}\"".to_string(), Vec::new()))
    );
}

#[test]
fn without_a_window_there_is_no_system_shell() {
    assert_eq!(
        resolve_shell(Shell::System, environment(Platform::Other, None, Some("/bin/zsh"))),
        None
    );
}

#[test]
fn a_named_program_is_taken_as_it_is() {
    assert_eq!(
        resolve_shell(Shell::Program("nu".to_string()), environment(Platform::Other, None, None)),
        Some(("nu".to_string(), Vec::new()))
    );
    assert_eq!(
        resolve_shell(
            Shell::WithArguments { program: "bash".to_string(), args: strings(&["--norc", "-l"]) },
            environment(Platform::Other, Some(false), None)
        ),
        Some(("bash".to_string(), strings(&["--norc", "-l"])))
    );
}

#[test]
fn styles_are_told_apart_on_windows_only() {
    assert_eq!(invocation_style_of(Platform::Windows, "pwsh"), WindowsShellType::Powershell);
    assert_eq!(invocation_style_of(Platform::Windows, "cmd.exe"), WindowsShellType::Cmd);
    assert_eq!(invocation_style_of(Platform::Windows, "bash"), WindowsShellType::Other);
    assert_eq!(invocation_style_of(Platform::Other, "pwsh"), WindowsShellType::Other);
    assert_eq!(invocation_style_of(Platform::Other, "cmd"), WindowsShellType::Other);
}

#[test]
fn a_task_is_run_through_an_interactive_shell() {
    let wrapped =
        run_in_shell(cargo_test(Shell::System), Platform::Other, "/bin/zsh".to_string(), Vec::new());
    assert_eq!(wrapped.command_label, "/bin/zsh -i -c 'cargo test --all'");
    assert_eq!(wrapped.command, "/bin/zsh");
    assert_eq!(wrapped.args, strings(&["-i", "-c", "cargo test --all"]));
    // Everything else is kept.
    assert_eq!(wrapped.id, "cargo-test");
    assert_eq!(wrapped.full_label, "cargo test --all");
    assert!(!wrapped.use_new_terminal);
    assert!(!wrapped.allow_concurrent_runs);
    assert_eq!(wrapped.reveal, RevealStrategy::Always);
    assert_eq!(wrapped.shell, Shell::System);
}

#[test]
fn the_shell_arguments_come_first() {
    let wrapped = run_in_shell(
        cargo_test(Shell::System),
        Platform::Other,
        "bash".to_string(),
        strings(&["--norc"]),
    );
    assert_eq!(wrapped.args, strings(&["--norc", "-i", "-c", "cargo test --all"]));
}

#[test]
fn a_task_without_arguments_is_its_command() {
    let mut task = cargo_test(Shell::System);
    task.args = Vec::new();
    task.command_label = "cargo".to_string();
    let wrapped = run_in_shell(task, Platform::Other, "sh".to_string(), Vec::new());
    assert_eq!(wrapped.args, strings(&["-i", "-c", "cargo"]));
    assert_eq!(wrapped.command_label, "sh -i -c 'cargo'");
}

#[test]
fn variables_stay_as_they_are_off_windows() {
    let mut task = cargo_test(Shell::System);
    task.command = "echo".to_string();
    task.args = strings(&["$HOME", "${USER}", "${"]);
    let wrapped = run_in_shell(task, Platform::Other, "pwsh".to_string(), Vec::new());
    assert_eq!(wrapped.args, strings(&["-i", "-c", "echo $HOME ${USER} ${"]));
    assert_eq!(wrapped.command_label, "pwsh -i -c 'cargo test --all'");
}

#[test]
fn powershell_takes_the_command_after_capital_c() {
    let mut task = cargo_test(Shell::System);
    task.command = "echo".to_string();
    task.args = strings(&["$HOME", "${USER}", "${X:-y}", "done"]);
    let wrapped = run_in_shell(task, Platform::Windows, "powershell".to_string(), Vec::new());
    assert_eq!(wrapped.command, "powershell");
    assert_eq!(wrapped.args, strings(&["-C", "echo $env:HOME $env:USER ${X:-y} done"]));
    assert_eq!(wrapped.command_label, "powershell -C 'cargo test --all'");
}

#[test]
fn the_command_prompt_takes_the_command_after_slash_c() {
    let mut task = cargo_test(Shell::System);
    task.command = "echo".to_string();
    task.args = strings(&["$HOME", "${USER}"]);
    let wrapped = run_in_shell(
        task,
        Platform::Windows,
        "C:\\Windows\\System32\\cmd.exe".to_string(),
        strings(&["/Q"]),
    );
    assert_eq!(wrapped.args, strings(&["/Q", "/C", "echo %HOME% %USER%"]));
    assert_eq!(
        wrapped.command_label,
        "C:\\Windows\\System32\\cmd.exe /C 'cargo test --all'"
    );
}

#[test]
fn another_shell_on_windows_is_run_like_a_unix_shell() {
    let mut task = cargo_test(Shell::System);
    task.args = strings(&["$HOME"]);
    let wrapped = run_in_shell(task, Platform::Windows, "bash.exe".to_string(), Vec::new());
    assert_eq!(wrapped.args, strings(&["-i", "-c", "cargo $HOME"]));
    assert_eq!(wrapped.command_label, "bash.exe -i -c 'cargo test --all'");
}

#[test]
fn the_program_itself_is_not_rewritten() {
    let mut task = cargo_test(Shell::System);
    task.command = "$TOOL".to_string();
    task.args = Vec::new();
    let wrapped = run_in_shell(task, Platform::Windows, "cmd".to_string(), Vec::new());
    assert_eq!(wrapped.args, strings(&["/C", "$TOOL"]));
}

#[test]
fn every_argument_is_taken_on_windows() {
    let mut task = cargo_test(Shell::System);
    task.command = "echo".to_string();
    task.args = strings(&["${", "${\u{e9}", "${A\u{20ac}", "${B}"]);
    let wrapped = run_in_shell(task.clone(), Platform::Windows, "cmd".to_string(), Vec::new());
    assert_eq!(wrapped.args, strings(&["/C", "echo ${ %% %A% %B%"]));
    let wrapped = run_in_shell(task, Platform::Windows, "pwsh".to_string(), Vec::new());
    assert_eq!(wrapped.args, strings(&["-C", "echo ${ $env: $env:A $env:B"]));
}

#[test]
fn copies_are_equal() {
    let list = strings(&["a", "", "b c"]);
    assert_eq!(clone_strings(&list), list);
    let task =
        cargo_test(Shell::WithArguments { program: "bash".to_string(), args: strings(&["-l"]) });
    assert_eq!(task.clone(), task);
    let env = environment(Platform::Windows, Some(true), Some("sh"));
    assert_eq!(env.clone(), env);
}
