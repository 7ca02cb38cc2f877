//! A task to run in a terminal, and how its command line is handed to a shell.

use crate::shell::{
    to_windows_shell_type, to_windows_shell_variable, windows_shell_type, windows_shell_variable,
    WindowsShellType,
};
use vstd::prelude::*;
use vstd::string::StringExecFns;

verus! {

/// Whether the terminal of a task is brought to the front when the task starts.
#[derive(Debug, Clone, Copy, PartialEq, Eq, Structural)]
pub enum RevealStrategy {
    Always,
    Never,
}

/// The operating system that the shells run on.
#[derive(Debug, Clone, Copy, PartialEq, Eq, Structural)]
pub enum Platform {
    Windows,
    Other,
}

/// The shell that a task asks for.
#[derive(Debug, PartialEq, Eq)]
pub enum Shell {
    /// The user's default shell.
    System,
    /// A program, started without arguments of its own.
    Program(String),
    /// A program and the arguments that precede the command line.
    WithArguments { program: String, args: Vec<String> },
}

/// [`Shell`] as a mathematical value.
pub enum ShellView {
    System,
    Program(Seq<char>),
    WithArguments { program: Seq<char>, args: Seq<Seq<char>> },
}

impl View for Shell {
    type V = ShellView;

    open spec fn view(&self) -> ShellView {
        match self {
            Shell::System => ShellView::System,
            Shell::Program(program) => ShellView::Program(program@),
            Shell::WithArguments { program, args } => ShellView::WithArguments {
                program: program@,
                args: args.deep_view(),
            },
        }
    }
}

/// A copy of `list`.
pub fn clone_strings(list: &Vec<String>) -> (copy: Vec<String>)
    ensures
        copy.deep_view() == list.deep_view(),
{
    let mut copy: Vec<String> = Vec::new();
    let mut i: usize = 0;
    while i < list.len()
        invariant
            i <= list.len(),
            copy.len() == i,
            forall|k: int| 0 <= k < i ==> (#[trigger] copy[k])@ == list[k]@,
        decreases list.len() - i,
    {
        copy.push(list[i].clone());
        i += 1;
    }
    assert(copy.deep_view() =~= list.deep_view());
    copy
}

impl Clone for Shell {
    fn clone(&self) -> (copy: Self)
        ensures
            copy@ == self@,
    {
        match self {
            Shell::System => Shell::System,
            Shell::Program(program) => Shell::Program(program.clone()),
            Shell::WithArguments { program, args } => Shell::WithArguments {
                program: program.clone(),
                args: clone_strings(args),
            },
        }
    }
}

/// A request to run a named task in a terminal.
#[derive(Debug, PartialEq, Eq)]
pub struct SpawnInTerminal {
    /// Identifies the task among the runs that wait for a terminal.
    pub id: String,
    /// The name by which terminals are matched to the task.
    pub full_label: String,
    /// The program to run.
    pub command: String,
    /// The program's arguments.
    pub args: Vec<String>,
    /// The command line as it is shown to the user.
    pub command_label: String,
    /// Whether the task gets a terminal of its own.
    pub use_new_terminal: bool,
    /// Whether the task may start while an earlier run of it is still going.
    pub allow_concurrent_runs: bool,
    /// Whether the task's terminal is brought to the front.
    pub reveal: RevealStrategy,
    /// The shell to run the command line in.
    pub shell: Shell,
}

/// [`SpawnInTerminal`] as a mathematical value.
pub struct SpawnInTerminalView {
    pub id: Seq<char>,
    pub full_label: Seq<char>,
    pub command: Seq<char>,
    pub args: Seq<Seq<char>>,
    pub command_label: Seq<char>,
    pub use_new_terminal: bool,
    pub allow_concurrent_runs: bool,
    pub reveal: RevealStrategy,
    pub shell: ShellView,
}

impl View for SpawnInTerminal {
    type V = SpawnInTerminalView;

    open spec fn view(&self) -> SpawnInTerminalView {
        SpawnInTerminalView {
            id: self.id@,
            full_label: self.full_label@,
            command: self.command@,
            args: self.args.deep_view(),
            command_label: self.command_label@,
            use_new_terminal: self.use_new_terminal,
            allow_concurrent_runs: self.allow_concurrent_runs,
            reveal: self.reveal,
            shell: self.shell@,
        }
    }
}

impl Clone for SpawnInTerminal {
    fn clone(&self) -> (copy: Self)
        ensures
            copy@ == self@,
    {
        SpawnInTerminal {
            id: self.id.clone(),
            full_label: self.full_label.clone(),
            command: self.command.clone(),
            args: clone_strings(&self.args),
            command_label: self.command_label.clone(),
            use_new_terminal: self.use_new_terminal,
            allow_concurrent_runs: self.allow_concurrent_runs,
            reveal: self.reveal,
            shell: self.shell.clone(),
        }
    }
}

impl DeepView for SpawnInTerminal {
    type V = SpawnInTerminalView;

    open spec fn deep_view(&self) -> SpawnInTerminalView {
        self@
    }
}

/// What is known of the machine when a shell is chosen.
#[derive(Debug, PartialEq, Eq)]
pub struct ShellEnvironment {
    /// The operating system.
    pub platform: Platform,
    /// Whether the project lives on this machine; `None` when its window is gone.
    pub project_is_local: Option<bool>,
    /// The value of the `SHELL` environment variable, if it is set.
    pub shell_variable: Option<String>,
}

impl Clone for ShellEnvironment {
    fn clone(&self) -> (copy: Self)
        ensures
            copy.platform == self.platform,
            copy.project_is_local == self.project_is_local,
            copy.shell_variable.deep_view() == self.shell_variable.deep_view(),
    {
        ShellEnvironment {
            platform: self.platform,
            project_is_local: self.project_is_local,
            shell_variable: match &self.shell_variable {
                Some(shell) => Some(shell.clone()),
                None => None,
            },
        }
    }
}

/// The shell that a remote project falls back on: the far side's `SHELL`, or `sh`.
pub open spec fn remote_shell() -> Seq<char> {
    "\"${SHELL:-sh}\""@
}

/// The user's default shell on this machine: PowerShell on Windows, elsewhere what `SHELL`
/// names.
pub open spec fn system_shell(platform: Platform, shell_variable: Option<Seq<char>>) -> Option<
    Seq<char>,
> {
    match platform {
        Platform::Windows => Some("powershell"@),
        Platform::Other => shell_variable,
    }
}

/// The shell program and the arguments that precede the command line, or `None` where no
/// shell can be named.
pub open spec fn resolved_shell(
    shell: ShellView,
    platform: Platform,
    project_is_local: Option<bool>,
    shell_variable: Option<Seq<char>>,
) -> Option<(Seq<char>, Seq<Seq<char>>)> {
    match shell {
        ShellView::System => match project_is_local {
            Some(true) => match system_shell(platform, shell_variable) {
                Some(program) => Some((program, Seq::empty())),
                None => None,
            },
            Some(false) => Some((remote_shell(), Seq::empty())),
            None => None,
        },
        ShellView::Program(program) => Some((program, Seq::empty())),
        ShellView::WithArguments { program, args } => Some((program, args)),
    }
}

/// The family that decides how `shell` is invoked: told apart on Windows only.
pub open spec fn invocation_style(platform: Platform, shell: Seq<char>) -> WindowsShellType {
    match platform {
        Platform::Windows => windows_shell_type(shell),
        Platform::Other => WindowsShellType::Other,
    }
}

/// The flags after which a shell of the given family takes a command line.
pub open spec fn command_flags(style: WindowsShellType) -> Seq<Seq<char>> {
    match style {
        WindowsShellType::Powershell => seq!["-C"@],
        WindowsShellType::Cmd => seq!["/C"@],
        WindowsShellType::Other => seq!["-i"@, "-c"@],
    }
}

/// The label of a command line run through `shell`.
pub open spec fn shell_command_label(
    style: WindowsShellType,
    shell: Seq<char>,
    command_label: Seq<char>,
) -> Seq<char> {
    match style {
        WindowsShellType::Powershell => shell + " -C '"@ + command_label + "'"@,
        WindowsShellType::Cmd => shell + " /C '"@ + command_label + "'"@,
        WindowsShellType::Other => shell + " -i -c '"@ + command_label + "'"@,
    }
}

/// The program and its arguments as one command line: each argument follows a space, written
/// as a shell of the given family reads it.
pub open spec fn combined_command(
    style: WindowsShellType,
    command: Seq<char>,
    args: Seq<Seq<char>>,
) -> Seq<char>
    decreases args.len(),
{
    if args.len() == 0 {
        command
    } else {
        combined_command(style, command, args.drop_last()) + " "@ + windows_shell_variable(
            style,
            args.last(),
        )
    }
}

/// `task` as it is run through `shell`: the shell becomes the program, and the task's own
/// command line becomes the shell's last argument, after `shell_args` and the flags.
pub open spec fn in_shell(
    task: SpawnInTerminalView,
    platform: Platform,
    shell: Seq<char>,
    shell_args: Seq<Seq<char>>,
) -> SpawnInTerminalView {
    let style = invocation_style(platform, shell);
    SpawnInTerminalView {
        command_label: shell_command_label(style, shell, task.command_label),
        command: shell,
        args: shell_args + command_flags(style) + seq![
            combined_command(style, task.command, task.args),
        ],
        ..task
    }
}

/// The user's default shell on this machine.
pub fn retrieve_system_shell(platform: Platform, shell_variable: Option<String>) -> (shell: Option<
    String,
>)
    ensures
        shell.deep_view() == system_shell(platform, shell_variable.deep_view()),
{
    match platform {
        Platform::Windows => Some(String::from_str("powershell")),
        Platform::Other => shell_variable,
    }
}

/// Names the shell program for `shell`, with the arguments that precede the command line.
pub fn resolve_shell(shell: Shell, environment: ShellEnvironment) -> (resolved: Option<
    (String, Vec<String>),
>)
    ensures
        resolved.deep_view() == resolved_shell(
            shell@,
            environment.platform,
            environment.project_is_local,
            environment.shell_variable.deep_view(),
        ),
{
    match shell {
        Shell::System => match environment.project_is_local {
            Some(true) => {
                match retrieve_system_shell(environment.platform, environment.shell_variable) {
                    Some(program) => {
                        let args: Vec<String> = Vec::new();
                        assert(args.deep_view() =~= Seq::empty());
                        Some((program, args))
                    },
                    None => None,
                }
            },
            Some(false) => {
                let args: Vec<String> = Vec::new();
                assert(args.deep_view() =~= Seq::empty());
                Some((String::from_str("\"${SHELL:-sh}\""), args))
            },
            None => None,
        },
        Shell::Program(program) => {
            let args: Vec<String> = Vec::new();
            assert(args.deep_view() =~= Seq::empty());
            Some((program, args))
        },
        Shell::WithArguments { program, args } => Some((program, args)),
    }
}

/// How `shell` is invoked on `platform`.
pub fn invocation_style_of(platform: Platform, shell: &str) -> (style: WindowsShellType)
    ensures
        style == invocation_style(platform, shell@),
{
    match platform {
        Platform::Windows => to_windows_shell_type(shell),
        Platform::Other => WindowsShellType::Other,
    }
}

/// Appends `value` to `list`.
fn push_string(list: &mut Vec<String>, value: String)
    ensures
        final(list).deep_view() == old(list).deep_view().push(value@),
{
    list.push(value);
    assert(list.deep_view() =~= old(list).deep_view().push(value@));
}

/// Rewrites `task` so that `shell` runs its command line: see [`in_shell`].
pub fn run_in_shell(
    task: SpawnInTerminal,
    platform: Platform,
    shell: String,
    shell_args: Vec<String>,
) -> (wrapped: SpawnInTerminal)
    ensures
        wrapped@ == in_shell(task@, platform, shell@, shell_args.deep_view()),
{
    let style = invocation_style_of(platform, shell.as_str());
    let ghost before = task@;
    let SpawnInTerminal {
        id,
        full_label,
        command,
        args,
        command_label,
        use_new_terminal,
        allow_concurrent_runs,
        reveal,
        shell: requested,
    } = task;

    let mut label = shell.clone();
    match style {
        WindowsShellType::Powershell => label.append(" -C '"),
        WindowsShellType::Cmd => label.append(" /C '"),
        WindowsShellType::Other => label.append(" -i -c '"),
    }
    label.append(command_label.as_str());
    label.append("'");

    let mut combined = command;
    let mut i: usize = 0;
    while i < args.len()
        invariant
            i <= args.len(),
            args.deep_view() == before.args,
            combined@ == combined_command(style, before.command, before.args.take(i as int)),
        decreases args.len() - i,
    {
        assert(before.args.take(i + 1).drop_last() =~= before.args.take(i as int));
        assert(before.args.take(i + 1).last() == args[i as int]@);
        combined.append(" ");
        let arg = to_windows_shell_variable(style, args[i].clone());
        combined.append(arg.as_str());
        i += 1;
    }
    assert(before.args.take(i as int) =~= before.args);

    let mut new_args = shell_args;
    match style {
        WindowsShellType::Powershell => push_string(&mut new_args, String::from_str("-C")),
        WindowsShellType::Cmd => push_string(&mut new_args, String::from_str("/C")),
        WindowsShellType::Other => {
            push_string(&mut new_args, String::from_str("-i"));
            push_string(&mut new_args, String::from_str("-c"));
        },
    }
    push_string(&mut new_args, combined);
    assert(new_args.deep_view() =~= in_shell(
        before,
        platform,
        shell@,
        shell_args.deep_view(),
    ).args);

    SpawnInTerminal {
        id,
        full_label,
        command: shell,
        args: new_args,
        command_label: label,
        use_new_terminal,
        allow_concurrent_runs,
        reveal,
        shell: requested,
    }
}

} // verus!
