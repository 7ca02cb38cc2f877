//! Shells on Windows: which family a shell belongs to, and how a reference to an environment
//! variable is written for it.

use crate::text::{concat3, contains_char, drop_last_char, ends_with, str_eq, strip_prefix};
use vstd::prelude::*;
use vstd::string::StrSliceExecFns;
use vstd::string::StringExecFns;

verus! {

/// The families of shells that are told apart on Windows.
#[derive(Debug, Clone, Copy, PartialEq, Eq, Structural)]
pub enum WindowsShellType {
    Powershell,
    Cmd,
    Other,
}

/// The family of the shell named or located by `shell`.
pub open spec fn windows_shell_type(shell: Seq<char>) -> WindowsShellType {
    if shell == "powershell"@ || "powershell.exe"@.is_suffix_of(shell) || shell == "pwsh"@
        || "pwsh.exe"@.is_suffix_of(shell) {
        WindowsShellType::Powershell
    } else if shell == "cmd"@ || "cmd.exe"@.is_suffix_of(shell) {
        WindowsShellType::Cmd
    } else {
        WindowsShellType::Other
    }
}

/// Tells PowerShell and the command prompt from every other shell, by the shell's bare name or
/// by the file name that its path ends with.
pub fn to_windows_shell_type(shell: &str) -> (shell_type: WindowsShellType)
    ensures
        shell_type == windows_shell_type(shell@),
{
    if str_eq(shell, "powershell") || ends_with(shell, "powershell.exe") || str_eq(shell, "pwsh")
        || ends_with(shell, "pwsh.exe") {
        WindowsShellType::Powershell
    } else if str_eq(shell, "cmd") || ends_with(shell, "cmd.exe") {
        WindowsShellType::Cmd
    } else {
        // Some other shell: the user may have installed a Unix-like one.
        WindowsShellType::Other
    }
}

/// Whether `input` is written `${...}` with something after the opening and no `:` in it: a
/// braced reference that gives no default value.
pub open spec fn is_braced_reference(input: Seq<char>) -> bool {
    let inner = input.skip("${"@.len() as int);
    "${"@.is_prefix_of(input) && inner.len() > 0 && !inner.contains(':')
}

/// Whether `input` starts with `$` and is not written `${...`.
pub open spec fn is_plain_reference(input: Seq<char>) -> bool {
    !"${"@.is_prefix_of(input) && "$"@.is_prefix_of(input)
}

/// The variable's name in a braced reference: what stands after `${`, less the last
/// character, which closes the reference.
pub open spec fn braced_name(input: Seq<char>) -> Seq<char> {
    input.skip("${"@.len() as int).drop_last()
}

/// The variable's name in a plain reference: what stands after `$`.
pub open spec fn plain_name(input: Seq<char>) -> Seq<char> {
    input.skip("$"@.len() as int)
}

/// `input` as the command prompt reads it: `${NAME}` and `$NAME` become `%NAME%`, and anything
/// else stays as it is: a reference with a default value (`${NAME:-default}`), and `${` with
/// nothing after it.
pub open spec fn cmd_variable(input: Seq<char>) -> Seq<char> {
    if is_braced_reference(input) {
        "%"@ + braced_name(input) + "%"@
    } else if is_plain_reference(input) {
        "%"@ + plain_name(input) + "%"@
    } else {
        input
    }
}

/// `input` as PowerShell reads it: `${NAME}` and `$NAME` become `$env:NAME`, and anything
/// else stays as it is: a reference with a default value (`${NAME:-default}`), and `${` with
/// nothing after it.
pub open spec fn powershell_variable(input: Seq<char>) -> Seq<char> {
    if is_braced_reference(input) {
        "$env:"@ + braced_name(input)
    } else if is_plain_reference(input) {
        "$env:"@ + plain_name(input)
    } else {
        input
    }
}

/// `input` as a shell of the given family reads it.
pub open spec fn windows_shell_variable(shell_type: WindowsShellType, input: Seq<char>) -> Seq<
    char,
> {
    match shell_type {
        WindowsShellType::Powershell => powershell_variable(input),
        WindowsShellType::Cmd => cmd_variable(input),
        WindowsShellType::Other => input,
    }
}

/// Converts `${SOME_VAR}` and `$SOME_VAR` to `%SOME_VAR%`.
pub fn to_cmd_variable(input: String) -> (output: String)
    ensures
        output@ == cmd_variable(input@),
{
    if let Some(var_str) = strip_prefix(input.as_str(), "${") {
        if var_str.unicode_len() > 0 && !contains_char(var_str, ':') {
            concat3("%", drop_last_char(var_str), "%")
        } else {
            // `${SOME_VAR:-SOME_DEFAULT}` is not handled, and `${` alone names no variable:
            // the argument is left alone.
            input
        }
    } else if let Some(var_str) = strip_prefix(input.as_str(), "$") {
        concat3("%", var_str, "%")
    } else {
        input
    }
}

/// Converts `${SOME_VAR}` and `$SOME_VAR` to `$env:SOME_VAR`.
pub fn to_powershell_variable(input: String) -> (output: String)
    ensures
        output@ == powershell_variable(input@),
{
    if let Some(var_str) = strip_prefix(input.as_str(), "${") {
        if var_str.unicode_len() > 0 && !contains_char(var_str, ':') {
            let mut output = String::from_str("$env:");
            output.append(drop_last_char(var_str));
            output
        } else {
            // `${SOME_VAR:-SOME_DEFAULT}` is not handled, and `${` alone names no variable:
            // the argument is left alone.
            input
        }
    } else if let Some(var_str) = strip_prefix(input.as_str(), "$") {
        let mut output = String::from_str("$env:");
        output.append(var_str);
        output
    } else {
        input
    }
}

/// Rewrites an argument for a shell of the given family.
pub fn to_windows_shell_variable(shell_type: WindowsShellType, input: String) -> (output: String)
    ensures
        output@ == windows_shell_variable(shell_type, input@),
{
    match shell_type {
        WindowsShellType::Powershell => to_powershell_variable(input),
        WindowsShellType::Cmd => to_cmd_variable(input),
        WindowsShellType::Other => input,
    }
}

} // verus!
