use crate::text::{
    contains_text, join_spec, join_strings, path_debug, path_debug_form, str_contains, utf8_lossy,
    utf8_lossy_form, views,
};
use crate::utils::path_utils::{normalize_unc_spec, normalize_windows_unc_path};
use std::collections::HashMap;
use vstd::prelude::*;
use vstd::string::*;

verus! {

/// The shell through which a command line is run.
#[derive(Clone, Copy, Debug, PartialEq, Eq, Hash, Structural)]
pub enum ShellMode {
    Powershell,
    Cmd,
    Sh,
}

/// A process to start: the program, its arguments, and where and with which
/// additional environment it runs.
#[derive(Debug, PartialEq, Eq)]
pub struct CommandInvocation {
    pub bin: String,
    pub args: Vec<String>,
    pub current_dir: Option<String>,
    pub envs: Option<HashMap<String, String>>,
}

/// What a `CommandInvocation` says, as plain sequences.
pub struct InvocationModel {
    pub bin: Seq<char>,
    pub args: Seq<Seq<char>>,
    pub current_dir: Option<Seq<char>>,
    pub envs: Option<HashMap<String, String>>,
}

impl View for CommandInvocation {
    type V = InvocationModel;

    open spec fn view(&self) -> InvocationModel {
        InvocationModel {
            bin: self.bin@,
            args: views(self.args@),
            current_dir: match self.current_dir {
                Some(d) => Some(d@),
                None => None,
            },
            envs: self.envs,
        }
    }
}

/// What a finished process left behind.
#[derive(Debug, PartialEq, Eq)]
pub struct CommandOutput {
    pub success: bool,
    pub stdout: Vec<u8>,
    pub stderr: Vec<u8>,
}

/// Why a command is taken to have failed, in words for the user.
#[derive(Debug, PartialEq, Eq)]
pub struct CommandError {
    pub message: String,
}

/// The shell that is used where the caller names none.
pub open spec fn default_shell_mode_spec(windows: bool) -> ShellMode {
    if windows {
        ShellMode::Powershell
    } else {
        ShellMode::Sh
    }
}

/// The command line that a shell is handed for the sections of `cmd`: each
/// section in its quoted form, with single spaces between them.
pub open spec fn shell_line_spec(cmd: Seq<Seq<char>>) -> Seq<char> {
    join_spec(Seq::new(cmd.len(), |i: int| path_debug_form(cmd[i])), " "@)
}

/// The working directory as it is handed to the process.
pub open spec fn normalize_dir_spec(dir: Option<Seq<char>>) -> Option<Seq<char>> {
    match dir {
        Some(d) => Some(normalize_unc_spec(d)),
        None => None,
    }
}

/// The process that runs the sections of `cmd` as one command line in the shell
/// `mode`.
pub open spec fn call_shell_spec(
    cmd: Seq<Seq<char>>,
    mode: ShellMode,
    pwd: Option<Seq<char>>,
    envs: Option<HashMap<String, String>>,
) -> InvocationModel {
    shell_command_spec(shell_line_spec(cmd), mode, pwd, envs)
}

/// The process that runs the command line `line` in the shell `mode`: the shell
/// with the switch that makes it run one command, and the line as the command.
/// PowerShell is handed the line behind the call operator.
pub open spec fn shell_command_spec(
    line: Seq<char>,
    mode: ShellMode,
    pwd: Option<Seq<char>>,
    envs: Option<HashMap<String, String>>,
) -> InvocationModel {
    match mode {
        ShellMode::Powershell => InvocationModel {
            bin: "powershell"@,
            args: seq!["-noprofile"@, "-command"@, "& "@ + line],
            current_dir: normalize_dir_spec(pwd),
            envs,
        },
        ShellMode::Cmd => InvocationModel {
            bin: "cmd"@,
            args: seq!["/c"@, line],
            current_dir: normalize_dir_spec(pwd),
            envs,
        },
        ShellMode::Sh => InvocationModel {
            bin: "sh"@,
            args: seq!["-c"@, line],
            current_dir: normalize_dir_spec(pwd),
            envs,
        },
    }
}

/// What is shown of an invocation where it could not be started.
pub open spec fn failure_context_spec(inv: InvocationModel) -> Seq<char> {
    "\""@ + inv.bin + "\" \""@ + join_spec(inv.args, " "@) + "\" failed"@
}

/// Whether the outcome of a command deserves the user's attention: it failed, or
/// it succeeded but wrote of a fatal error.
pub open spec fn needs_attention_spec(success: bool, stdout: Seq<u8>) -> bool {
    attention_spec(success, utf8_lossy_form(stdout))
}

/// Whether a command that wrote the text `stdout` deserves the user's attention.
pub open spec fn attention_spec(success: bool, stdout: Seq<char>) -> bool {
    !success || contains_text(stdout, "fatal error"@)
}

/// The words in which the failure of a command is told, with what the command
/// wrote to its error stream.
pub open spec fn execution_failure_spec(stderr: Seq<char>) -> Seq<char> {
    "Command execution failed: "@ + stderr
}

/// The shell that is used where the caller names none: PowerShell on Windows,
/// `sh` elsewhere.
pub fn default_shell_mode(windows: bool) -> (r: ShellMode)
    ensures
        r == default_shell_mode_spec(windows),
{
    if windows {
        ShellMode::Powershell
    } else {
        ShellMode::Sh
    }
}

/// The command line for the sections of `cmd`.
pub fn shell_line(cmd: &[String]) -> (r: String)
    ensures
        r@ == shell_line_spec(views(cmd@)),
{
    let mut quoted: Vec<String> = Vec::new();
    let mut i: usize = 0;
    while i < cmd.len()
        invariant
            i <= cmd.len(),
            quoted.len() == i,
            forall|k: int| 0 <= k < i ==> quoted@[k]@ == path_debug_form(cmd@[k]@),
        decreases cmd.len() - i,
    {
        quoted.push(path_debug(cmd[i].as_str()));
        i += 1;
    }
    assert(views(quoted@) =~= Seq::new(
        views(cmd@).len(),
        |i: int| path_debug_form(views(cmd@)[i]),
    ));
    join_sections(&quoted)
}

/// The sections, already quoted, as one command line: with single spaces between
/// them.
pub fn join_sections(quoted: &Vec<String>) -> (r: String)
    ensures
        r@ == join_spec(views(quoted@), " "@),
{
    join_strings(quoted, " ")
}

/// Prepares the process that runs `bin` with `args`. The working directory is
/// freed of a verbatim marker; everything else is handed on as given.
pub fn execute_command(
    bin: &str,
    args: Vec<String>,
    current_dir: Option<&str>,
    envs: Option<HashMap<String, String>>,
) -> (r: CommandInvocation)
    ensures
        r@ == (InvocationModel {
            bin: bin@,
            args: views(args@),
            current_dir: normalize_dir_spec(
                match current_dir {
                    Some(d) => Some(d@),
                    None => None,
                },
            ),
            envs,
        }),
{
    let dir = match current_dir {
        Some(d) => Some(normalize_windows_unc_path(d).to_string()),
        None => None,
    };
    CommandInvocation { bin: bin.to_string(), args, current_dir: dir, envs }
}

/// Prepares the process that runs the sections of `cmd` as one command line in a
/// shell: the one named by `mode`, or the default of the platform.
pub fn call_shell(
    cmd: &[String],
    mode: Option<ShellMode>,
    pwd: Option<&str>,
    envs: Option<HashMap<String, String>>,
    windows: bool,
) -> (r: CommandInvocation)
    ensures
        r@ == call_shell_spec(
            views(cmd@),
            match mode {
                Some(m) => m,
                None => default_shell_mode_spec(windows),
            },
            match pwd {
                Some(d) => Some(d@),
                None => None,
            },
            envs,
        ),
{
    let line = shell_line(cmd);
    let mode = match mode {
        Some(m) => m,
        None => default_shell_mode(windows),
    };
    shell_command(line, mode, pwd, envs)
}

/// Prepares the process that runs the command line `line` in the shell `mode`.
pub fn shell_command(
    line: String,
    mode: ShellMode,
    pwd: Option<&str>,
    envs: Option<HashMap<String, String>>,
) -> (r: CommandInvocation)
    ensures
        r@ == shell_command_spec(
            line@,
            mode,
            match pwd {
                Some(d) => Some(d@),
                None => None,
            },
            envs,
        ),
{
    match mode {
        ShellMode::Powershell => {
            let mut script = "& ".to_string();
            script.append(line.as_str());
            let args = vec!["-noprofile".to_string(), "-command".to_string(), script];
            assert(views(args@) =~= seq!["-noprofile"@, "-command"@, "& "@ + line@]);
            execute_command("powershell", args, pwd, envs)
        },
        ShellMode::Cmd => {
            let args = vec!["/c".to_string(), line];
            assert(views(args@) =~= seq!["/c"@, line@]);
            execute_command("cmd", args, pwd, envs)
        },
        ShellMode::Sh => {
            let args = vec!["-c".to_string(), line];
            assert(views(args@) =~= seq!["-c"@, line@]);
            execute_command("sh", args, pwd, envs)
        },
    }
}

/// The words that go with the error where the process of `inv` could not be
/// started.
pub fn failure_context(inv: &CommandInvocation) -> (r: String)
    ensures
        r@ == failure_context_spec(inv@),
{
    let shown = join_strings(&inv.args, " ");
    let mut s = "\"".to_string();
    s.append(inv.bin.as_str());
    s.append("\" \"");
    s.append(shown.as_str());
    s.append("\" failed");
    s
}

/// Whether the outcome of a command deserves the user's attention.
pub fn needs_attention(output: &CommandOutput) -> (r: bool)
    ensures
        r == needs_attention_spec(output.success, output.stdout@),
{
    if !output.success {
        true
    } else {
        let stdout = utf8_lossy(&output.stdout);
        attention_for(output.success, stdout.as_str())
    }
}

/// Whether a command that wrote the text `stdout` deserves the user's attention.
pub fn attention_for(success: bool, stdout: &str) -> (r: bool)
    ensures
        r == attention_spec(success, stdout@),
{
    !success || str_contains(stdout, "fatal error")
}

/// The error that tells of the failure of a command which wrote `stderr` to its
/// error stream.
pub fn execution_failure(stderr: &str) -> (r: CommandError)
    ensures
        r.message@ == execution_failure_spec(stderr@),
{
    let mut message = "Command execution failed: ".to_string();
    message.append(stderr);
    CommandError { message }
}

/// Accepts the outcome of a command that succeeded, and turns that of one that
/// failed into an error that carries what the command wrote to its error stream.
pub fn check_exit_code(res: &CommandOutput) -> (r: Result<(), CommandError>)
    ensures
        res.success <==> r is Ok,
        r matches Err(e) ==> e.message@ == execution_failure_spec(utf8_lossy_form(res.stderr@)),
{
    if !res.success {
        let msg = utf8_lossy(&res.stderr);
        return Err(execution_failure(msg.as_str()));
    }
    Ok(())
}

} // verus!
