use crate::commands::command_runner::{
    call_shell, call_shell_spec, default_shell_mode_spec, CommandInvocation, ShellMode,
};
use crate::commands::format_dart::normalize_windows_unc_paths;
use crate::text::{concat_strings, views};
use crate::utils::path_utils::normalize_all_spec;
use vstd::prelude::*;
use vstd::string::*;

verus! {

/// The sections of the command that formats the Rust files at `paths`.
pub open spec fn format_rust_sections(paths: Seq<Seq<char>>) -> Seq<Seq<char>> {
    seq!["rustfmt"@, "--edition"@, "2018"@] + normalize_all_spec(paths)
}

/// Prepares the run of the Rust formatter over `path`. The edition is given
/// because without it the formatter rejects `async move`. The outcome of the run
/// goes to `check_exit_code`.
pub fn format_rust(path: &[String], shell_mode: Option<ShellMode>, windows: bool) -> (r:
    CommandInvocation)
    ensures
        r@ == call_shell_spec(
            format_rust_sections(views(path@)),
            match shell_mode {
                Some(m) => m,
                None => default_shell_mode_spec(windows),
            },
            None,
            None,
        ),
{
    let path = normalize_windows_unc_paths(path);
    let head = vec!["rustfmt".to_string(), "--edition".to_string(), "2018".to_string()];
    assert(views(head@) =~= seq!["rustfmt"@, "--edition"@, "2018"@]);
    let cmd = concat_strings(&head, path.as_slice());
    call_shell(cmd.as_slice(), shell_mode, None, None, windows)
}

} // verus!
