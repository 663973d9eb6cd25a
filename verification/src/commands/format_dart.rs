use crate::commands::command_runner::{
    call_shell, call_shell_spec, default_shell_mode_spec, CommandInvocation, ShellMode,
};
use crate::text::{concat_strings, decimal, decimal_spec, views};
use crate::utils::path_utils::{
    normalize_all_spec, normalize_unc_spec, normalize_windows_unc_path,
};
use vstd::prelude::*;
use vstd::string::*;

verus! {

/// The sections of the command that formats the Dart files at `paths`.
pub open spec fn format_dart_sections(paths: Seq<Seq<char>>, line_length: u32) -> Seq<Seq<char>> {
    seq!["dart"@, "format"@, "--line-length"@, decimal_spec(line_length as nat)]
        + normalize_all_spec(paths)
}

/// Each of `paths` without its leading verbatim marker.
pub fn normalize_windows_unc_paths(paths: &[String]) -> (r: Vec<String>)
    ensures
        views(r@) == normalize_all_spec(views(paths@)),
{
    let mut out: Vec<String> = Vec::new();
    let mut i: usize = 0;
    while i < paths.len()
        invariant
            i <= paths.len(),
            out.len() == i,
            forall|k: int| 0 <= k < i ==> out@[k]@ == normalize_unc_spec(paths@[k]@),
        decreases paths.len() - i,
    {
        out.push(normalize_windows_unc_path(paths[i].as_str()).to_string());
        i += 1;
    }
    assert(views(out@) =~= normalize_all_spec(views(paths@)));
    out
}

/// Prepares the run of the Dart formatter over `path`, with lines of at most
/// `line_length` characters. The outcome of the run goes to `check_exit_code`.
pub fn format_dart(
    path: &[String],
    line_length: u32,
    shell_mode: Option<ShellMode>,
    windows: bool,
) -> (r: CommandInvocation)
    ensures
        r@ == call_shell_spec(
            format_dart_sections(views(path@), line_length),
            match shell_mode {
                Some(m) => m,
                None => default_shell_mode_spec(windows),
            },
            None,
            None,
        ),
{
    let path = normalize_windows_unc_paths(path);
    let head = vec![
        "dart".to_string(),
        "format".to_string(),
        "--line-length".to_string(),
        decimal(line_length as u64),
    ];
    assert(views(head@) =~= seq![
        "dart"@,
        "format"@,
        "--line-length"@,
        decimal_spec(line_length as nat),
    ]);
    let cmd = concat_strings(&head, path.as_slice());
    call_shell(cmd.as_slice(), shell_mode, None, None, windows)
}

} // verus!
