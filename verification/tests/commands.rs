use frb_codegen::build_web::{build, BuildAction, BuildError, BuildEvent, BuildStage};
use frb_codegen::codegen::misc::{GeneratorProgressBarPack, THIRD_PARTY_DIR_NAME};
use frb_codegen::build_web::{dart_run, dart_run_args, execute_dart_command, parse_dart_root};
use frb_codegen::commands::command_runner::{
    attention_for, call_shell, check_exit_code, default_shell_mode, execute_command,
    execution_failure, failure_context, join_sections, needs_attention, shell_command, shell_line,
    CommandOutput, ShellMode,
};
use frb_codegen::commands::format_dart::{format_dart, normalize_windows_unc_paths};
use frb_codegen::commands::format_rust::format_rust;
use frb_codegen::text::{concat_strings, decimal};
use frb_codegen::utils::path_utils::normalize_windows_unc_path;

fn strings(items: &[&str]) -> Vec<String> {
    items.iter().map(|s| s.to_string()).collect()
}

#[test]
fn decimal_writes_numbers_without_padding() {
    assert_eq!(decimal(0), "0");
    assert_eq!(decimal(7), "7");
    assert_eq!(decimal(10), "10");
    assert_eq!(decimal(80), "80");
    assert_eq!(decimal(4294967295), "4294967295");
    assert_eq!(decimal(u64::MAX), "18446744073709551615");
}

#[test]
fn concat_keeps_order() {
    assert_eq!(
        concat_strings(&strings(&["a", "b"]), &strings(&["c"])),
        strings(&["a", "b", "c"])
    );
    assert_eq!(concat_strings(&strings(&[]), &strings(&[])), strings(&[]));
}

#[test]
fn unc_prefix_is_stripped() {
    assert_eq!(normalize_windows_unc_path(r"\\?\C:\work\app"), r"C:\work\app");
    assert_eq!(normalize_windows_unc_path(r"C:\work\app"), r"C:\work\app");
    assert_eq!(normalize_windows_unc_path("/home/me/app"), "/home/me/app");
    assert_eq!(normalize_windows_unc_path(r"\\?\"), "");
    assert_eq!(normalize_windows_unc_path(r"\\?"), r"\\?");
    assert_eq!(normalize_windows_unc_path(""), "");
    assert_eq!(
        normalize_windows_unc_paths(&strings(&[r"\\?\C:\a", "b"])),
        strings(&[r"C:\a", "b"])
    );
}

#[test]
fn default_shell_follows_platform() {
    assert_eq!(default_shell_mode(true), ShellMode::Powershell);
    assert_eq!(default_shell_mode(false), ShellMode::Sh);
}

#[test]
fn shell_line_quotes_each_section() {
    assert_eq!(shell_line(&strings(&["dart", "format"])), "\"dart\" \"format\"");
    assert_eq!(shell_line(&strings(&["a b"])), "\"a b\"");
    assert_eq!(shell_line(&strings(&["say \"hi\""])), "\"say \\\"hi\\\"\"");
    assert_eq!(shell_line(&strings(&[])), "");
}

#[test]
fn call_shell_picks_the_shell() {
    let cmd = strings(&["dart", "pub", "get"]);
    let sh = call_shell(&cmd, Some(ShellMode::Sh), None, None, false);
    assert_eq!(sh.bin, "sh");
    assert_eq!(sh.args, strings(&["-c", "\"dart\" \"pub\" \"get\""]));
    assert_eq!(sh.current_dir, None);
    assert!(sh.envs.is_none());

    let cmd_exe = call_shell(&cmd, Some(ShellMode::Cmd), Some(r"\\?\C:\app"), None, false);
    assert_eq!(cmd_exe.bin, "cmd");
    assert_eq!(cmd_exe.args, strings(&["/c", "\"dart\" \"pub\" \"get\""]));
    assert_eq!(cmd_exe.current_dir, Some(r"C:\app".to_string()));

    let ps = call_shell(&cmd, None, None, None, true);
    assert_eq!(ps.bin, "powershell");
    assert_eq!(
        ps.args,
        strings(&["-noprofile", "-command", "& \"dart\" \"pub\" \"get\""])
    );

    let default_unix = call_shell(&cmd, None, None, None, false);
    assert_eq!(default_unix.bin, "sh");
}

#[test]
fn call_shell_hands_the_environment_on() {
    let mut envs = std::collections::HashMap::new();
    envs.insert("RUST_LOG".to_string(), "debug".to_string());
    let inv = call_shell(&strings(&["ls"]), Some(ShellMode::Sh), None, Some(envs.clone()), false);
    assert_eq!(inv.envs, Some(envs));
}

#[test]
fn execute_command_normalizes_the_directory() {
    let inv = execute_command("dart", strings(&["--version"]), Some(r"\\?\D:\x"), None);
    assert_eq!(inv.bin, "dart");
    assert_eq!(inv.args, strings(&["--version"]));
    assert_eq!(inv.current_dir, Some(r"D:\x".to_string()));
    assert_eq!(failure_context(&inv), "\"dart\" \"--version\" failed");
    let two = execute_command("sh", strings(&["-c", "true"]), None, None);
    assert_eq!(failure_context(&two), "\"sh\" \"-c true\" failed");
}

#[test]
fn exit_code_is_checked() {
    let ok = CommandOutput { success: true, stdout: vec![], stderr: b"noise".to_vec() };
    assert!(check_exit_code(&ok).is_ok());
    let bad = CommandOutput { success: false, stdout: vec![], stderr: b"boom".to_vec() };
    let err = check_exit_code(&bad).unwrap_err();
    assert_eq!(err.message, "Command execution failed: boom");
    let garbled = CommandOutput { success: false, stdout: vec![], stderr: vec![0x66, 0xff, 0x6f] };
    assert_eq!(
        check_exit_code(&garbled).unwrap_err().message,
        "Command execution failed: f\u{fffd}o"
    );
}

#[test]
fn attention_is_asked_for_failures_and_fatal_errors() {
    let quiet = CommandOutput { success: true, stdout: b"all good".to_vec(), stderr: vec![] };
    assert!(!needs_attention(&quiet));
    let fatal = CommandOutput {
        success: true,
        stdout: b"x.c:1: fatal error: no such file".to_vec(),
        stderr: vec![],
    };
    assert!(needs_attention(&fatal));
    let failed = CommandOutput { success: false, stdout: vec![], stderr: vec![] };
    assert!(needs_attention(&failed));
}

#[test]
fn format_dart_builds_the_formatter_call() {
    let inv = format_dart(&strings(&["lib/a.dart", r"\\?\C:\b.dart"]), 80, Some(ShellMode::Sh), false);
    assert_eq!(inv.bin, "sh");
    assert_eq!(
        inv.args,
        strings(&[
            "-c",
            "\"dart\" \"format\" \"--line-length\" \"80\" \"lib/a.dart\" \"C:\\\\b.dart\""
        ])
    );
    assert_eq!(inv.current_dir, None);
    let none = format_dart(&strings(&[]), 120, Some(ShellMode::Cmd), false);
    assert_eq!(none.args, strings(&["/c", "\"dart\" \"format\" \"--line-length\" \"120\""]));
}

#[test]
fn format_rust_builds_the_formatter_call() {
    let inv = format_rust(&strings(&["src/lib.rs"]), None, false);
    assert_eq!(inv.bin, "sh");
    assert_eq!(
        inv.args,
        strings(&["-c", "\"rustfmt\" \"--edition\" \"2018\" \"src/lib.rs\""])
    );
    let win = format_rust(&strings(&["src/lib.rs"]), None, true);
    assert_eq!(win.bin, "powershell");
}

#[test]
fn progress_pack_names_every_step() {
    let pack = GeneratorProgressBarPack::new();
    assert_eq!((pack.parse.message.as_str(), pack.parse.level), ("Parse", 0));
    assert_eq!(
        (pack.parse_hir_raw.message.as_str(), pack.parse_hir_raw.level),
        ("Cargo expand & syn parse", 1)
    );
    assert_eq!(
        (pack.parse_hir_primary.message.as_str(), pack.parse_hir_primary.level),
        ("Parse HIR", 1)
    );
    assert_eq!((pack.parse_mir.message.as_str(), pack.parse_mir.level), ("Parse MIR", 1));
    assert_eq!((pack.generate.message.as_str(), pack.generate.level), ("Generate", 0));
    assert_eq!(
        (pack.generate_cbindgen.message.as_str(), pack.generate_cbindgen.level),
        ("Run cbindgen", 1)
    );
    assert_eq!(
        (pack.generate_ffigen.message.as_str(), pack.generate_ffigen.level),
        ("Run ffigen", 1)
    );
    assert_eq!((pack.polish.message.as_str(), pack.polish.level), ("Polish", 0));
    assert_eq!(
        (pack.polish_dart_build_runner.message.as_str(), pack.polish_dart_build_runner.level),
        ("Run Dart build_runner", 1)
    );
    assert_eq!(
        (pack.polish_dart_formatter.message.as_str(), pack.polish_dart_formatter.level),
        ("Run Dart formatter", 1)
    );
    assert_eq!(
        (pack.polish_rust_formatter.message.as_str(), pack.polish_rust_formatter.level),
        ("Run Rust formatter", 1)
    );
    assert_eq!(
        (pack.polish_upgrade.message.as_str(), pack.polish_upgrade.level),
        ("Auto upgrade", 1)
    );
    assert_eq!(THIRD_PARTY_DIR_NAME, "third_party");
}

#[test]
fn build_runs_without_coverage() {
    let (session, action) = build(Some("app".to_string()), false, strings(&["--release"]), None, false);
    assert_eq!(session.stage, BuildStage::AwaitRoot);
    assert!(matches!(action, BuildAction::Canonicalize { ref path } if path == "app"));
    let (session, action) = session.advance(BuildEvent::RootFound { root: "/w/app".to_string() });
    assert!(matches!(action, BuildAction::OpenRepository { ref root } if root == "/w/app"));
    let (session, action) =
        session.advance(BuildEvent::RepositoryOpened { extra_args: strings(&["--x"]) });
    match action {
        BuildAction::Spawn { command } => {
            assert_eq!(command.bin, "dart");
            assert_eq!(
                command.args,
                strings(&[
                    "--x",
                    "run",
                    "flutter_rust_bridge",
                    "build-web",
                    "--dart-root",
                    "/w/app",
                    "--release"
                ])
            );
            assert_eq!(command.current_dir, Some("/w/app".to_string()));
        }
        other => panic!("unexpected action {other:?}"),
    }
    let (session, action) = session.advance(BuildEvent::Spawned);
    assert!(matches!(action, BuildAction::Wait));
    let (session, action) = session.advance(BuildEvent::Exited { success: true });
    assert_eq!(session.stage, BuildStage::Finished);
    assert!(matches!(action, BuildAction::Finish { result: Ok(()) }));
}

#[test]
fn build_collects_coverage_when_asked() {
    let (session, action) = build(None, true, strings(&[]), Some(ShellMode::Sh), false);
    assert!(matches!(action, BuildAction::FindPackageDir));
    let (session, _) = session.advance(BuildEvent::RootFound { root: "/p".to_string() });
    let (session, action) = session.advance(BuildEvent::RepositoryOpened { extra_args: vec![] });
    match action {
        BuildAction::Spawn { command } => assert_eq!(
            command.args,
            strings(&[
                "run",
                "--pause-isolates-on-exit",
                "--disable-service-auth-codes",
                "--enable-vm-service=8181",
                "flutter_rust_bridge",
                "build-web",
                "--dart-root",
                "/p"
            ])
        ),
        other => panic!("unexpected action {other:?}"),
    }
    let (session, action) = session.advance(BuildEvent::Spawned);
    match action {
        BuildAction::Run { command } => {
            assert_eq!(command.bin, "sh");
            assert_eq!(command.current_dir, Some("/p".to_string()));
            assert_eq!(
                command.args,
                strings(&[
                    "-c",
                    "\"dart\" \"pub\" \"global\" \"run\" \"coverage:collect_coverage\" \
                     \"--wait-paused\" \"--uri=http://127.0.0.1:8181/\" \"-o\" \
                     \"coverage/coverage.json\" \"--resume-isolates\" \"--scope-output=foo\""
                ])
            );
        }
        other => panic!("unexpected action {other:?}"),
    }
    let failed = CommandOutput { success: false, stdout: vec![], stderr: b"no vm".to_vec() };
    let (session, action) = session.advance(BuildEvent::Ran { output: failed });
    assert_eq!(session.stage, BuildStage::Finished);
    match action {
        BuildAction::Finish { result: Err(e) } => {
            assert_eq!(e.message(), "Command execution failed: no vm")
        }
        other => panic!("unexpected action {other:?}"),
    }
}

#[test]
fn build_reports_each_failure() {
    let (session, _) = build(None, false, strings(&[]), None, false);
    let (_, action) = session.advance(BuildEvent::RootNotFound);
    match action {
        BuildAction::Finish { result: Err(e) } => {
            assert!(matches!(e, BuildError::MissingDartRoot));
            assert_eq!(
                e.message(),
                "Please provide --dart-root, or run command inside a Flutter/Dart package"
            );
        }
        other => panic!("unexpected action {other:?}"),
    }

    let (session, _) = build(None, false, strings(&[]), None, false);
    let (session, _) = session.advance(BuildEvent::RootFound { root: "/p".to_string() });
    let (session, _) = session.advance(BuildEvent::RepositoryOpened { extra_args: vec![] });
    let (session, _) = session.advance(BuildEvent::Spawned);
    let (session, action) = session.advance(BuildEvent::Exited { success: false });
    match action {
        BuildAction::Finish { result: Err(e) } => {
            assert!(matches!(e, BuildError::CommandFailed));
            assert_eq!(e.message(), "Fail to execute command, please see logs above for details.");
        }
        other => panic!("unexpected action {other:?}"),
    }
    let (_, action) = session.advance(BuildEvent::Spawned);
    assert!(matches!(
        action,
        BuildAction::Finish { result: Err(BuildError::UnexpectedEvent) }
    ));

    let (session, _) = build(None, false, strings(&[]), None, false);
    let (_, action) = session.advance(BuildEvent::Exited { success: true });
    assert!(matches!(
        action,
        BuildAction::Finish { result: Err(BuildError::UnexpectedEvent) }
    ));
}

#[test]
fn shell_command_wraps_a_given_line() {
    let sh = shell_command("echo hi".to_string(), ShellMode::Sh, Some("/tmp"), None);
    assert_eq!((sh.bin.as_str(), sh.args.clone()), ("sh", strings(&["-c", "echo hi"])));
    assert_eq!(sh.current_dir, Some("/tmp".to_string()));
    let cmd = shell_command("echo hi".to_string(), ShellMode::Cmd, None, None);
    assert_eq!((cmd.bin.as_str(), cmd.args.clone()), ("cmd", strings(&["/c", "echo hi"])));
    let ps = shell_command("echo hi".to_string(), ShellMode::Powershell, None, None);
    assert_eq!(
        (ps.bin.as_str(), ps.args.clone()),
        ("powershell", strings(&["-noprofile", "-command", "& echo hi"]))
    );
    assert_eq!(join_sections(&strings(&["\"a\"", "\"b c\""])), "\"a\" \"b c\"");
    assert_eq!(join_sections(&strings(&["only"])), "only");
}

#[test]
fn outcomes_given_as_text_are_judged() {
    assert!(!attention_for(true, "fine"));
    assert!(attention_for(true, "a fatal error occurred"));
    assert!(!attention_for(true, "fatal"));
    assert!(attention_for(false, ""));
    assert_eq!(execution_failure("boom").message, "Command execution failed: boom");
    assert_eq!(execution_failure("").message, "Command execution failed: ");
}

#[test]
fn dart_run_places_every_part() {
    assert_eq!(
        dart_run_args("/p", &strings(&["-o", "web"])),
        strings(&["flutter_rust_bridge", "build-web", "--dart-root", "/p", "-o", "web"])
    );
    let inv = dart_run(&strings(&["--fvm"]), "/p", true, &strings(&["x"]));
    assert_eq!(inv.bin, "dart");
    assert_eq!(
        inv.args,
        strings(&[
            "--fvm",
            "run",
            "--pause-isolates-on-exit",
            "--disable-service-auth-codes",
            "--enable-vm-service=8181",
            "x"
        ])
    );
    assert_eq!(inv.current_dir, Some("/p".to_string()));
    assert!(inv.envs.is_none());
    let whole = execute_dart_command("/p", &strings(&["-r"]), false, &strings(&[]));
    assert_eq!(
        whole.args,
        strings(&["run", "flutter_rust_bridge", "build-web", "--dart-root", "/p", "-r"])
    );
    assert!(matches!(parse_dart_root(None), BuildAction::FindPackageDir));
    assert!(matches!(
        parse_dart_root(Some("x".to_string())),
        BuildAction::Canonicalize { ref path } if path == "x"
    ));
}
