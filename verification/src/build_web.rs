use crate::commands::command_runner::{
    call_shell, call_shell_spec, check_exit_code, default_shell_mode_spec,
    execution_failure_spec, CommandInvocation, CommandOutput, InvocationModel, ShellMode,
};
use crate::text::{concat_strings, utf8_lossy_form, views};
use vstd::prelude::*;
use vstd::string::*;

verus! {

/// Where a web build stands: what it is waiting for.
#[derive(Clone, Copy, Debug, PartialEq, Eq, Structural)]
pub enum BuildStage {
    AwaitRoot,
    AwaitRepository,
    AwaitSpawn,
    AwaitCoverage,
    AwaitExit,
    Finished,
}

/// Why a web build ended without success.
#[derive(Debug, PartialEq, Eq)]
pub enum BuildError {
    /// No package directory was given and none was found.
    MissingDartRoot,
    /// Collecting coverage failed; `message` carries what the collector wrote.
    CoverageFailed { message: String },
    /// The build command itself reported failure.
    CommandFailed,
    /// An event arrived that the stage of the build does not expect.
    UnexpectedEvent,
}

/// A web build in progress.
#[derive(Debug, PartialEq, Eq)]
pub struct BuildSession {
    pub dart_coverage: bool,
    pub args: Vec<String>,
    pub shell_mode: Option<ShellMode>,
    pub windows: bool,
    pub stage: BuildStage,
    pub root: String,
}

/// What the caller is to do next for a web build.
#[derive(Debug, PartialEq, Eq)]
pub enum BuildAction {
    /// Make the given package directory absolute and report it as the root.
    Canonicalize { path: String },
    /// Look for the package directory upwards from the current directory.
    FindPackageDir,
    /// Open the package at `root` and report the arguments its toolchain wants.
    OpenRepository { root: String },
    /// Start the process and leave it running.
    Spawn { command: CommandInvocation },
    /// Run the process to its end and report what it left behind.
    Run { command: CommandInvocation },
    /// Wait for the process that was started and report how it ended.
    Wait,
    /// Nothing more: the build has ended with `result`.
    Finish { result: Result<(), BuildError> },
}

/// What the caller found on doing what it was asked.
#[derive(Debug, PartialEq, Eq)]
pub enum BuildEvent {
    RootFound { root: String },
    RootNotFound,
    RepositoryOpened { extra_args: Vec<String> },
    Spawned,
    Ran { output: CommandOutput },
    Exited { success: bool },
}

/// What a `BuildError` says, as plain sequences and values, for use in contracts.
pub enum BuildErrorModel {
    MissingDartRoot,
    CoverageFailed { message: Seq<char> },
    CommandFailed,
    UnexpectedEvent,
}

/// What a `BuildSession` says, as plain sequences and values, for use in contracts.
pub struct SessionModel {
    pub dart_coverage: bool,
    pub args: Seq<Seq<char>>,
    pub shell_mode: Option<ShellMode>,
    pub windows: bool,
    pub stage: BuildStage,
    pub root: Seq<char>,
}

/// What a `BuildAction` says, as plain sequences and values, for use in contracts.
pub enum ActionModel {
    Canonicalize { path: Seq<char> },
    FindPackageDir,
    OpenRepository { root: Seq<char> },
    Spawn { command: InvocationModel },
    Run { command: InvocationModel },
    Wait,
    Finish { result: Result<(), BuildErrorModel> },
}

impl View for BuildError {
    type V = BuildErrorModel;

    open spec fn view(&self) -> BuildErrorModel {
        match self {
            BuildError::MissingDartRoot => BuildErrorModel::MissingDartRoot,
            BuildError::CoverageFailed { message } => BuildErrorModel::CoverageFailed {
                message: message@,
            },
            BuildError::CommandFailed => BuildErrorModel::CommandFailed,
            BuildError::UnexpectedEvent => BuildErrorModel::UnexpectedEvent,
        }
    }
}

impl View for BuildSession {
    type V = SessionModel;

    open spec fn view(&self) -> SessionModel {
        SessionModel {
            dart_coverage: self.dart_coverage,
            args: views(self.args@),
            shell_mode: self.shell_mode,
            windows: self.windows,
            stage: self.stage,
            root: self.root@,
        }
    }
}

impl View for BuildAction {
    type V = ActionModel;

    open spec fn view(&self) -> ActionModel {
        match self {
            BuildAction::Canonicalize { path } => ActionModel::Canonicalize { path: path@ },
            BuildAction::FindPackageDir => ActionModel::FindPackageDir,
            BuildAction::OpenRepository { root } => ActionModel::OpenRepository { root: root@ },
            BuildAction::Spawn { command } => ActionModel::Spawn { command: command@ },
            BuildAction::Run { command } => ActionModel::Run { command: command@ },
            BuildAction::Wait => ActionModel::Wait,
            BuildAction::Finish { result } => ActionModel::Finish {
                result: match result {
                    Ok(_) => Ok(()),
                    Err(e) => Err(e@),
                },
            },
        }
    }
}

/// The arguments with which the build tool of the package is run.
pub open spec fn dart_run_args_spec(root: Seq<char>, args: Seq<Seq<char>>) -> Seq<Seq<char>> {
    seq!["flutter_rust_bridge"@, "build-web"@, "--dart-root"@, root] + args
}

/// The switches that make the Dart VM wait for a coverage collector.
pub open spec fn coverage_switches_spec(dart_coverage: bool) -> Seq<Seq<char>> {
    if dart_coverage {
        seq![
            "--pause-isolates-on-exit"@,
            "--disable-service-auth-codes"@,
            "--enable-vm-service=8181"@,
        ]
    } else {
        Seq::empty()
    }
}

/// The process that runs the build tool: `dart`, what the toolchain wants in
/// front, `run`, the coverage switches, and the arguments of the tool, in the
/// package directory.
pub open spec fn dart_run_spec(
    extra_args: Seq<Seq<char>>,
    root: Seq<char>,
    dart_coverage: bool,
    args: Seq<Seq<char>>,
) -> InvocationModel {
    InvocationModel {
        bin: "dart"@,
        args: extra_args + seq!["run"@] + coverage_switches_spec(dart_coverage) + args,
        current_dir: Some(root),
        envs: None,
    }
}

/// The sections of the command that collects coverage from the waiting VM.
pub open spec fn collect_coverage_sections() -> Seq<Seq<char>> {
    seq![
        "dart"@,
        "pub"@,
        "global"@,
        "run"@,
        "coverage:collect_coverage"@,
        "--wait-paused"@,
        "--uri=http://127.0.0.1:8181/"@,
        "-o"@,
        "coverage/coverage.json"@,
        "--resume-isolates"@,
        "--scope-output=foo"@,
    ]
}

/// The first thing to do for a build: settle the package directory.
pub open spec fn first_action_spec(dart_root: Option<Seq<char>>) -> ActionModel {
    match dart_root {
        Some(path) => ActionModel::Canonicalize { path },
        None => ActionModel::FindPackageDir,
    }
}

/// The session as it goes on after `event`, and what is to be done next.
pub open spec fn advance_spec(s: SessionModel, event: BuildEvent) -> (SessionModel, ActionModel) {
    let failed = SessionModel { stage: BuildStage::Finished, ..s };
    match (s.stage, event) {
        (BuildStage::AwaitRoot, BuildEvent::RootFound { root }) => (
            SessionModel { stage: BuildStage::AwaitRepository, root: root@, ..s },
            ActionModel::OpenRepository { root: root@ },
        ),
        (BuildStage::AwaitRoot, BuildEvent::RootNotFound) => (
            failed,
            ActionModel::Finish { result: Err(BuildErrorModel::MissingDartRoot) },
        ),
        (BuildStage::AwaitRepository, BuildEvent::RepositoryOpened { extra_args }) => (
            SessionModel { stage: BuildStage::AwaitSpawn, ..s },
            ActionModel::Spawn {
                command: dart_run_spec(
                    views(extra_args@),
                    s.root,
                    s.dart_coverage,
                    dart_run_args_spec(s.root, s.args),
                ),
            },
        ),
        (BuildStage::AwaitSpawn, BuildEvent::Spawned) => if s.dart_coverage {
            (
                SessionModel { stage: BuildStage::AwaitCoverage, ..s },
                ActionModel::Run {
                    command: call_shell_spec(
                        collect_coverage_sections(),
                        match s.shell_mode {
                            Some(m) => m,
                            None => default_shell_mode_spec(s.windows),
                        },
                        Some(s.root),
                        None,
                    ),
                },
            )
        } else {
            (SessionModel { stage: BuildStage::AwaitExit, ..s }, ActionModel::Wait)
        },
        (BuildStage::AwaitCoverage, BuildEvent::Ran { output }) => if output.success {
            (SessionModel { stage: BuildStage::AwaitExit, ..s }, ActionModel::Wait)
        } else {
            (
                failed,
                ActionModel::Finish {
                    result: Err(
                        BuildErrorModel::CoverageFailed {
                            message: execution_failure_spec(utf8_lossy_form(output.stderr@)),
                        },
                    ),
                },
            )
        },
        (BuildStage::AwaitExit, BuildEvent::Exited { success }) => (
            failed,
            ActionModel::Finish {
                result: if success {
                    Ok(())
                } else {
                    Err(BuildErrorModel::CommandFailed)
                },
            },
        ),
        _ => (failed, ActionModel::Finish { result: Err(BuildErrorModel::UnexpectedEvent) }),
    }
}

impl BuildError {
    /// The words in which the error is told to the user.
    pub fn message(&self) -> (r: String)
        ensures
            r@ == match self@ {
                BuildErrorModel::MissingDartRoot =>
                    "Please provide --dart-root, or run command inside a Flutter/Dart package"@,
                BuildErrorModel::CoverageFailed { message } => message,
                BuildErrorModel::CommandFailed =>
                    "Fail to execute command, please see logs above for details."@,
                BuildErrorModel::UnexpectedEvent => "Unexpected event for this stage of the build"@,
            },
    {
        match self {
            BuildError::MissingDartRoot => {
                "Please provide --dart-root, or run command inside a Flutter/Dart package"
                    .to_string()
            },
            BuildError::CoverageFailed { message } => message.clone(),
            BuildError::CommandFailed => {
                "Fail to execute command, please see logs above for details.".to_string()
            },
            BuildError::UnexpectedEvent => {
                "Unexpected event for this stage of the build".to_string()
            },
        }
    }
}

/// The arguments with which the build tool of the package at `root` is run.
pub fn dart_run_args(root: &str, args: &[String]) -> (r: Vec<String>)
    ensures
        views(r@) == dart_run_args_spec(root@, views(args@)),
{
    let head = vec![
        "flutter_rust_bridge".to_string(),
        "build-web".to_string(),
        "--dart-root".to_string(),
        root.to_string(),
    ];
    assert(views(head@) =~= seq!["flutter_rust_bridge"@, "build-web"@, "--dart-root"@, root@]);
    concat_strings(&head, args)
}

/// Prepares the process that runs the build tool in the package directory
/// `current_dir`.
pub fn dart_run(
    extra_args: &[String],
    current_dir: &str,
    dart_coverage: bool,
    args: &[String],
) -> (r: CommandInvocation)
    ensures
        r@ == dart_run_spec(views(extra_args@), current_dir@, dart_coverage, views(args@)),
{
    let none: Vec<String> = Vec::new();
    let front = concat_strings(&none, extra_args);
    let run = vec!["run".to_string()];
    assert(views(run@) =~= seq!["run"@]);
    let front = concat_strings(&front, run.as_slice());
    let switches: Vec<String> = if dart_coverage {
        vec![
            "--pause-isolates-on-exit".to_string(),
            "--disable-service-auth-codes".to_string(),
            "--enable-vm-service=8181".to_string(),
        ]
    } else {
        Vec::new()
    };
    assert(views(switches@) =~= coverage_switches_spec(dart_coverage));
    let front = concat_strings(&front, switches.as_slice());
    let all = concat_strings(&front, args);
    assert(views(all@) =~= views(extra_args@) + seq!["run"@] + coverage_switches_spec(
        dart_coverage,
    ) + views(args@));
    CommandInvocation {
        bin: "dart".to_string(),
        args: all,
        current_dir: Some(current_dir.to_string()),
        envs: None,
    }
}

/// Prepares the run of the build tool for the package at `dart_root`, with what
/// its toolchain wants in front.
pub fn execute_dart_command(
    dart_root: &str,
    args: &[String],
    dart_coverage: bool,
    extra_args: &[String],
) -> (r: CommandInvocation)
    ensures
        r@ == dart_run_spec(
            views(extra_args@),
            dart_root@,
            dart_coverage,
            dart_run_args_spec(dart_root@, views(args@)),
        ),
{
    let run_args = dart_run_args(dart_root, args);
    dart_run(extra_args, dart_root, dart_coverage, run_args.as_slice())
}

/// Says how the package directory is settled: the one that is given is made
/// absolute; where none is given, the package that holds the current directory
/// is looked for.
pub fn parse_dart_root(dart_root: Option<String>) -> (r: BuildAction)
    ensures
        r@ == first_action_spec(
            match dart_root {
                Some(p) => Some(p@),
                None => None,
            },
        ),
{
    match dart_root {
        Some(path) => BuildAction::Canonicalize { path },
        None => BuildAction::FindPackageDir,
    }
}

/// Prepares the process that collects coverage from the waiting VM, run through
/// a shell in the package directory.
pub fn collect_coverage(current_dir: &str, shell_mode: Option<ShellMode>, windows: bool) -> (r:
    CommandInvocation)
    ensures
        r@ == call_shell_spec(
            collect_coverage_sections(),
            match shell_mode {
                Some(m) => m,
                None => default_shell_mode_spec(windows),
            },
            Some(current_dir@),
            None,
        ),
{
    let cmd = vec![
        "dart".to_string(),
        "pub".to_string(),
        "global".to_string(),
        "run".to_string(),
        "coverage:collect_coverage".to_string(),
        "--wait-paused".to_string(),
        "--uri=http://127.0.0.1:8181/".to_string(),
        "-o".to_string(),
        "coverage/coverage.json".to_string(),
        "--resume-isolates".to_string(),
        "--scope-output=foo".to_string(),
    ];
    assert(views(cmd@) =~= collect_coverage_sections());
    call_shell(cmd.as_slice(), shell_mode, Some(current_dir), None, windows)
}

/// Begins a web build of the package at `dart_root`, or of the package that
/// holds the current directory where none is given, and says what to do first.
/// The build itself is written in Dart; this side settles the directory, starts
/// the tool, collects coverage where asked to, and judges the outcome.
pub fn build(
    dart_root: Option<String>,
    dart_coverage: bool,
    args: Vec<String>,
    shell_mode: Option<ShellMode>,
    windows: bool,
) -> (r: (BuildSession, BuildAction))
    ensures
        r.0@ == (SessionModel {
            dart_coverage,
            args: views(args@),
            shell_mode,
            windows,
            stage: BuildStage::AwaitRoot,
            root: Seq::empty(),
        }),
        r.1@ == first_action_spec(
            match dart_root {
                Some(p) => Some(p@),
                None => None,
            },
        ),
{
    let session = BuildSession {
        dart_coverage,
        args,
        shell_mode,
        windows,
        stage: BuildStage::AwaitRoot,
        root: String::new(),
    };
    (session, parse_dart_root(dart_root))
}

impl BuildSession {
    fn finish(self, result: Result<(), BuildError>) -> (r: (BuildSession, BuildAction))
        ensures
            r.0@ == (SessionModel { stage: BuildStage::Finished, ..self@ }),
            r.1@ == (ActionModel::Finish {
                result: match result {
                    Ok(_) => Ok(()),
                    Err(e) => Err(e@),
                },
            }),
    {
        let mut s = self;
        s.stage = BuildStage::Finished;
        (s, BuildAction::Finish { result })
    }

    fn at(self, stage: BuildStage, action: BuildAction) -> (r: (BuildSession, BuildAction))
        ensures
            r.0@ == (SessionModel { stage, ..self@ }),
            r.1 == action,
    {
        let mut s = self;
        s.stage = stage;
        (s, action)
    }

    /// Takes what the caller found on doing what it was asked, and says what to
    /// do next. An event that the stage does not expect ends the build.
    pub fn advance(self, event: BuildEvent) -> (r: (BuildSession, BuildAction))
        ensures
            (r.0@, r.1@) == advance_spec(self@, event),
    {
        match self.stage {
            BuildStage::AwaitRoot => match event {
                BuildEvent::RootFound { root } => {
                    let mut s = self;
                    s.root = root.clone();
                    s.stage = BuildStage::AwaitRepository;
                    (s, BuildAction::OpenRepository { root })
                },
                BuildEvent::RootNotFound => self.finish(Err(BuildError::MissingDartRoot)),
                _ => self.finish(Err(BuildError::UnexpectedEvent)),
            },
            BuildStage::AwaitRepository => match event {
                BuildEvent::RepositoryOpened { extra_args } => {
                    let command = execute_dart_command(
                        self.root.as_str(),
                        self.args.as_slice(),
                        self.dart_coverage,
                        extra_args.as_slice(),
                    );
                    self.at(BuildStage::AwaitSpawn, BuildAction::Spawn { command })
                },
                _ => self.finish(Err(BuildError::UnexpectedEvent)),
            },
            BuildStage::AwaitSpawn => match event {
                BuildEvent::Spawned => {
                    if self.dart_coverage {
                        let command = collect_coverage(
                            self.root.as_str(),
                            self.shell_mode,
                            self.windows,
                        );
                        self.at(BuildStage::AwaitCoverage, BuildAction::Run { command })
                    } else {
                        self.at(BuildStage::AwaitExit, BuildAction::Wait)
                    }
                },
                _ => self.finish(Err(BuildError::UnexpectedEvent)),
            },
            BuildStage::AwaitCoverage => match event {
                BuildEvent::Ran { output } => {
                    match check_exit_code(&output) {
                        Ok(_) => self.at(BuildStage::AwaitExit, BuildAction::Wait),
                        Err(e) => self.finish(
                            Err(BuildError::CoverageFailed { message: e.message }),
                        ),
                    }
                },
                _ => self.finish(Err(BuildError::UnexpectedEvent)),
            },
            BuildStage::AwaitExit => match event {
                BuildEvent::Exited { success } => {
                    if success {
                        self.finish(Ok(()))
                    } else {
                        self.finish(Err(BuildError::CommandFailed))
                    }
                },
                _ => self.finish(Err(BuildError::UnexpectedEvent)),
            },
            BuildStage::Finished => self.finish(Err(BuildError::UnexpectedEvent)),
        }
    }
}

} // verus!
