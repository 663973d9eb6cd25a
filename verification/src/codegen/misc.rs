use vstd::prelude::*;
use vstd::string::*;

verus! {

/// The name of the directory under which sources of other packages are kept.
pub const THIRD_PARTY_DIR_NAME: &'static str = "third_party";

/// The label of one line of progress and how deeply it is indented.
#[derive(Debug, PartialEq, Eq)]
pub struct SimpleProgressBar {
    pub message: String,
    pub level: usize,
}

impl SimpleProgressBar {
    /// Whether this line shows `message` at depth `level`.
    pub open spec fn shows(self, message: Seq<char>, level: usize) -> bool {
        self.message@ == message && self.level == level
    }

    /// A line of progress that shows `message` at depth `level`.
    pub fn new(message: &str, level: usize) -> (r: Self)
        ensures
            r.shows(message@, level),
    {
        SimpleProgressBar { message: message.to_string(), level }
    }
}

/// The lines of progress of one generator run: the three phases, each with its
/// steps one level below it.
#[derive(Debug, PartialEq, Eq)]
pub struct GeneratorProgressBarPack {
    pub parse: SimpleProgressBar,
    pub parse_hir_raw: SimpleProgressBar,
    pub parse_hir_primary: SimpleProgressBar,
    pub parse_mir: SimpleProgressBar,
    pub generate: SimpleProgressBar,
    pub generate_cbindgen: SimpleProgressBar,
    pub generate_ffigen: SimpleProgressBar,
    pub polish: SimpleProgressBar,
    pub polish_dart_build_runner: SimpleProgressBar,
    pub polish_dart_formatter: SimpleProgressBar,
    pub polish_rust_formatter: SimpleProgressBar,
    pub polish_upgrade: SimpleProgressBar,
}

impl GeneratorProgressBarPack {
    /// The lines of progress of a run, each with its label and depth.
    pub fn new() -> (r: Self)
        ensures
            r.parse.shows("Parse"@, 0),
            r.parse_hir_raw.shows("Cargo expand & syn parse"@, 1),
            r.parse_hir_primary.shows("Parse HIR"@, 1),
            r.parse_mir.shows("Parse MIR"@, 1),
            r.generate.shows("Generate"@, 0),
            r.generate_cbindgen.shows("Run cbindgen"@, 1),
            r.generate_ffigen.shows("Run ffigen"@, 1),
            r.polish.shows("Polish"@, 0),
            r.polish_dart_build_runner.shows("Run Dart build_runner"@, 1),
            r.polish_dart_formatter.shows("Run Dart formatter"@, 1),
            r.polish_rust_formatter.shows("Run Rust formatter"@, 1),
            r.polish_upgrade.shows("Auto upgrade"@, 1),
    {
        GeneratorProgressBarPack {
            parse: SimpleProgressBar::new("Parse", 0),
            parse_hir_raw: SimpleProgressBar::new("Cargo expand & syn parse", 1),
            parse_hir_primary: SimpleProgressBar::new("Parse HIR", 1),
            parse_mir: SimpleProgressBar::new("Parse MIR", 1),
            generate: SimpleProgressBar::new("Generate", 0),
            generate_cbindgen: SimpleProgressBar::new("Run cbindgen", 1),
            generate_ffigen: SimpleProgressBar::new("Run ffigen", 1),
            polish: SimpleProgressBar::new("Polish", 0),
            polish_dart_build_runner: SimpleProgressBar::new("Run Dart build_runner", 1),
            polish_dart_formatter: SimpleProgressBar::new("Run Dart formatter", 1),
            polish_rust_formatter: SimpleProgressBar::new("Run Rust formatter", 1),
            polish_upgrade: SimpleProgressBar::new("Auto upgrade", 1),
        }
    }
}

} // verus!
