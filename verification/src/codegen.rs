use crate::codegen::generator::{
    generate, generate_spec, ArtifactsModel, GeneratedArtifacts, GeneratorConfig,
};
use crate::codegen::ir::hir::raw::HirRawPack;
use crate::codegen::parser::hir::hierarchical::{
    parse, parse_spec, ResolutionError, ResolutionErrorModel,
};
use crate::codegen::parser::hir::internal_config::ParserHirInternalConfig;
use crate::codegen::parser::mir::{lower, lower_spec, LoweringError, LoweringErrorModel};
use crate::commands::command_runner::CommandOutput;
use crate::text::{utf8_lossy, utf8_lossy_form};
use vstd::prelude::*;
use vstd::string::*;

pub mod generator;
pub mod ir;
pub mod laws;
pub mod misc;
pub mod parser;

verus! {

/// Why a run ended without artifacts.
#[derive(Debug, PartialEq, Eq)]
pub enum PipelineError {
    /// The syntax trees could not be had; the error carries what the parser said.
    Extraction(String),
    /// The crates could not be resolved.
    Resolution(ResolutionError),
    /// The resolved crates could not be lowered.
    Lowering(LoweringError),
    /// A tool that works on the artifacts failed; the error carries what it wrote.
    Emission(String),
}

/// What a `PipelineError` says, as plain sequences and values, for use in contracts.
pub enum PipelineErrorModel {
    Extraction(Seq<char>),
    Resolution(ResolutionErrorModel),
    Lowering(LoweringErrorModel),
    Emission(Seq<char>),
}

impl View for PipelineError {
    type V = PipelineErrorModel;

    open spec fn view(&self) -> PipelineErrorModel {
        match self {
            PipelineError::Extraction(message) => PipelineErrorModel::Extraction(message@),
            PipelineError::Resolution(error) => PipelineErrorModel::Resolution(error@),
            PipelineError::Lowering(error) => PipelineErrorModel::Lowering(error@),
            PipelineError::Emission(diagnostic) => PipelineErrorModel::Emission(diagnostic@),
        }
    }
}

/// What a run makes of the syntax trees `raw`: the crates are resolved, the
/// resolved crates lowered, and the artifacts written of the document. The first
/// stage that fails ends the run, and nothing of a later stage is made.
pub open spec fn run_spec(
    config: ParserHirInternalConfig,
    header_path: Seq<char>,
    output_dir: Seq<char>,
    raw: HirRawPack,
) -> Result<ArtifactsModel, PipelineErrorModel> {
    match parse_spec(config, raw) {
        Err(e) => Err(PipelineErrorModel::Resolution(e)),
        Ok(pack) => match lower_spec(pack) {
            Err(e) => Err(PipelineErrorModel::Lowering(e)),
            Ok(items) => Ok(generate_spec(header_path, output_dir, items)),
        },
    }
}

/// The outcome of a run, as plain values.
pub open spec fn run_outcome(r: Result<GeneratedArtifacts, PipelineError>) -> Result<
    ArtifactsModel,
    PipelineErrorModel,
> {
    match r {
        Ok(a) => Ok(a@),
        Err(e) => Err(e@),
    }
}

/// Runs the stages from syntax trees to artifacts. What comes out is a function
/// of what goes in: the same trees and configuration give, character for
/// character, the same artifacts or the same error, whenever and however often
/// the run is made.
pub fn run(config: &ParserHirInternalConfig, generator: &GeneratorConfig, raw: &HirRawPack) -> (r:
    Result<GeneratedArtifacts, PipelineError>)
    ensures
        run_outcome(r) == run_spec(
            *config,
            generator.header_path@,
            generator.managed_output_dir@,
            *raw,
        ),
{
    let pack = match parse(config, raw) {
        Ok(pack) => pack,
        Err(error) => {
            return Err(PipelineError::Resolution(error));
        },
    };
    let doc = match lower(&pack) {
        Ok(doc) => doc,
        Err(error) => {
            return Err(PipelineError::Lowering(error));
        },
    };
    Ok(generate(generator, &doc))
}

/// What a run makes of the outcome of extraction: where the syntax trees could
/// not be had, what the parser said is the error of the run, word for word, and
/// no stage is entered; else the run goes on from the trees.
pub open spec fn run_from_spec(
    config: ParserHirInternalConfig,
    header_path: Seq<char>,
    output_dir: Seq<char>,
    extraction: Result<HirRawPack, String>,
) -> Result<ArtifactsModel, PipelineErrorModel> {
    match extraction {
        Ok(raw) => run_spec(config, header_path, output_dir, raw),
        Err(message) => Err(PipelineErrorModel::Extraction(message@)),
    }
}

/// Runs the stages on the outcome of extraction.
pub fn run_from(
    config: &ParserHirInternalConfig,
    generator: &GeneratorConfig,
    extraction: &Result<HirRawPack, String>,
) -> (r: Result<GeneratedArtifacts, PipelineError>)
    ensures
        run_outcome(r) == run_from_spec(
            *config,
            generator.header_path@,
            generator.managed_output_dir@,
            *extraction,
        ),
{
    match extraction {
        Ok(raw) => run(config, generator, raw),
        Err(message) => Err(PipelineError::Extraction(message.clone())),
    }
}

/// Accepts the outcome of a tool that succeeded, and turns that of one that
/// failed into the error of the run, with what the tool wrote to its error
/// stream.
pub fn confirm_emission(output: &CommandOutput) -> (r: Result<(), PipelineError>)
    ensures
        output.success <==> r is Ok,
        r matches Err(e) ==> e@ == PipelineErrorModel::Emission(utf8_lossy_form(output.stderr@)),
{
    if output.success {
        Ok(())
    } else {
        Err(PipelineError::Emission(utf8_lossy(&output.stderr)))
    }
}

} // verus!
