use crate::codegen::generator::glue::{
    entries, entries_model, entries_spec, EntryModel, NativeEntry,
};
use crate::codegen::generator::interface::{
    interface_text, interface_text_spec, symbols, symbols_spec,
};
use crate::codegen::generator::managed::{
    declarations, declarations_model, declarations_spec, managed_text, managed_text_spec,
    DeclModel, ManagedDecl,
};
use crate::codegen::generator::native::{glue_text, glue_text_spec};
use crate::codegen::ir::mir::{MirDocument, MirItemModel};
use crate::text::views;
use vstd::prelude::*;
use vstd::string::*;

pub mod abi;
pub mod glue;
pub mod interface;
pub mod managed;
pub mod names;
pub mod native;

verus! {

/// Where the generator of managed declarations finds the interface description
/// and where it is to put what it makes.
#[derive(Debug, PartialEq, Eq)]
pub struct GeneratorConfig {
    pub header_path: String,
    pub managed_output_dir: String,
}

/// What the generator of managed declarations is asked for: the description to
/// read, the directory to write to, and the entry points to declare.
#[derive(Debug, PartialEq, Eq)]
pub struct BindingRequest {
    pub header_path: String,
    pub output_dir: String,
    pub symbols: Vec<String>,
}

/// All that is made of one document. The entry points and the declarations
/// stand beside the texts that are written of them.
#[derive(Debug, PartialEq, Eq)]
pub struct GeneratedArtifacts {
    pub entries: Vec<NativeEntry>,
    pub native_glue: String,
    pub interface: String,
    pub request: BindingRequest,
    pub declarations: Vec<ManagedDecl>,
    pub managed: String,
}

/// What a `BindingRequest` says, as plain sequences and values, for use in contracts.
pub struct RequestModel {
    pub header_path: Seq<char>,
    pub output_dir: Seq<char>,
    pub symbols: Seq<Seq<char>>,
}

/// What a `GeneratedArtifacts` says, as plain sequences and values, for use in contracts.
pub struct ArtifactsModel {
    pub entries: Seq<EntryModel>,
    pub native_glue: Seq<char>,
    pub interface: Seq<char>,
    pub request: RequestModel,
    pub declarations: Seq<DeclModel>,
    pub managed: Seq<char>,
}

impl View for BindingRequest {
    type V = RequestModel;

    open spec fn view(&self) -> RequestModel {
        RequestModel {
            header_path: self.header_path@,
            output_dir: self.output_dir@,
            symbols: views(self.symbols@),
        }
    }
}

impl View for GeneratedArtifacts {
    type V = ArtifactsModel;

    open spec fn view(&self) -> ArtifactsModel {
        ArtifactsModel {
            entries: entries_model(self.entries@),
            native_glue: self.native_glue@,
            interface: self.interface@,
            request: self.request@,
            declarations: declarations_model(self.declarations@),
            managed: self.managed@,
        }
    }
}

/// All that is made of the items of a document: the entry points of the native
/// glue and the glue itself; the interface description, which declares those
/// entry points; the request for managed declarations of them; and the managed
/// bindings, one declaration for each item. Everything follows the order of the
/// items and names them by their identifiers.
pub open spec fn generate_spec(
    header_path: Seq<char>,
    output_dir: Seq<char>,
    items: Seq<MirItemModel>,
) -> ArtifactsModel {
    let entries = entries_spec(items, items.len());
    let declarations = declarations_spec(items);
    ArtifactsModel {
        entries,
        native_glue: glue_text_spec(items, items.len()),
        interface: interface_text_spec(entries, entries.len()),
        request: RequestModel { header_path, output_dir, symbols: symbols_spec(entries) },
        declarations,
        managed: managed_text_spec(declarations, declarations.len()),
    }
}

/// Writes the artifacts of a document.
pub fn generate(config: &GeneratorConfig, doc: &MirDocument) -> (r: GeneratedArtifacts)
    ensures
        r@ == generate_spec(config.header_path@, config.managed_output_dir@, doc.model()),
{
    let entries = entries(&doc.items);
    let declarations = declarations(&doc.items);
    let native_glue = glue_text(&doc.items);
    let interface = interface_text(&entries);
    let request = BindingRequest {
        header_path: config.header_path.clone(),
        output_dir: config.managed_output_dir.clone(),
        symbols: symbols(&entries),
    };
    let managed = managed_text(&declarations);
    GeneratedArtifacts { entries, native_glue, interface, request, declarations, managed }
}

} // verus!
