use crate::codegen::generator::glue::{
    call_symbol, call_symbol_spec, needs_disposer, release_symbol, release_symbol_spec,
    tag_needs_disposer,
};
use crate::codegen::generator::names::{managed_primitive, managed_primitive_spec};
use crate::codegen::ir::hir::raw::ExecutionMode;
use crate::codegen::ir::mir::{
    fields_model, items_model, payload_model, types_model, variants_model, FieldModel,
    FunctionModel, ItemKindModel, MirField, MirFunction, MirItem, MirItemKind, MirItemModel,
    MirPayload, MirType, MirVariant, ParamModel, PayloadModel, TypeModel, VariantModel,
};
use crate::codegen::ir::path::{last_segment, last_segment_spec};
use crate::text::{decimal, decimal_spec, join_spec, join_strings, views};
use vstd::prelude::*;
use vstd::string::*;

verus! {

/// One declaration of the managed bindings. `item` is the identifier of the item
/// that it mirrors; `disposer` names the entry point through which the managed
/// side releases a value of it, where it has to.
#[derive(Debug, PartialEq, Eq)]
pub struct ManagedDecl {
    pub item: String,
    pub disposer: Option<String>,
    pub text: String,
}

/// What a `ManagedDecl` says, as plain sequences and values, for use in contracts.
pub struct DeclModel {
    pub item: Seq<char>,
    pub disposer: Option<Seq<char>>,
    pub text: Seq<char>,
}

impl View for ManagedDecl {
    type V = DeclModel;

    open spec fn view(&self) -> DeclModel {
        DeclModel {
            item: self.item@,
            disposer: match self.disposer {
                Some(d) => Some(d@),
                None => None,
            },
            text: self.text@,
        }
    }
}

/// The declarations of a vector, as plain values.
pub open spec fn declarations_model(decls: Seq<ManagedDecl>) -> Seq<DeclModel> {
    Seq::new(decls.len(), |i: int| decls[i]@)
}

/// The name of a bridge type on the managed side.
pub open spec fn managed_type_spec(ty: TypeModel) -> Seq<char>
    decreases ty,
{
    match ty {
        TypeModel::Primitive(k) => managed_primitive_spec(k),
        TypeModel::Str => "String"@,
        TypeModel::Bytes => "Uint8List"@,
        TypeModel::Optional(t) => managed_type_spec(*t) + "?"@,
        TypeModel::List(t) => "List<"@ + managed_type_spec(*t) + ">"@,
        TypeModel::Dict(k, v) => "Map<"@ + managed_type_spec(*k) + ", "@ + managed_type_spec(*v)
            + ">"@,
        TypeModel::Record { name, .. } => name,
        TypeModel::Enum { name, .. } => name,
        TypeModel::OpaqueHandle { name } => name,
    }
}

/// The line that declares a field known by name.
pub open spec fn field_line_spec(f: FieldModel) -> Seq<char> {
    "  final "@ + managed_type_spec(f.ty) + " "@ + f.name + ";\n"@
}

/// The lines that declare the first `n` of the fields, in their order.
pub open spec fn field_lines_spec(fields: Seq<FieldModel>, n: nat) -> Seq<char>
    decreases n,
{
    if n == 0 || n > fields.len() {
        Seq::empty()
    } else {
        field_lines_spec(fields, (n - 1) as nat) + field_line_spec(fields[n - 1])
    }
}

/// The line that declares the field at place `i` of those known by place.
pub open spec fn positional_line_spec(ty: TypeModel, i: nat) -> Seq<char> {
    "  final "@ + managed_type_spec(ty) + " field"@ + decimal_spec(i) + ";\n"@
}

/// The lines that declare the first `n` of the fields known by place.
pub open spec fn positional_lines_spec(types: Seq<TypeModel>, n: nat) -> Seq<char>
    decreases n,
{
    if n == 0 || n > types.len() {
        Seq::empty()
    } else {
        positional_lines_spec(types, (n - 1) as nat) + positional_line_spec(
            types[n - 1],
            (n - 1) as nat,
        )
    }
}

/// The lines that declare what a variant carries: none for a unit variant,
/// numbered fields for a tuple variant, named fields for a struct variant.
pub open spec fn payload_lines_spec(payload: PayloadModel) -> Seq<char> {
    match payload {
        PayloadModel::Unit => Seq::empty(),
        PayloadModel::Tuple { types } => positional_lines_spec(types, types.len()),
        PayloadModel::Struct { fields } => field_lines_spec(fields, fields.len()),
    }
}

/// The line through which the managed side releases a value.
pub open spec fn disposer_line_spec(disposer: Option<Seq<char>>) -> Seq<char> {
    match disposer {
        Some(d) => "  void dispose() => "@ + d + "(this);\n"@,
        None => Seq::empty(),
    }
}

/// The class of one variant of the sealed class `owner`.
pub open spec fn variant_text_spec(owner: Seq<char>, v: VariantModel) -> Seq<char> {
    "class "@ + owner + "_"@ + v.name + " extends "@ + owner + " {\n"@ + payload_lines_spec(
        v.payload,
    ) + "}\n"@
}

/// The classes of the first `n` variants, in their order.
pub open spec fn variants_text_spec(owner: Seq<char>, variants: Seq<VariantModel>, n: nat) -> Seq<
    char,
>
    decreases n,
{
    if n == 0 || n > variants.len() {
        Seq::empty()
    } else {
        variants_text_spec(owner, variants, (n - 1) as nat) + variant_text_spec(
            owner,
            variants[n - 1],
        )
    }
}

/// The declaration of a data type: a class with the fields of a record, in their
/// order; a sealed class with one class for each variant of an enum; an empty
/// class for a handle; a name for any other type. The line of the disposer
/// stands in the class where there is one.
pub open spec fn data_text_spec(
    own_name: Seq<char>,
    ty: TypeModel,
    disposer: Option<Seq<char>>,
) -> Seq<char> {
    match ty {
        TypeModel::Record { name, fields } => "class "@ + name + " {\n"@ + field_lines_spec(
            fields,
            fields.len(),
        ) + disposer_line_spec(disposer) + "}\n"@,
        TypeModel::Enum { name, variants } => "sealed class "@ + name + " {\n"@
            + disposer_line_spec(disposer) + "}\n"@ + variants_text_spec(
            name,
            variants,
            variants.len(),
        ),
        TypeModel::OpaqueHandle { name } => "class "@ + name + " {\n"@ + disposer_line_spec(
            disposer,
        ) + "}\n"@,
        _ => "typedef "@ + own_name + " = "@ + managed_type_spec(ty) + ";\n"@,
    }
}

/// A parameter as the wrapper of a function declares it.
pub open spec fn wrapper_param_spec(p: ParamModel) -> Seq<char> {
    managed_type_spec(p.slot.ty) + " "@ + p.name
}

/// The type of what the wrapper of a function returns.
pub open spec fn wrapper_return_spec(f: FunctionModel) -> Seq<char> {
    if f.mode == ExecutionMode::Asynchronous {
        "Future<"@ + managed_type_spec(f.ret.ty) + ">"@
    } else {
        managed_type_spec(f.ret.ty)
    }
}

/// The wrapper of a function: a managed function of the same name and
/// parameters that calls the entry point of the function.
pub open spec fn wrapper_text_spec(name: Seq<char>, id: Seq<char>, f: FunctionModel) -> Seq<char> {
    wrapper_return_spec(f) + " "@ + name + "("@ + join_spec(
        Seq::new(f.params.len(), |i: int| wrapper_param_spec(f.params[i])),
        ", "@,
    ) + ") => "@ + call_symbol_spec(id) + "("@ + join_spec(
        Seq::new(f.params.len(), |i: int| f.params[i].name),
        ", "@,
    ) + ");\n"@
}

/// The entry point through which the managed side releases a value of an item:
/// that of a data type whose values are moved or known by a handle; none for any
/// other item.
pub open spec fn disposer_spec(item: MirItemModel) -> Option<Seq<char>> {
    match item.kind {
        ItemKindModel::Data { slot } => if needs_disposer(slot.tag) {
            Some(release_symbol_spec(item.id))
        } else {
            None
        },
        ItemKindModel::Function { .. } => None,
    }
}

/// The declaration of one item.
pub open spec fn declaration_spec(item: MirItemModel) -> DeclModel {
    DeclModel {
        item: item.id,
        disposer: disposer_spec(item),
        text: match item.kind {
            ItemKindModel::Function { function } => wrapper_text_spec(
                last_segment_spec(item.path),
                item.id,
                function,
            ),
            ItemKindModel::Data { slot } => data_text_spec(
                last_segment_spec(item.path),
                slot.ty,
                disposer_spec(item),
            ),
        },
    }
}

/// The declarations of the items, one for each, in the order of the items.
pub open spec fn declarations_spec(items: Seq<MirItemModel>) -> Seq<DeclModel> {
    Seq::new(items.len(), |i: int| declaration_spec(items[i]))
}

/// The text of the first `n` declarations, in their order.
pub open spec fn managed_text_spec(decls: Seq<DeclModel>, n: nat) -> Seq<char>
    decreases n,
{
    if n == 0 || n > decls.len() {
        Seq::empty()
    } else {
        managed_text_spec(decls, (n - 1) as nat) + decls[n - 1].text
    }
}

/// The name of a bridge type on the managed side.
pub fn managed_type(ty: &MirType) -> (r: String)
    ensures
        r@ == managed_type_spec(ty.model()),
    decreases ty,
{
    match ty {
        MirType::Primitive(k) => managed_primitive(*k).to_string(),
        MirType::Str => "String".to_string(),
        MirType::Bytes => "Uint8List".to_string(),
        MirType::Optional(t) => {
            let mut s = managed_type(t);
            s.append("?");
            s
        },
        MirType::List(t) => {
            let mut s = "List<".to_string();
            s.append(managed_type(t).as_str());
            s.append(">");
            s
        },
        MirType::Dict(k, v) => {
            let mut s = "Map<".to_string();
            s.append(managed_type(k).as_str());
            s.append(", ");
            s.append(managed_type(v).as_str());
            s.append(">");
            s
        },
        MirType::Record { name, .. } => name.clone(),
        MirType::Enum { name, .. } => name.clone(),
        MirType::OpaqueHandle { name } => name.clone(),
    }
}

/// The lines that declare fields known by name.
pub fn field_lines(fields: &Vec<MirField>) -> (r: String)
    ensures
        r@ == field_lines_spec(fields_model(fields@), fields@.len()),
{
    let mut out = String::new();
    let mut i: usize = 0;
    while i < fields.len()
        invariant
            i <= fields.len(),
            out@ == field_lines_spec(fields_model(fields@), i as nat),
        decreases fields.len() - i,
    {
        out.append("  final ");
        out.append(managed_type(&fields[i].ty).as_str());
        out.append(" ");
        out.append(fields[i].name.as_str());
        out.append(";\n");
        assert(out@ =~= field_lines_spec(fields_model(fields@), i as nat) + field_line_spec(
            fields_model(fields@)[i as int],
        ));
        i += 1;
    }
    out
}

/// The lines that declare fields known by place.
pub fn positional_lines(types: &Vec<MirType>) -> (r: String)
    ensures
        r@ == positional_lines_spec(types_model(types@), types@.len()),
{
    let mut out = String::new();
    let mut i: usize = 0;
    while i < types.len()
        invariant
            i <= types.len(),
            out@ == positional_lines_spec(types_model(types@), i as nat),
        decreases types.len() - i,
    {
        out.append("  final ");
        out.append(managed_type(&types[i]).as_str());
        out.append(" field");
        out.append(decimal(i as u64).as_str());
        out.append(";\n");
        assert(out@ =~= positional_lines_spec(types_model(types@), i as nat)
            + positional_line_spec(types_model(types@)[i as int], i as nat));
        i += 1;
    }
    out
}

/// The lines that declare what a variant carries.
pub fn payload_lines(payload: &MirPayload) -> (r: String)
    ensures
        r@ == payload_lines_spec(payload_model(*payload)),
{
    match payload {
        MirPayload::Unit => String::new(),
        MirPayload::Tuple { types } => positional_lines(types),
        MirPayload::Struct { fields } => field_lines(fields),
    }
}

/// The line through which the managed side releases a value.
pub fn disposer_line(disposer: &Option<String>) -> (r: String)
    ensures
        r@ == disposer_line_spec(
            match disposer {
                Some(d) => Some(d@),
                None => None,
            },
        ),
{
    match disposer {
        Some(d) => {
            let mut s = "  void dispose() => ".to_string();
            s.append(d.as_str());
            s.append("(this);\n");
            s
        },
        None => String::new(),
    }
}

/// The classes of the variants of the sealed class `owner`.
pub fn variants_text(owner: &str, variants: &Vec<MirVariant>) -> (r: String)
    ensures
        r@ == variants_text_spec(owner@, variants_model(variants@), variants@.len()),
{
    let mut out = String::new();
    let mut i: usize = 0;
    while i < variants.len()
        invariant
            i <= variants.len(),
            out@ == variants_text_spec(owner@, variants_model(variants@), i as nat),
        decreases variants.len() - i,
    {
        out.append("class ");
        out.append(owner);
        out.append("_");
        out.append(variants[i].name.as_str());
        out.append(" extends ");
        out.append(owner);
        out.append(" {\n");
        out.append(payload_lines(&variants[i].payload).as_str());
        out.append("}\n");
        assert(out@ =~= variants_text_spec(owner@, variants_model(variants@), i as nat)
            + variant_text_spec(owner@, variants_model(variants@)[i as int]));
        i += 1;
    }
    out
}

/// The declaration of a data type.
pub fn data_text(own_name: &str, ty: &MirType, disposer: &Option<String>) -> (r: String)
    ensures
        r@ == data_text_spec(
            own_name@,
            ty.model(),
            match disposer {
                Some(d) => Some(d@),
                None => None,
            },
        ),
{
    match ty {
        MirType::Record { name, fields } => {
            let mut s = "class ".to_string();
            s.append(name.as_str());
            s.append(" {\n");
            s.append(field_lines(fields).as_str());
            s.append(disposer_line(disposer).as_str());
            s.append("}\n");
            s
        },
        MirType::Enum { name, variants } => {
            let mut s = "sealed class ".to_string();
            s.append(name.as_str());
            s.append(" {\n");
            s.append(disposer_line(disposer).as_str());
            s.append("}\n");
            s.append(variants_text(name.as_str(), variants).as_str());
            s
        },
        MirType::OpaqueHandle { name } => {
            let mut s = "class ".to_string();
            s.append(name.as_str());
            s.append(" {\n");
            s.append(disposer_line(disposer).as_str());
            s.append("}\n");
            s
        },
        _ => {
            let mut s = "typedef ".to_string();
            s.append(own_name);
            s.append(" = ");
            s.append(managed_type(ty).as_str());
            s.append(";\n");
            s
        },
    }
}

/// The wrapper of a function.
pub fn wrapper_text(name: &str, id: &str, f: &MirFunction) -> (r: String)
    ensures
        r@ == wrapper_text_spec(name@, id@, f.model()),
{
    let mut declared: Vec<String> = Vec::new();
    let mut passed: Vec<String> = Vec::new();
    let mut i: usize = 0;
    while i < f.params.len()
        invariant
            i <= f.params.len(),
            declared.len() == i,
            passed.len() == i,
            forall|k: int|
                0 <= k < i ==> (#[trigger] declared@[k])@ == wrapper_param_spec(
                    f.params@[k].model(),
                ),
            forall|k: int| 0 <= k < i ==> (#[trigger] passed@[k])@ == f.params@[k].name@,
        decreases f.params.len() - i,
    {
        let mut s = managed_type(&f.params[i].slot.ty);
        s.append(" ");
        s.append(f.params[i].name.as_str());
        declared.push(s);
        passed.push(f.params[i].name.clone());
        i += 1;
    }
    let ghost m = f.model();
    assert(views(declared@) =~= Seq::new(m.params.len(), |i: int| wrapper_param_spec(m.params[i])));
    assert(views(passed@) =~= Seq::new(m.params.len(), |i: int| m.params[i].name));
    let asynchronous = match f.mode {
        ExecutionMode::Asynchronous => true,
        ExecutionMode::Blocking => false,
    };
    let mut s = if asynchronous {
        let mut t = "Future<".to_string();
        t.append(managed_type(&f.ret.ty).as_str());
        t.append(">");
        t
    } else {
        managed_type(&f.ret.ty)
    };
    assert(s@ == wrapper_return_spec(m));
    s.append(" ");
    s.append(name);
    s.append("(");
    s.append(join_strings(&declared, ", ").as_str());
    s.append(") => ");
    s.append(call_symbol(id).as_str());
    s.append("(");
    s.append(join_strings(&passed, ", ").as_str());
    s.append(");\n");
    s
}

/// The declaration of one item.
pub fn declaration(item: &MirItem) -> (r: ManagedDecl)
    ensures
        r@ == declaration_spec(item.model()),
{
    let name = last_segment(&item.path);
    match &item.kind {
        MirItemKind::Function { function } => ManagedDecl {
            item: item.id.clone(),
            disposer: None,
            text: wrapper_text(name.as_str(), item.id.as_str(), function),
        },
        MirItemKind::Data { slot } => {
            let disposer = if tag_needs_disposer(slot.tag) {
                Some(release_symbol(item.id.as_str()))
            } else {
                None
            };
            let text = data_text(name.as_str(), &slot.ty, &disposer);
            ManagedDecl { item: item.id.clone(), disposer, text }
        },
    }
}

/// The declarations of the managed bindings, one for each item of a document.
pub fn declarations(items: &Vec<MirItem>) -> (r: Vec<ManagedDecl>)
    ensures
        declarations_model(r@) == declarations_spec(items_model(items@)),
{
    let mut out: Vec<ManagedDecl> = Vec::new();
    let mut i: usize = 0;
    while i < items.len()
        invariant
            i <= items.len(),
            out.len() == i,
            forall|k: int|
                0 <= k < i ==> (#[trigger] out@[k])@ == declaration_spec(items@[k].model()),
        decreases items.len() - i,
    {
        out.push(declaration(&items[i]));
        i += 1;
    }
    assert(declarations_model(out@) =~= declarations_spec(items_model(items@)));
    out
}

/// The text of the managed bindings: the declarations, one after another.
pub fn managed_text(decls: &Vec<ManagedDecl>) -> (r: String)
    ensures
        r@ == managed_text_spec(declarations_model(decls@), decls@.len()),
{
    let mut out = String::new();
    let mut i: usize = 0;
    while i < decls.len()
        invariant
            i <= decls.len(),
            out@ == managed_text_spec(declarations_model(decls@), i as nat),
        decreases decls.len() - i,
    {
        out.append(decls[i].text.as_str());
        i += 1;
    }
    out
}

} // verus!
