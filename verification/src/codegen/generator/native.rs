use crate::codegen::generator::abi::{
    abi_params, abi_params_model, abi_params_spec, AbiParam, AbiParamModel,
};
use crate::codegen::generator::glue::{
    call_entry, call_entry_spec, needs_disposer, release_entry, release_entry_spec,
    tag_needs_disposer, EntryModel, NativeEntry,
};
use crate::codegen::generator::names::{native_type, native_type_spec, tag_word, tag_word_spec};
use crate::codegen::ir::mir::{
    items_model, FunctionModel, ItemKindModel, MirFunction, MirItem, MirItemKind, MirItemModel,
    MirParam, ParamModel,
};
use crate::text::{join_spec, join_strings, views};
use vstd::prelude::*;
use vstd::string::*;

verus! {

/// A parameter as it stands in the header of an entry point.
pub open spec fn signature_param_spec(p: AbiParamModel) -> Seq<char> {
    p.name + ": "@ + native_type_spec(p.ty)
}

/// The parameters of an entry point, with commas between them.
pub open spec fn signature_params_spec(params: Seq<AbiParamModel>) -> Seq<char> {
    join_spec(Seq::new(params.len(), |i: int| signature_param_spec(params[i])), ", "@)
}

/// The names of the parameters of the calling convention.
pub open spec fn abi_names_spec(params: Seq<AbiParamModel>) -> Seq<Seq<char>> {
    Seq::new(params.len(), |i: int| params[i].name)
}

/// The expression that makes the native value of a parameter out of what the
/// calling convention passed for it.
pub open spec fn argument_spec(p: ParamModel) -> Seq<char> {
    "wire::decode_"@ + tag_word_spec(p.slot.tag) + "("@ + join_spec(
        abi_names_spec(abi_params_spec(p.name, p.slot)),
        ", "@,
    ) + ")"@
}

/// The arguments of the call of the native function, with commas between them.
pub open spec fn arguments_spec(params: Seq<ParamModel>) -> Seq<char> {
    join_spec(Seq::new(params.len(), |i: int| argument_spec(params[i])), ", "@)
}

/// The header of an entry point, up to the opening of its body.
pub open spec fn header_spec(e: EntryModel) -> Seq<char> {
    "#[no_mangle]\npub extern \"C\" fn "@ + e.symbol + "("@ + signature_params_spec(e.params)
        + ") -> "@ + native_type_spec(e.ret) + " {\n"@
}

/// The body of the entry point that calls the native function at `path`: the
/// arguments are made out of what was passed, the function is called, and its
/// result is handed back in the way its position asks for.
pub open spec fn call_body_spec(path: Seq<Seq<char>>, f: FunctionModel) -> Seq<char> {
    "    wire::encode_"@ + tag_word_spec(f.ret.tag) + "("@ + join_spec(path, "::"@) + "("@
        + arguments_spec(f.params) + "))\n}\n"@
}

/// The body of an entry point that releases a value.
pub open spec fn release_body_spec() -> Seq<char> {
    "    wire::release(ptr)\n}\n"@
}

/// The native glue of one item: its entry point, written out; nothing for a
/// data type that needs none.
pub open spec fn item_glue_spec(item: MirItemModel) -> Seq<char> {
    match item.kind {
        ItemKindModel::Function { function } => header_spec(call_entry_spec(item.id, function))
            + call_body_spec(item.path, function),
        ItemKindModel::Data { slot } => if needs_disposer(slot.tag) {
            header_spec(release_entry_spec(item.id)) + release_body_spec()
        } else {
            Seq::empty()
        },
    }
}

/// The native glue of the first `n` items, in their order.
pub open spec fn glue_text_spec(items: Seq<MirItemModel>, n: nat) -> Seq<char>
    decreases n,
{
    if n == 0 || n > items.len() {
        Seq::empty()
    } else {
        glue_text_spec(items, (n - 1) as nat) + item_glue_spec(items[n - 1])
    }
}

/// The parameters of an entry point, with commas between them.
pub fn signature_params(params: &Vec<AbiParam>) -> (r: String)
    ensures
        r@ == signature_params_spec(abi_params_model(params@)),
{
    let mut parts: Vec<String> = Vec::new();
    let mut i: usize = 0;
    while i < params.len()
        invariant
            i <= params.len(),
            parts.len() == i,
            forall|k: int|
                0 <= k < i ==> (#[trigger] parts@[k])@ == signature_param_spec(params@[k]@),
        decreases params.len() - i,
    {
        let mut s = params[i].name.clone();
        s.append(": ");
        s.append(native_type(params[i].ty));
        parts.push(s);
        i += 1;
    }
    assert(views(parts@) =~= Seq::new(
        abi_params_model(params@).len(),
        |i: int| signature_param_spec(abi_params_model(params@)[i]),
    ));
    join_strings(&parts, ", ")
}

/// The names of the parameters of the calling convention.
pub fn abi_names(params: &Vec<AbiParam>) -> (r: Vec<String>)
    ensures
        views(r@) == abi_names_spec(abi_params_model(params@)),
{
    let mut names: Vec<String> = Vec::new();
    let mut i: usize = 0;
    while i < params.len()
        invariant
            i <= params.len(),
            names.len() == i,
            forall|k: int| 0 <= k < i ==> (#[trigger] names@[k])@ == params@[k].name@,
        decreases params.len() - i,
    {
        names.push(params[i].name.clone());
        i += 1;
    }
    assert(views(names@) =~= abi_names_spec(abi_params_model(params@)));
    names
}

/// The expression that makes the native value of a parameter.
pub fn argument(p: &MirParam) -> (r: String)
    ensures
        r@ == argument_spec(p.model()),
{
    let passed = abi_params(p.name.as_str(), &p.slot);
    let names = abi_names(&passed);
    let mut s = "wire::decode_".to_string();
    s.append(tag_word(p.slot.tag));
    s.append("(");
    s.append(join_strings(&names, ", ").as_str());
    s.append(")");
    s
}

/// The arguments of the call of the native function.
pub fn arguments(params: &Vec<MirParam>) -> (r: String)
    ensures
        r@ == arguments_spec(Seq::new(params@.len(), |i: int| params@[i].model())),
{
    let mut parts: Vec<String> = Vec::new();
    let mut i: usize = 0;
    while i < params.len()
        invariant
            i <= params.len(),
            parts.len() == i,
            forall|k: int|
                0 <= k < i ==> (#[trigger] parts@[k])@ == argument_spec(params@[k].model()),
        decreases params.len() - i,
    {
        parts.push(argument(&params[i]));
        i += 1;
    }
    let ghost models = Seq::new(params@.len(), |i: int| params@[i].model());
    assert(views(parts@) =~= Seq::new(models.len(), |i: int| argument_spec(models[i])));
    join_strings(&parts, ", ")
}

/// The header of an entry point.
pub fn header(e: &NativeEntry) -> (r: String)
    ensures
        r@ == header_spec(e@),
{
    let mut s = "#[no_mangle]\npub extern \"C\" fn ".to_string();
    s.append(e.symbol.as_str());
    s.append("(");
    s.append(signature_params(&e.params).as_str());
    s.append(") -> ");
    s.append(native_type(e.ret));
    s.append(" {\n");
    s
}

/// The body of the entry point that calls the native function at `path`.
pub fn call_body(path: &Vec<String>, f: &MirFunction) -> (r: String)
    ensures
        r@ == call_body_spec(views(path@), f.model()),
{
    let mut s = "    wire::encode_".to_string();
    s.append(tag_word(f.ret.tag));
    s.append("(");
    s.append(join_strings(path, "::").as_str());
    s.append("(");
    s.append(arguments(&f.params).as_str());
    s.append("))\n}\n");
    s
}

/// The native glue of one item.
pub fn item_glue(item: &MirItem) -> (r: String)
    ensures
        r@ == item_glue_spec(item.model()),
{
    match &item.kind {
        MirItemKind::Function { function } => {
            let entry = call_entry(item.id.as_str(), function);
            let mut s = header(&entry);
            s.append(call_body(&item.path, function).as_str());
            s
        },
        MirItemKind::Data { slot } => {
            if tag_needs_disposer(slot.tag) {
                let entry = release_entry(item.id.as_str());
                let mut s = header(&entry);
                s.append("    wire::release(ptr)\n}\n");
                s
            } else {
                String::new()
            }
        },
    }
}

/// The native glue of a document: the entry points of its items, written out in
/// the order of the items.
pub fn glue_text(items: &Vec<MirItem>) -> (r: String)
    ensures
        r@ == glue_text_spec(items_model(items@), items@.len()),
{
    let mut out = String::new();
    let mut i: usize = 0;
    while i < items.len()
        invariant
            i <= items.len(),
            out@ == glue_text_spec(items_model(items@), i as nat),
        decreases items.len() - i,
    {
        out.append(item_glue(&items[i]).as_str());
        i += 1;
    }
    out
}

} // verus!
