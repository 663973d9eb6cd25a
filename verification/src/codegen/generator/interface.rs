use crate::codegen::generator::abi::AbiParamModel;
use crate::codegen::generator::glue::{entries_model, EntryModel, NativeEntry};
use crate::codegen::generator::names::{c_type, c_type_spec};
use crate::text::{join_spec, join_strings, views};
use vstd::prelude::*;
use vstd::string::*;

verus! {

/// A parameter as the interface description declares it.
pub open spec fn c_param_spec(p: AbiParamModel) -> Seq<char> {
    c_type_spec(p.ty) + " "@ + p.name
}

/// The declaration of one entry point: the type of its result, its name, and
/// its parameters with their types.
pub open spec fn declaration_spec(e: EntryModel) -> Seq<char> {
    c_type_spec(e.ret) + " "@ + e.symbol + "("@ + join_spec(
        Seq::new(e.params.len(), |i: int| c_param_spec(e.params[i])),
        ", "@,
    ) + ");\n"@
}

/// The declarations of the first `n` entry points, in their order.
pub open spec fn interface_text_spec(entries: Seq<EntryModel>, n: nat) -> Seq<char>
    decreases n,
{
    if n == 0 || n > entries.len() {
        Seq::empty()
    } else {
        interface_text_spec(entries, (n - 1) as nat) + declaration_spec(entries[n - 1])
    }
}

/// The names of the first `n` entry points, in their order.
pub open spec fn symbols_spec(entries: Seq<EntryModel>) -> Seq<Seq<char>> {
    Seq::new(entries.len(), |i: int| entries[i].symbol)
}

/// The declaration of one entry point.
pub fn declaration(e: &NativeEntry) -> (r: String)
    ensures
        r@ == declaration_spec(e@),
{
    let mut parts: Vec<String> = Vec::new();
    let mut i: usize = 0;
    while i < e.params.len()
        invariant
            i <= e.params.len(),
            parts.len() == i,
            forall|k: int| 0 <= k < i ==> (#[trigger] parts@[k])@ == c_param_spec(e.params@[k]@),
        decreases e.params.len() - i,
    {
        let mut s = c_type(e.params[i].ty).to_string();
        s.append(" ");
        s.append(e.params[i].name.as_str());
        parts.push(s);
        i += 1;
    }
    assert(views(parts@) =~= Seq::new(e@.params.len(), |i: int| c_param_spec(e@.params[i])));
    let mut s = c_type(e.ret).to_string();
    s.append(" ");
    s.append(e.symbol.as_str());
    s.append("(");
    s.append(join_strings(&parts, ", ").as_str());
    s.append(");\n");
    s
}

/// The interface description: the declaration of every entry point, in the
/// order of the entry points. It says all that a generator of bindings needs to
/// know of the native side.
pub fn interface_text(entries: &Vec<NativeEntry>) -> (r: String)
    ensures
        r@ == interface_text_spec(entries_model(entries@), entries@.len()),
{
    let mut out = String::new();
    let mut i: usize = 0;
    while i < entries.len()
        invariant
            i <= entries.len(),
            out@ == interface_text_spec(entries_model(entries@), i as nat),
        decreases entries.len() - i,
    {
        out.append(declaration(&entries[i]).as_str());
        i += 1;
    }
    out
}

/// The names of the entry points, in their order.
pub fn symbols(entries: &Vec<NativeEntry>) -> (r: Vec<String>)
    ensures
        views(r@) == symbols_spec(entries_model(entries@)),
{
    let mut out: Vec<String> = Vec::new();
    let mut i: usize = 0;
    while i < entries.len()
        invariant
            i <= entries.len(),
            out.len() == i,
            forall|k: int| 0 <= k < i ==> (#[trigger] out@[k])@ == entries@[k].symbol@,
        decreases entries.len() - i,
    {
        out.push(entries[i].symbol.clone());
        i += 1;
    }
    assert(views(out@) =~= symbols_spec(entries_model(entries@)));
    out
}

} // verus!
