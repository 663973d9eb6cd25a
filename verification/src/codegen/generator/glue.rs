use crate::codegen::generator::abi::{
    abi_params, abi_params_model, abi_params_spec, abi_return, abi_return_spec, one_param,
    AbiParam, AbiParamModel, AbiType,
};
use crate::codegen::ir::mir::{
    items_model, FunctionModel, ItemKindModel, MirFunction, MirItem, MirItemKind, MirItemModel,
    OwnershipTag, ParamModel,
};
use vstd::prelude::*;
use vstd::string::*;

verus! {

/// An entry point of the native glue: a flat function of the calling convention.
/// `item` is the identifier of the item that it serves; `release` says whether it
/// calls the item or releases a value of it.
#[derive(Debug, PartialEq, Eq)]
pub struct NativeEntry {
    pub symbol: String,
    pub item: String,
    pub release: bool,
    pub params: Vec<AbiParam>,
    pub ret: AbiType,
}

/// What a `NativeEntry` says, as plain sequences and values, for use in contracts.
pub struct EntryModel {
    pub symbol: Seq<char>,
    pub item: Seq<char>,
    pub release: bool,
    pub params: Seq<AbiParamModel>,
    pub ret: AbiType,
}

impl View for NativeEntry {
    type V = EntryModel;

    open spec fn view(&self) -> EntryModel {
        EntryModel {
            symbol: self.symbol@,
            item: self.item@,
            release: self.release,
            params: abi_params_model(self.params@),
            ret: self.ret,
        }
    }
}

/// The entries of a vector, as plain values.
pub open spec fn entries_model(entries: Seq<NativeEntry>) -> Seq<EntryModel> {
    Seq::new(entries.len(), |i: int| entries[i]@)
}

/// The name of the entry point that calls the function with the identifier `id`.
pub open spec fn call_symbol_spec(id: Seq<char>) -> Seq<char> {
    "frb_"@ + id
}

/// The name of the entry point that releases a value of the data type with the
/// identifier `id`.
pub open spec fn release_symbol_spec(id: Seq<char>) -> Seq<char> {
    "release_"@ + id
}

/// Whether values that cross in the way `tag` have to be released by the side
/// that received them.
pub open spec fn needs_disposer(tag: OwnershipTag) -> bool {
    tag == OwnershipTag::Owned || tag == OwnershipTag::Handle
}

/// The parameters of the calling convention for the first `n` parameters of a
/// function, in their order.
pub open spec fn function_params_spec(params: Seq<ParamModel>, n: nat) -> Seq<AbiParamModel>
    decreases n,
{
    if n == 0 || n > params.len() {
        Seq::empty()
    } else {
        function_params_spec(params, (n - 1) as nat) + abi_params_spec(
            params[n - 1].name,
            params[n - 1].slot,
        )
    }
}

/// The parameter through which a function that can fail hands back its error.
pub open spec fn error_param_spec(f: FunctionModel) -> Seq<AbiParamModel> {
    if f.fallible is Some {
        one_param("error_out"@, AbiType::Pointer)
    } else {
        Seq::empty()
    }
}

/// The entry point that calls a function.
pub open spec fn call_entry_spec(id: Seq<char>, f: FunctionModel) -> EntryModel {
    EntryModel {
        symbol: call_symbol_spec(id),
        item: id,
        release: false,
        params: function_params_spec(f.params, f.params.len()) + error_param_spec(f),
        ret: abi_return_spec(f.ret),
    }
}

/// The entry point that releases a value of a data type.
pub open spec fn release_entry_spec(id: Seq<char>) -> EntryModel {
    EntryModel {
        symbol: release_symbol_spec(id),
        item: id,
        release: true,
        params: one_param("ptr"@, AbiType::Pointer),
        ret: AbiType::Void,
    }
}

/// The entry points that an item needs: one that calls it, for a function; one
/// that releases its values, for a data type whose values are moved or known by
/// a handle; none for any other data type.
pub open spec fn item_entries_spec(item: MirItemModel) -> Seq<EntryModel> {
    match item.kind {
        ItemKindModel::Function { function } => seq![call_entry_spec(item.id, function)],
        ItemKindModel::Data { slot } => if needs_disposer(slot.tag) {
            seq![release_entry_spec(item.id)]
        } else {
            Seq::empty()
        },
    }
}

/// The entry points of the first `n` items, in the order of the items.
pub open spec fn entries_spec(items: Seq<MirItemModel>, n: nat) -> Seq<EntryModel>
    decreases n,
{
    if n == 0 || n > items.len() {
        Seq::empty()
    } else {
        entries_spec(items, (n - 1) as nat) + item_entries_spec(items[n - 1])
    }
}

/// Whether values that cross in the way `tag` have to be released.
pub fn tag_needs_disposer(tag: OwnershipTag) -> (r: bool)
    ensures
        r == needs_disposer(tag),
{
    match tag {
        OwnershipTag::Owned => true,
        OwnershipTag::Handle => true,
        _ => false,
    }
}

/// The name of the entry point that calls the function with the identifier `id`.
pub fn call_symbol(id: &str) -> (r: String)
    ensures
        r@ == call_symbol_spec(id@),
{
    let mut s = "frb_".to_string();
    s.append(id);
    s
}

/// The name of the entry point that releases a value of the data type with the
/// identifier `id`.
pub fn release_symbol(id: &str) -> (r: String)
    ensures
        r@ == release_symbol_spec(id@),
{
    let mut s = "release_".to_string();
    s.append(id);
    s
}

/// The entry point that calls the function `f` with the identifier `id`.
pub fn call_entry(id: &str, f: &MirFunction) -> (r: NativeEntry)
    ensures
        r@ == call_entry_spec(id@, f.model()),
{
    let mut params: Vec<AbiParam> = Vec::new();
    let mut i: usize = 0;
    assert(abi_params_model(params@) =~= Seq::empty());
    while i < f.params.len()
        invariant
            i <= f.params.len(),
            f.model().params.len() == f.params.len(),
            abi_params_model(params@) == function_params_spec(f.model().params, i as nat),
        decreases f.params.len() - i,
    {
        let ghost before = abi_params_model(params@);
        let mut more = abi_params(f.params[i].name.as_str(), &f.params[i].slot);
        let ghost added = abi_params_model(more@);
        assert(f.model().params[i as int] == f.params@[i as int].model());
        params.append(&mut more);
        assert(abi_params_model(params@) =~= before + added);
        i += 1;
    }
    let ghost before = abi_params_model(params@);
    if f.fallible.is_some() {
        params.push(AbiParam { name: "error_out".to_string(), ty: AbiType::Pointer });
        assert(abi_params_model(params@) =~= before + one_param("error_out"@, AbiType::Pointer));
    } else {
        assert(before + Seq::<AbiParamModel>::empty() =~= before);
    }
    NativeEntry {
        symbol: call_symbol(id),
        item: id.to_string(),
        release: false,
        params,
        ret: abi_return(&f.ret),
    }
}

/// The entry point that releases a value of the data type with the identifier
/// `id`.
pub fn release_entry(id: &str) -> (r: NativeEntry)
    ensures
        r@ == release_entry_spec(id@),
{
    let params = vec![AbiParam { name: "ptr".to_string(), ty: AbiType::Pointer }];
    assert(abi_params_model(params@) =~= one_param("ptr"@, AbiType::Pointer));
    NativeEntry {
        symbol: release_symbol(id),
        item: id.to_string(),
        release: true,
        params,
        ret: AbiType::Void,
    }
}

/// The entry points that an item needs.
pub fn item_entries(item: &MirItem) -> (r: Vec<NativeEntry>)
    ensures
        entries_model(r@) == item_entries_spec(item.model()),
{
    match &item.kind {
        MirItemKind::Function { function } => {
            let r = vec![call_entry(item.id.as_str(), function)];
            assert(entries_model(r@) =~= item_entries_spec(item.model()));
            r
        },
        MirItemKind::Data { slot } => {
            if tag_needs_disposer(slot.tag) {
                let r = vec![release_entry(item.id.as_str())];
                assert(entries_model(r@) =~= item_entries_spec(item.model()));
                r
            } else {
                let r: Vec<NativeEntry> = Vec::new();
                assert(entries_model(r@) =~= item_entries_spec(item.model()));
                r
            }
        },
    }
}

/// The entry points of the native glue for the items of a document, in the order
/// of the items.
pub fn entries(items: &Vec<MirItem>) -> (r: Vec<NativeEntry>)
    ensures
        entries_model(r@) == entries_spec(items_model(items@), items@.len()),
{
    let mut out: Vec<NativeEntry> = Vec::new();
    let mut i: usize = 0;
    assert(entries_model(out@) =~= Seq::empty());
    while i < items.len()
        invariant
            i <= items.len(),
            entries_model(out@) == entries_spec(items_model(items@), i as nat),
        decreases items.len() - i,
    {
        let ghost before = entries_model(out@);
        let mut more = item_entries(&items[i]);
        let ghost added = entries_model(more@);
        out.append(&mut more);
        assert(entries_model(out@) =~= before + added);
        i += 1;
    }
    out
}

} // verus!
