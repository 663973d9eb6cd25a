use crate::codegen::ir::hir::hierarchical::{HirPack, ItemClass, ItemModel, PackModel};
use crate::codegen::ir::hir::raw::{RawDeclKind, Visibility};
use crate::codegen::ir::mir::{
    items_model, ItemKindModel, MirDocument, MirItem, MirItemKind, MirItemModel, MirSlot,
    SlotModel,
};
use crate::codegen::ir::path::{clone_path, parent_path, parent_spec};
use crate::codegen::parser::mir::function::{lower_function, lower_function_spec};
use crate::codegen::parser::mir::ident::{stable_id, stable_id_spec};
use crate::codegen::parser::mir::sort::{sort_by_id, sort_by_id_spec};
use crate::codegen::parser::mir::ty::{
    lower_item_type, lower_item_type_spec, FailureKind, FailureModel, TypeFailure,
};
use crate::text::{str_eq, views};
use vstd::prelude::*;
use vstd::string::*;

pub mod function;
pub mod ident;
pub mod sort;
pub mod ty;

verus! {

/// Why the resolved crates could not be lowered: the item at fault, by its full
/// path, and the construct in it that does not cross.
#[derive(Debug, PartialEq, Eq)]
pub enum LoweringError {
    UnsupportedType { item: Vec<String>, construct: String },
    UnresolvedGeneric { item: Vec<String>, construct: String },
    ConflictingOwnership { item: Vec<String>, construct: String },
}

/// What a `LoweringError` says, as plain sequences and values, for use in contracts.
pub struct LoweringErrorModel {
    pub kind: FailureKind,
    pub item: Seq<Seq<char>>,
    pub construct: Seq<char>,
}

impl View for LoweringError {
    type V = LoweringErrorModel;

    open spec fn view(&self) -> LoweringErrorModel {
        match self {
            LoweringError::UnsupportedType { item, construct } => LoweringErrorModel {
                kind: FailureKind::UnsupportedType,
                item: views(item@),
                construct: construct@,
            },
            LoweringError::UnresolvedGeneric { item, construct } => LoweringErrorModel {
                kind: FailureKind::UnresolvedGeneric,
                item: views(item@),
                construct: construct@,
            },
            LoweringError::ConflictingOwnership { item, construct } => LoweringErrorModel {
                kind: FailureKind::ConflictingOwnership,
                item: views(item@),
                construct: construct@,
            },
        }
    }
}

/// The failure `f`, laid at the door of the item at `item`.
pub open spec fn at_item(item: Seq<Seq<char>>, f: FailureModel) -> LoweringErrorModel {
    LoweringErrorModel { kind: f.kind, item, construct: f.construct }
}

/// Whether a crate named `name` is among the crates that are bridged.
pub open spec fn is_primary_crate_spec(pack: PackModel, name: Seq<char>) -> bool {
    exists|c: int|
        0 <= c < pack.crates.len() && (#[trigger] pack.crates[c]).name == name
            && pack.crates[c].primary
}

/// Whether `item` crosses the bridge as an item of its own: it is a function or
/// a data type, it is public as seen from outside, and its crate is bridged.
pub open spec fn is_bridged_spec(pack: PackModel, item: ItemModel) -> bool {
    item.visibility == Visibility::Public && item.class != ItemClass::TypeAlias && item.path.len()
        > 0 && is_primary_crate_spec(pack, item.path[0])
}

/// The bridged form of `item`: a function with its value positions, or a data
/// type with its bridge type, under the identifier of the item's path.
pub open spec fn lower_item_spec(pack: PackModel, item: ItemModel, depth: nat) -> Result<
    MirItemModel,
    LoweringErrorModel,
> {
    let kind = match item.decl.kind {
        RawDeclKind::Function { function } => match lower_function_spec(
            pack,
            parent_spec(item.path),
            function,
            depth,
        ) {
            Ok(f) => Ok(ItemKindModel::Function { function: f }),
            Err(f) => Err(f),
        },
        _ => match lower_item_type_spec(pack, item, depth) {
            Ok(l) => Ok(ItemKindModel::Data { slot: SlotModel { ty: l.ty, tag: l.tag } }),
            Err(f) => Err(f),
        },
    };
    match kind {
        Ok(k) => Ok(MirItemModel { id: stable_id_spec(item.path), path: item.path, kind: k }),
        Err(f) => Err(at_item(item.path, f)),
    }
}

/// The bridged forms of those of the first `n` items that cross, in the order of
/// the pack; or the first failure among them.
pub open spec fn lower_items_spec(pack: PackModel, n: nat, depth: nat) -> Result<
    Seq<MirItemModel>,
    LoweringErrorModel,
>
    decreases n,
{
    if n == 0 || n > pack.items.len() {
        Ok(Seq::empty())
    } else {
        match lower_items_spec(pack, (n - 1) as nat, depth) {
            Err(e) => Err(e),
            Ok(done) => if !is_bridged_spec(pack, pack.items[n - 1]) {
                Ok(done)
            } else {
                match lower_item_spec(pack, pack.items[n - 1], depth) {
                    Err(e) => Err(e),
                    Ok(item) => Ok(done.push(item)),
                }
            },
        }
    }
}

/// The document of a pack: the bridged forms of all items that cross, in the
/// order of their identifiers; or the first failure.
pub open spec fn lower_spec(pack: PackModel) -> Result<Seq<MirItemModel>, LoweringErrorModel> {
    match lower_items_spec(pack, pack.items.len(), pack.items.len()) {
        Ok(items) => Ok(sort_by_id_spec(items, items.len())),
        Err(e) => Err(e),
    }
}

/// The outcome of lowering an item, as plain values.
pub open spec fn item_outcome(r: Result<MirItem, LoweringError>) -> Result<
    MirItemModel,
    LoweringErrorModel,
> {
    match r {
        Ok(item) => Ok(item.model()),
        Err(e) => Err(e@),
    }
}

/// The outcome of lowering a pack, as plain values.
pub open spec fn document_outcome(r: Result<MirDocument, LoweringError>) -> Result<
    Seq<MirItemModel>,
    LoweringErrorModel,
> {
    match r {
        Ok(doc) => Ok(doc.model()),
        Err(e) => Err(e@),
    }
}

proof fn lemma_items_failure_stays(pack: PackModel, n: nat, m: nat, depth: nat)
    requires
        n <= m <= pack.items.len(),
        lower_items_spec(pack, n, depth) is Err,
    ensures
        lower_items_spec(pack, m, depth) == lower_items_spec(pack, n, depth),
    decreases m - n,
{
    if n < m {
        lemma_items_failure_stays(pack, n, (m - 1) as nat, depth);
    }
}

/// Lays a failure at the door of the item at `item`.
pub fn lowering_error(item: &Vec<String>, f: TypeFailure) -> (r: LoweringError)
    ensures
        r@ == at_item(views(item@), f@),
{
    let item = clone_path(item);
    match f.kind {
        FailureKind::UnsupportedType => LoweringError::UnsupportedType {
            item,
            construct: f.construct,
        },
        FailureKind::UnresolvedGeneric => LoweringError::UnresolvedGeneric {
            item,
            construct: f.construct,
        },
        FailureKind::ConflictingOwnership => LoweringError::ConflictingOwnership {
            item,
            construct: f.construct,
        },
    }
}

/// Whether a crate named `name` is among the crates that are bridged.
pub fn is_primary_crate(pack: &HirPack, name: &str) -> (r: bool)
    ensures
        r == is_primary_crate_spec(pack@, name@),
{
    let mut c: usize = 0;
    while c < pack.crates.len()
        invariant
            c <= pack.crates.len(),
            forall|k: int|
                0 <= k < c ==> !((#[trigger] pack@.crates[k]).name == name@
                    && pack@.crates[k].primary),
        decreases pack.crates.len() - c,
    {
        if pack.crates[c].primary && str_eq(pack.crates[c].name.as_str(), name) {
            assert(pack@.crates[c as int].name == name@ && pack@.crates[c as int].primary);
            return true;
        }
        c += 1;
    }
    false
}

/// Whether the item at place `i` crosses the bridge as an item of its own.
pub fn is_bridged(pack: &HirPack, i: usize) -> (r: bool)
    requires
        i < pack.items.len(),
    ensures
        r == is_bridged_spec(pack@, pack@.items[i as int]),
{
    let item = &pack.items[i];
    let public = match item.visibility {
        Visibility::Public => true,
        _ => false,
    };
    let alias = match item.class {
        ItemClass::TypeAlias => true,
        _ => false,
    };
    if !public || alias || item.path.len() == 0 {
        return false;
    }
    is_primary_crate(pack, item.path[0].as_str())
}

/// Lowers the item at place `i` to its bridged form.
pub fn lower_item(pack: &HirPack, i: usize, depth: usize) -> (r: Result<MirItem, LoweringError>)
    requires
        i < pack.items.len(),
    ensures
        item_outcome(r) == lower_item_spec(pack@, pack@.items[i as int], depth as nat),
{
    let item = &pack.items[i];
    let kind = match &item.decl.kind {
        RawDeclKind::Function { function } => {
            let scope = parent_path(&item.path);
            match lower_function(pack, &scope, function, depth) {
                Ok(f) => Ok(MirItemKind::Function { function: f }),
                Err(f) => Err(f),
            }
        },
        _ => match lower_item_type(pack, i, depth) {
            Ok(l) => Ok(MirItemKind::Data { slot: MirSlot { ty: l.0, tag: l.1 } }),
            Err(f) => Err(f),
        },
    };
    match kind {
        Ok(k) => Ok(MirItem { id: stable_id(&item.path), path: clone_path(&item.path), kind: k }),
        Err(f) => Err(lowering_error(&item.path, f)),
    }
}

/// Lowers the resolved crates to the document from which all artifacts are
/// written. Every public function and data type of a bridged crate becomes an
/// item of the document, known by the identifier of its path; the items stand in
/// the order of their identifiers. The first item that holds a type which cannot
/// cross ends the run: no document is made of the rest.
pub fn lower(pack: &HirPack) -> (r: Result<MirDocument, LoweringError>)
    ensures
        document_outcome(r) == lower_spec(pack@),
{
    let depth = pack.items.len();
    let mut items: Vec<MirItem> = Vec::new();
    let mut i: usize = 0;
    assert(items_model(items@) =~= Seq::empty());
    while i < pack.items.len()
        invariant
            i <= pack.items.len(),
            depth == pack.items.len(),
            pack@.items.len() == pack.items.len(),
            lower_items_spec(pack@, i as nat, depth as nat) == Ok::<
                Seq<MirItemModel>,
                LoweringErrorModel,
            >(items_model(items@)),
        decreases pack.items.len() - i,
    {
        if is_bridged(pack, i) {
            match lower_item(pack, i, depth) {
                Err(e) => {
                    proof {
                        lemma_items_failure_stays(
                            pack@,
                            (i + 1) as nat,
                            pack@.items.len(),
                            depth as nat,
                        );
                    }
                    return Err(e);
                },
                Ok(item) => {
                    let ghost before = items_model(items@);
                    let ghost added = item.model();
                    items.push(item);
                    assert(items_model(items@) =~= before.push(added));
                },
            }
        }
        i += 1;
    }
    Ok(MirDocument { items: sort_by_id(items) })
}

} // verus!
