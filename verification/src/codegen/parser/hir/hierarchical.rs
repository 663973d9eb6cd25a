use crate::codegen::ir::hir::hierarchical::{CrateModel, HirCrate, HirPack, ItemModel, PackModel};
use crate::codegen::ir::hir::raw::{HirRawPack, RawCrate};
use crate::codegen::ir::path::{clone_path, path_eq};
use crate::codegen::parser::hir::hierarchical::module::{walk, walk_spec};
use crate::codegen::parser::hir::hierarchical::pub_use::{
    edge_index_from, leads_round, lemma_edge_index_is_first, lemma_ring_is_cyclic, resolve,
    resolve_spec, Resolved,
};
use crate::codegen::parser::hir::internal_config::ParserHirInternalConfig;
use crate::text::views;
use vstd::prelude::*;
use vstd::string::*;

pub mod item_type;
pub mod module;
pub mod pub_use;
pub mod visibility;

verus! {

/// Why the crates of a run could not be resolved. Each error carries the path of
/// the entry at fault.
#[derive(Debug, PartialEq, Eq)]
pub enum ResolutionError {
    /// The re-export at `path` leads back to itself.
    CyclicReexport { path: Vec<String> },
    /// The item at `path` mirrors a type that is not there.
    UnknownMirrorTarget { path: Vec<String> },
    /// The name at `path` is declared a second time.
    DuplicateItem { path: Vec<String> },
}

/// What a `ResolutionError` says, as plain sequences and values, for use in contracts.
pub enum ResolutionErrorModel {
    CyclicReexport { path: Seq<Seq<char>> },
    UnknownMirrorTarget { path: Seq<Seq<char>> },
    DuplicateItem { path: Seq<Seq<char>> },
}

impl View for ResolutionError {
    type V = ResolutionErrorModel;

    open spec fn view(&self) -> ResolutionErrorModel {
        match self {
            ResolutionError::CyclicReexport { path } => ResolutionErrorModel::CyclicReexport {
                path: views(path@),
            },
            ResolutionError::UnknownMirrorTarget {
                path,
            } => ResolutionErrorModel::UnknownMirrorTarget { path: views(path@) },
            ResolutionError::DuplicateItem { path } => ResolutionErrorModel::DuplicateItem {
                path: views(path@),
            },
        }
    }
}

/// What one crate adds to the pack: the crate itself, then its root module, known
/// by the crate's name, with all that is in it.
pub open spec fn crate_spec(config: ParserHirInternalConfig, c: RawCrate) -> PackModel {
    PackModel::of_crate(
        CrateModel { name: c.name@, primary: config.is_primary_spec(c.name@) },
    ).plus(walk_spec(c.root, seq![c.name@], Seq::empty()))
}

/// What the first `n` crates add, in their order.
pub open spec fn crates_spec(
    config: ParserHirInternalConfig,
    crates: Seq<RawCrate>,
    n: nat,
) -> PackModel
    decreases n,
{
    if n == 0 || n > crates.len() {
        PackModel::empty()
    } else {
        crates_spec(config, crates, (n - 1) as nat).plus(crate_spec(config, crates[n - 1]))
    }
}

/// Every path under which the pack declares something: each crate under its
/// name, then each item, then each re-export.
pub open spec fn declared_paths(pack: PackModel) -> Seq<Seq<Seq<char>>> {
    Seq::new(pack.crates.len(), |i: int| seq![pack.crates[i].name]) + Seq::new(
        pack.items.len(),
        |i: int| pack.items[i].path,
    ) + Seq::new(pack.reexports.len(), |i: int| pack.reexports[i].path)
}

/// Whether the path at place `j` stands at an earlier place too.
pub open spec fn seen_before(paths: Seq<Seq<Seq<char>>>, j: int) -> bool {
    exists|i: int| 0 <= i < j && paths[i] == paths[j]
}

/// The first place at or after `j` whose path stands at an earlier place too.
pub open spec fn first_duplicate_from(paths: Seq<Seq<Seq<char>>>, j: int) -> Option<int>
    decreases paths.len() - j,
{
    if j < 0 || j >= paths.len() {
        None
    } else if seen_before(paths, j) {
        Some(j)
    } else {
        first_duplicate_from(paths, j + 1)
    }
}

/// The first re-export at or after place `k` whose lookup goes round in a circle.
pub open spec fn first_cyclic_from(pack: PackModel, k: int) -> Option<int>
    decreases pack.reexports.len() - k,
{
    if k < 0 || k >= pack.reexports.len() {
        None
    } else if resolve_spec(pack, pack.reexports[k].path) == Resolved::Cyclic {
        Some(k)
    } else {
        first_cyclic_from(pack, k + 1)
    }
}

/// Whether the type that `item` mirrors, if it mirrors one, is an item of the
/// pack.
pub open spec fn mirror_known(pack: PackModel, item: ItemModel) -> bool {
    match item.decl.mirror {
        None => true,
        Some(target) => resolve_spec(pack, views(target@)) is Item,
    }
}

/// The first item at or after place `k` that mirrors a type that is not there.
pub open spec fn first_unknown_mirror_from(pack: PackModel, k: int) -> Option<int>
    decreases pack.items.len() - k,
{
    if k < 0 || k >= pack.items.len() {
        None
    } else if !mirror_known(pack, pack.items[k]) {
        Some(k)
    } else {
        first_unknown_mirror_from(pack, k + 1)
    }
}

/// The resolved crates of a run, or the first fault in them: a name declared
/// twice, else a re-export that leads back to itself, else a mirror of a type
/// that is not there.
pub open spec fn parse_spec(config: ParserHirInternalConfig, raw: HirRawPack) -> Result<
    PackModel,
    ResolutionErrorModel,
> {
    let pack = crates_spec(config, raw.crates@, raw.crates@.len());
    let paths = declared_paths(pack);
    match first_duplicate_from(paths, 0) {
        Some(j) => Err(ResolutionErrorModel::DuplicateItem { path: paths[j] }),
        None => match first_cyclic_from(pack, 0) {
            Some(k) => Err(ResolutionErrorModel::CyclicReexport { path: pack.reexports[k].path }),
            None => match first_unknown_mirror_from(pack, 0) {
                Some(k) => Err(
                    ResolutionErrorModel::UnknownMirrorTarget { path: pack.items[k].path },
                ),
                None => Ok(pack),
            },
        },
    }
}

/// The paths of a vector of paths, as plain sequences.
pub open spec fn paths_view(names: Seq<Vec<String>>) -> Seq<Seq<Seq<char>>> {
    Seq::new(names.len(), |i: int| views(names[i]@))
}

proof fn lemma_first_cyclic_exists(pack: PackModel, from: int, k: int)
    requires
        0 <= from <= k < pack.reexports.len(),
        resolve_spec(pack, pack.reexports[k].path) == Resolved::Cyclic,
    ensures
        first_cyclic_from(pack, from) is Some,
    decreases k - from,
{
    if from < k && resolve_spec(pack, pack.reexports[from].path) != Resolved::Cyclic {
        lemma_first_cyclic_exists(pack, from + 1, k);
    }
}

/// Crates in which re-exports lead back to where they began are not resolved:
/// where no name is declared twice, the run ends with the error that names a
/// cyclic re-export.
pub proof fn lemma_ring_is_rejected(
    config: ParserHirInternalConfig,
    raw: HirRawPack,
    ring: Seq<Seq<Seq<char>>>,
)
    requires
        leads_round(crates_spec(config, raw.crates@, raw.crates@.len()), ring),
        first_duplicate_from(
            declared_paths(crates_spec(config, raw.crates@, raw.crates@.len())),
            0,
        ) is None,
    ensures
        parse_spec(config, raw) matches Err(e) && e is CyclicReexport,
{
    let pack = crates_spec(config, raw.crates@, raw.crates@.len());
    lemma_ring_is_cyclic(pack, ring, 0);
    lemma_edge_index_is_first(pack.reexports, ring[0], 0);
    let e = edge_index_from(pack.reexports, ring[0], 0)->Some_0;
    lemma_first_cyclic_exists(pack, 0, e);
}

/// Resolves one crate: the modules, items and re-exports that it declares.
pub fn parse_crate<'a>(config: &ParserHirInternalConfig, c: &'a RawCrate) -> (r: HirPack<'a>)
    ensures
        r@ == crate_spec(*config, *c),
{
    let mut pack = HirPack::new();
    pack.push_crate(HirCrate { name: c.name.clone(), primary: config.is_primary(c.name.as_str()) });
    let root_path = vec![c.name.clone()];
    assert(views(root_path@) =~= seq![c.name@]);
    let outer = Vec::new();
    let sub = walk(&c.root, &root_path, &outer);
    proof {
        PackModel::lemma_plus(pack@, PackModel::empty(), PackModel::empty());
    }
    pack.absorb(sub);
    pack
}

/// Every path under which the pack declares something.
pub fn collect_declared_paths(pack: &HirPack) -> (r: Vec<Vec<String>>)
    ensures
        paths_view(r@) == declared_paths(pack@),
{
    let mut names: Vec<Vec<String>> = Vec::new();
    let mut i: usize = 0;
    while i < pack.crates.len()
        invariant
            i <= pack.crates.len(),
            names.len() == i,
            forall|k: int|
                0 <= k < i ==> views(#[trigger] names@[k]@) == seq![pack@.crates[k].name],
        decreases pack.crates.len() - i,
    {
        let single = vec![pack.crates[i].name.clone()];
        assert(views(single@) =~= seq![pack@.crates[i as int].name]);
        names.push(single);
        i += 1;
    }
    let mut j: usize = 0;
    while j < pack.items.len()
        invariant
            j <= pack.items.len(),
            names.len() == pack.crates.len() + j,
            forall|k: int|
                0 <= k < pack.crates.len() ==> views(#[trigger] names@[k]@) == seq![
                    pack@.crates[k].name,
                ],
            forall|k: int|
                0 <= k < j ==> views(#[trigger] names@[pack.crates.len() + k]@)
                    == pack@.items[k].path,
        decreases pack.items.len() - j,
    {
        names.push(clone_path(&pack.items[j].path));
        j += 1;
    }
    let mut e: usize = 0;
    while e < pack.reexports.len()
        invariant
            e <= pack.reexports.len(),
            names.len() == pack.crates.len() + pack.items.len() + e,
            forall|k: int|
                0 <= k < pack.crates.len() ==> views(#[trigger] names@[k]@) == seq![
                    pack@.crates[k].name,
                ],
            forall|k: int|
                0 <= k < pack.items.len() ==> views(#[trigger] names@[pack.crates.len() + k]@)
                    == pack@.items[k].path,
            forall|k: int|
                0 <= k < e ==> views(
                    #[trigger] names@[pack.crates.len() + pack.items.len() + k]@,
                ) == pack@.reexports[k].path,
        decreases pack.reexports.len() - e,
    {
        names.push(clone_path(&pack.reexports[e].path));
        e += 1;
    }
    proof {
        let a = paths_view(names@);
        let b = declared_paths(pack@);
        assert(a.len() == b.len());
        assert forall|k: int| 0 <= k < a.len() implies a[k] == b[k] by {
            if k < pack.crates.len() {
            } else if k < pack.crates.len() + pack.items.len() {
                let d = k - pack.crates.len();
                assert(views(names@[pack.crates.len() + d]@) == pack@.items[d].path);
            } else {
                let d = k - pack.crates.len() - pack.items.len();
                assert(views(names@[pack.crates.len() + pack.items.len() + d]@)
                    == pack@.reexports[d].path);
            }
        }
        assert(a =~= b);
    }
    names
}

/// Whether the path at place `j` stands at an earlier place too.
pub fn is_seen_before(names: &Vec<Vec<String>>, j: usize) -> (r: bool)
    requires
        j < names.len(),
    ensures
        r == seen_before(paths_view(names@), j as int),
{
    let mut i: usize = 0;
    while i < j
        invariant
            i <= j < names.len(),
            forall|k: int| 0 <= k < i ==> paths_view(names@)[k] != paths_view(names@)[j as int],
        decreases j - i,
    {
        if path_eq(&names[i], &names[j]) {
            assert(paths_view(names@)[i as int] == paths_view(names@)[j as int]);
            return true;
        }
        i += 1;
    }
    false
}

/// The first place whose path stands at an earlier place too.
pub fn first_duplicate(names: &Vec<Vec<String>>) -> (r: Option<usize>)
    ensures
        match r {
            Some(j) => j < names.len() && first_duplicate_from(paths_view(names@), 0) == Some(
                j as int,
            ),
            None => first_duplicate_from(paths_view(names@), 0) is None,
        },
{
    let mut j: usize = 0;
    while j < names.len()
        invariant
            j <= names.len(),
            first_duplicate_from(paths_view(names@), 0) == first_duplicate_from(
                paths_view(names@),
                j as int,
            ),
        decreases names.len() - j,
    {
        if is_seen_before(names, j) {
            return Some(j);
        }
        j += 1;
    }
    None
}

/// Builds the resolved crates of a run from their syntax trees. Every crate is
/// walked on its own; what the crates declare is then checked as a whole, so
/// that a name in one crate can lead to an item of another.
#[verifier::loop_isolation(false)]
pub fn parse<'a>(config: &ParserHirInternalConfig, hir_raw: &'a HirRawPack) -> (r: Result<
    HirPack<'a>,
    ResolutionError,
>)
    ensures
        match r {
            Ok(pack) => parse_spec(*config, *hir_raw) == Ok::<PackModel, ResolutionErrorModel>(
                pack@,
            ),
            Err(e) => parse_spec(*config, *hir_raw) == Err::<PackModel, ResolutionErrorModel>(e@),
        },
{
    let mut pack = HirPack::new();
    let mut i: usize = 0;
    while i < hir_raw.crates.len()
        invariant
            i <= hir_raw.crates.len(),
            pack@ == crates_spec(*config, hir_raw.crates@, i as nat),
        decreases hir_raw.crates.len() - i,
    {
        let sub = parse_crate(config, &hir_raw.crates[i]);
        pack.absorb(sub);
        i += 1;
    }
    let names = collect_declared_paths(&pack);
    match first_duplicate(&names) {
        Some(j) => {
            return Err(ResolutionError::DuplicateItem { path: clone_path(&names[j]) });
        },
        None => {},
    }
    let mut k: usize = 0;
    while k < pack.reexports.len()
        invariant
            k <= pack.reexports.len(),
            pack@.reexports.len() == pack.reexports.len(),
            first_cyclic_from(pack@, 0) == first_cyclic_from(pack@, k as int),
        decreases pack.reexports.len() - k,
    {
        match resolve(&pack, &pack.reexports[k].path) {
            Resolved::Cyclic => {
                return Err(
                    ResolutionError::CyclicReexport { path: clone_path(&pack.reexports[k].path) },
                );
            },
            _ => {},
        }
        k += 1;
    }
    let mut m: usize = 0;
    while m < pack.items.len()
        invariant
            m <= pack.items.len(),
            pack@.items.len() == pack.items.len(),
            first_cyclic_from(pack@, 0) is None,
            first_unknown_mirror_from(pack@, 0) == first_unknown_mirror_from(pack@, m as int),
        decreases pack.items.len() - m,
    {
        let known = match &pack.items[m].decl.mirror {
            None => true,
            Some(target) => match resolve(&pack, target) {
                Resolved::Item(_) => true,
                _ => false,
            },
        };
        assert(known == mirror_known(pack@, pack@.items[m as int]));
        if !known {
            return Err(
                ResolutionError::UnknownMirrorTarget { path: clone_path(&pack.items[m].path) },
            );
        }
        m += 1;
    }
    Ok(pack)
}

} // verus!
