use crate::codegen::ir::hir::hierarchical::{HirPack, ItemModel, PackModel, ReexportModel};
use crate::codegen::ir::path::{clone_path, path_eq};
use crate::text::views;
use vstd::prelude::*;
use vstd::set_lib::{lemma_int_range, lemma_len_subset, set_int_range};
use vstd::string::*;

verus! {

/// Where the lookup of a path ends.
#[derive(Clone, Copy, Debug, PartialEq, Eq, Structural)]
pub enum Resolved {
    /// At the item with the given place in the table of items.
    Item(usize),
    /// Nowhere: the path names neither an item nor a re-export.
    Dangling,
    /// Never: the re-exports lead round in a circle.
    Cyclic,
}

/// The place of the first item at or after `from` that `path` names.
pub open spec fn item_index_from(items: Seq<ItemModel>, path: Seq<Seq<char>>, from: int) -> Option<
    int,
>
    decreases items.len() - from,
{
    if from < 0 || from >= items.len() {
        None
    } else if items[from].path == path {
        Some(from)
    } else {
        item_index_from(items, path, from + 1)
    }
}

/// The place of the first re-export at or after `from` that `path` names.
pub open spec fn edge_index_from(
    edges: Seq<ReexportModel>,
    path: Seq<Seq<char>>,
    from: int,
) -> Option<int>
    decreases edges.len() - from,
{
    if from < 0 || from >= edges.len() {
        None
    } else if edges[from].path == path {
        Some(from)
    } else {
        edge_index_from(edges, path, from + 1)
    }
}

/// The place of the item that `path` names.
pub open spec fn item_index(pack: PackModel, path: Seq<Seq<char>>) -> Option<int> {
    item_index_from(pack.items, path, 0)
}

/// The path that the re-export named by `path` was taken from.
pub open spec fn edge_target(pack: PackModel, path: Seq<Seq<char>>) -> Option<Seq<Seq<char>>> {
    match edge_index_from(pack.reexports, path, 0) {
        Some(e) => Some(pack.reexports[e].target),
        None => None,
    }
}

/// Where the lookup of `path` ends when at most `fuel` re-exports are followed:
/// at the item that the path names; else at the end of the re-export that it
/// names; else nowhere.
pub open spec fn follow(pack: PackModel, path: Seq<Seq<char>>, fuel: nat) -> Resolved
    decreases fuel,
{
    match item_index(pack, path) {
        Some(i) => Resolved::Item(i as usize),
        None => match edge_target(pack, path) {
            None => Resolved::Dangling,
            Some(target) => if fuel == 0 {
                Resolved::Cyclic
            } else {
                follow(pack, target, (fuel - 1) as nat)
            },
        },
    }
}

/// Where the lookup of `path` ends. A lookup that has to follow more re-exports
/// than the pack holds goes round in a circle.
pub open spec fn resolve_spec(pack: PackModel, path: Seq<Seq<char>>) -> Resolved {
    follow(pack, path, pack.reexports.len())
}

proof fn lemma_item_index_found(
    items: Seq<ItemModel>,
    path: Seq<Seq<char>>,
    from: int,
    at: int,
)
    requires
        0 <= from <= at < items.len(),
        items[at].path == path,
        forall|k: int| from <= k < at ==> items[k].path != path,
    ensures
        item_index_from(items, path, from) == Some(at),
    decreases at - from,
{
    if from < at {
        lemma_item_index_found(items, path, from + 1, at);
    }
}

proof fn lemma_item_index_absent(items: Seq<ItemModel>, path: Seq<Seq<char>>, from: int)
    requires
        0 <= from,
        forall|k: int| from <= k < items.len() ==> items[k].path != path,
    ensures
        item_index_from(items, path, from) is None,
    decreases items.len() - from,
{
    if from < items.len() {
        lemma_item_index_absent(items, path, from + 1);
    }
}

proof fn lemma_edge_index_found(
    edges: Seq<ReexportModel>,
    path: Seq<Seq<char>>,
    from: int,
    at: int,
)
    requires
        0 <= from <= at < edges.len(),
        edges[at].path == path,
        forall|k: int| from <= k < at ==> edges[k].path != path,
    ensures
        edge_index_from(edges, path, from) == Some(at),
    decreases at - from,
{
    if from < at {
        lemma_edge_index_found(edges, path, from + 1, at);
    }
}

proof fn lemma_edge_index_absent(edges: Seq<ReexportModel>, path: Seq<Seq<char>>, from: int)
    requires
        0 <= from,
        forall|k: int| from <= k < edges.len() ==> edges[k].path != path,
    ensures
        edge_index_from(edges, path, from) is None,
    decreases edges.len() - from,
{
    if from < edges.len() {
        lemma_edge_index_absent(edges, path, from + 1);
    }
}

/// The place of the item that `path` names.
pub fn find_item(pack: &HirPack, path: &Vec<String>) -> (r: Option<usize>)
    ensures
        match r {
            Some(i) => item_index(pack@, views(path@)) == Some(i as int) && i < pack.items.len(),
            None => item_index(pack@, views(path@)) is None,
        },
{
    let mut i: usize = 0;
    while i < pack.items.len()
        invariant
            i <= pack.items.len(),
            forall|k: int| 0 <= k < i ==> pack@.items[k].path != views(path@),
        decreases pack.items.len() - i,
    {
        if path_eq(&pack.items[i].path, path) {
            proof {
                lemma_item_index_found(pack@.items, views(path@), 0, i as int);
            }
            return Some(i);
        }
        i += 1;
    }
    proof {
        lemma_item_index_absent(pack@.items, views(path@), 0);
    }
    None
}

/// The place of the re-export that `path` names.
pub fn find_edge(pack: &HirPack, path: &Vec<String>) -> (r: Option<usize>)
    ensures
        match r {
            Some(e) => edge_index_from(pack@.reexports, views(path@), 0) == Some(e as int) && e
                < pack.reexports.len(),
            None => edge_index_from(pack@.reexports, views(path@), 0) is None,
        },
{
    let mut i: usize = 0;
    while i < pack.reexports.len()
        invariant
            i <= pack.reexports.len(),
            forall|k: int| 0 <= k < i ==> pack@.reexports[k].path != views(path@),
        decreases pack.reexports.len() - i,
    {
        if path_eq(&pack.reexports[i].path, path) {
            proof {
                lemma_edge_index_found(pack@.reexports, views(path@), 0, i as int);
            }
            return Some(i);
        }
        i += 1;
    }
    proof {
        lemma_edge_index_absent(pack@.reexports, views(path@), 0);
    }
    None
}

/// Looks `path` up: an item is found under its own path or at the end of the
/// re-exports that lead to it. The re-exports are followed one at a time, and
/// no more of them than the pack holds.
pub fn resolve(pack: &HirPack, path: &Vec<String>) -> (r: Resolved)
    ensures
        r == resolve_spec(pack@, views(path@)),
        r matches Resolved::Item(i) ==> i < pack.items.len(),
{
    let mut cur = clone_path(path);
    let mut fuel: usize = pack.reexports.len();
    loop
        invariant
            fuel <= pack.reexports.len(),
            pack@.reexports.len() == pack.reexports.len(),
            resolve_spec(pack@, views(path@)) == follow(pack@, views(cur@), fuel as nat),
        decreases fuel,
    {
        match find_item(pack, &cur) {
            Some(i) => {
                return Resolved::Item(i);
            },
            None => match find_edge(pack, &cur) {
                None => {
                    return Resolved::Dangling;
                },
                Some(e) => {
                    if fuel == 0 {
                        return Resolved::Cyclic;
                    }
                    cur = clone_path(&pack.reexports[e].target);
                    fuel -= 1;
                },
            },
        }
    }
}

/// Whether every path of `chain` but the last names a re-export, and no item,
/// and the re-export leads to the next path of the chain.
pub open spec fn leads_along(pack: PackModel, chain: Seq<Seq<Seq<char>>>) -> bool {
    chain.len() >= 1 && forall|i: int|
        0 <= i < chain.len() - 1 ==> item_index(pack, #[trigger] chain[i]) is None && edge_target(
            pack,
            chain[i],
        ) == Some(chain[i + 1])
}

/// The place in a ring that follows place `i`.
pub open spec fn next_in_ring(i: int, len: int) -> int {
    if i + 1 == len {
        0
    } else {
        i + 1
    }
}

/// Whether every path of `ring` names a re-export, and no item, and the
/// re-export leads to the next path of the ring, the last one to the first.
pub open spec fn leads_round(pack: PackModel, ring: Seq<Seq<Seq<char>>>) -> bool {
    ring.len() >= 1 && forall|i: int|
        0 <= i < ring.len() ==> item_index(pack, #[trigger] ring[i]) is None && edge_target(
            pack,
            ring[i],
        ) == Some(ring[next_in_ring(i, ring.len() as int)])
}

/// Whether no two re-exports stand under the same path.
pub open spec fn edges_distinct(edges: Seq<ReexportModel>) -> bool {
    forall|i: int, j: int| 0 <= i < j < edges.len() ==> edges[i].path != edges[j].path
}

/// The place that a lookup among the items gives is the first that fits.
pub proof fn lemma_item_index_is_first(items: Seq<ItemModel>, path: Seq<Seq<char>>, from: int)
    requires
        0 <= from,
    ensures
        match item_index_from(items, path, from) {
            Some(i) => from <= i < items.len() && items[i].path == path && forall|k: int|
                from <= k < i ==> items[k].path != path,
            None => forall|k: int| from <= k < items.len() ==> items[k].path != path,
        },
    decreases items.len() - from,
{
    if from < items.len() && items[from].path != path {
        lemma_item_index_is_first(items, path, from + 1);
    }
}

/// A lookup that ends at an item ends at an item of the pack, and at one that
/// the looked-up path or the end of its re-exports names.
pub proof fn lemma_resolved_is_in_range(pack: PackModel, path: Seq<Seq<char>>, fuel: nat)
    requires
        pack.items.len() <= usize::MAX,
    ensures
        follow(pack, path, fuel) matches Resolved::Item(i) ==> i < pack.items.len(),
    decreases fuel,
{
    lemma_item_index_is_first(pack.items, path, 0);
    if item_index(pack, path) is None && edge_target(pack, path) is Some && fuel > 0 {
        lemma_resolved_is_in_range(pack, edge_target(pack, path)->Some_0, (fuel - 1) as nat);
    }
}

/// The place that a lookup among the re-exports gives is the first that fits.
pub proof fn lemma_edge_index_is_first(edges: Seq<ReexportModel>, path: Seq<Seq<char>>, from: int)
    requires
        0 <= from,
    ensures
        match edge_index_from(edges, path, from) {
            Some(e) => from <= e < edges.len() && edges[e].path == path && forall|k: int|
                from <= k < e ==> edges[k].path != path,
            None => forall|k: int| from <= k < edges.len() ==> edges[k].path != path,
        },
    decreases edges.len() - from,
{
    if from < edges.len() && edges[from].path != path {
        lemma_edge_index_is_first(edges, path, from + 1);
    }
}

proof fn lemma_follow_along(
    pack: PackModel,
    chain: Seq<Seq<Seq<char>>>,
    i: int,
    fuel: nat,
    k: int,
)
    requires
        leads_along(pack, chain),
        item_index(pack, chain.last()) == Some(k),
        0 <= i < chain.len(),
        fuel >= chain.len() - 1 - i,
    ensures
        follow(pack, chain[i], fuel) == Resolved::Item(k as usize),
    decreases chain.len() - i,
{
    if i < chain.len() - 1 {
        lemma_follow_along(pack, chain, i + 1, (fuel - 1) as nat, k);
    }
}

proof fn lemma_chain_shift(pack: PackModel, chain: Seq<Seq<Seq<char>>>, i: int, j: int, d: int)
    requires
        leads_along(pack, chain),
        0 <= i < j,
        0 <= d,
        j + d <= chain.len() - 1,
        chain[i] == chain[j],
    ensures
        chain[i + d] == chain[j + d],
    decreases d,
{
    if d > 0 {
        lemma_chain_shift(pack, chain, i, j, d - 1);
        assert(edge_target(pack, chain[i + d - 1]) == Some(chain[i + d - 1 + 1]));
        assert(edge_target(pack, chain[j + d - 1]) == Some(chain[j + d - 1 + 1]));
    }
}

proof fn lemma_chain_distinct(pack: PackModel, chain: Seq<Seq<Seq<char>>>, k: int, i: int, j: int)
    requires
        leads_along(pack, chain),
        item_index(pack, chain.last()) == Some(k),
        0 <= i < j < chain.len() - 1,
    ensures
        chain[i] != chain[j],
{
    if chain[i] == chain[j] {
        let n = chain.len() - 1;
        lemma_chain_shift(pack, chain, i, j, n - j);
        assert(item_index(pack, chain[i + (n - j)]) is None);
        assert(chain[j + (n - j)] == chain.last());
    }
}

proof fn lemma_chain_is_short(pack: PackModel, chain: Seq<Seq<Seq<char>>>, k: int)
    requires
        leads_along(pack, chain),
        item_index(pack, chain.last()) == Some(k),
    ensures
        chain.len() - 1 <= pack.reexports.len(),
{
    let n = chain.len() - 1;
    let edges = pack.reexports;
    let places = Seq::new(n as nat, |i: int| edge_index_from(edges, chain[i], 0)->Some_0);
    assert forall|i: int| 0 <= i < n implies 0 <= #[trigger] places[i] < edges.len()
        && edges[places[i]].path == chain[i] by {
        lemma_edge_index_is_first(edges, chain[i], 0);
        assert(edge_target(pack, chain[i]) is Some);
    }
    assert(places.no_duplicates()) by {
        assert forall|i: int, j: int|
            0 <= i < places.len() && 0 <= j < places.len() && i != j implies places[i]
            != places[j] by {
            if i < j {
                lemma_chain_distinct(pack, chain, k, i, j);
            } else {
                lemma_chain_distinct(pack, chain, k, j, i);
            }
        }
    }
    places.unique_seq_to_set();
    lemma_int_range(0, edges.len() as int);
    assert(places.to_set().subset_of(set_int_range(0, edges.len() as int))) by {
        assert forall|x: int| places.to_set().contains(x) implies set_int_range(
            0,
            edges.len() as int,
        ).contains(x) by {
            let i = choose|i: int| 0 <= i < places.len() && places[i] == x;
            assert(0 <= places[i] < edges.len());
        }
    }
    lemma_len_subset(places.to_set(), set_int_range(0, edges.len() as int));
}

/// A chain of re-exports, however long, leads to the item at its end: where each
/// path of `chain` is a re-export of the next and the last names an item, the
/// lookup of the first path ends at that item.
pub proof fn lemma_chain_resolves(pack: PackModel, chain: Seq<Seq<Seq<char>>>, k: int)
    requires
        leads_along(pack, chain),
        item_index(pack, chain.last()) == Some(k),
    ensures
        resolve_spec(pack, chain[0]) == Resolved::Item(k as usize),
{
    lemma_chain_is_short(pack, chain, k);
    lemma_follow_along(pack, chain, 0, pack.reexports.len(), k);
}

proof fn lemma_follow_round(pack: PackModel, ring: Seq<Seq<Seq<char>>>, i: int, fuel: nat)
    requires
        leads_round(pack, ring),
        0 <= i < ring.len(),
    ensures
        follow(pack, ring[i], fuel) == Resolved::Cyclic,
    decreases fuel,
{
    if fuel > 0 {
        lemma_follow_round(pack, ring, next_in_ring(i, ring.len() as int), (fuel - 1) as nat);
    }
}

/// Re-exports that lead back to where they began are found out: the lookup of
/// any path of such a ring is cyclic.
pub proof fn lemma_ring_is_cyclic(pack: PackModel, ring: Seq<Seq<Seq<char>>>, i: int)
    requires
        leads_round(pack, ring),
        0 <= i < ring.len(),
    ensures
        resolve_spec(pack, ring[i]) == Resolved::Cyclic,
{
    lemma_follow_round(pack, ring, i, pack.reexports.len());
}

proof fn lemma_edge_target_same(one: PackModel, other: PackModel, path: Seq<Seq<char>>)
    requires
        one.reexports.to_multiset() == other.reexports.to_multiset(),
        edges_distinct(one.reexports),
    ensures
        edge_target(one, path) == edge_target(other, path),
{
    let e1 = one.reexports;
    let e2 = other.reexports;
    e1.to_multiset_ensures();
    e2.to_multiset_ensures();
    lemma_edge_index_is_first(e1, path, 0);
    lemma_edge_index_is_first(e2, path, 0);
    match edge_index_from(e2, path, 0) {
        Some(b) => {
            assert(e2.contains(e2[b]));
            assert(e1.to_multiset().count(e2[b]) > 0);
            assert(e1.contains(e2[b]));
            let a2 = choose|a2: int| 0 <= a2 < e1.len() && e1[a2] == e2[b];
            assert(e1[a2].path == path);
            let a = edge_index_from(e1, path, 0)->Some_0;
            assert(a == a2);
        },
        None => {
            if edge_index_from(e1, path, 0) is Some {
                let a = edge_index_from(e1, path, 0)->Some_0;
                assert(e1.contains(e1[a]));
                assert(e2.to_multiset().count(e1[a]) > 0);
                assert(e2.contains(e1[a]));
                let b2 = choose|b2: int| 0 <= b2 < e2.len() && e2[b2] == e1[a];
                assert(e2[b2].path == path);
            }
        },
    }
}

proof fn lemma_follow_same(one: PackModel, other: PackModel, path: Seq<Seq<char>>, fuel: nat)
    requires
        one.items == other.items,
        one.reexports.to_multiset() == other.reexports.to_multiset(),
        edges_distinct(one.reexports),
    ensures
        follow(one, path, fuel) == follow(other, path, fuel),
    decreases fuel,
{
    lemma_edge_target_same(one, other, path);
    if fuel > 0 && item_index(one, path) is None && edge_target(one, path) is Some {
        lemma_follow_same(one, other, edge_target(one, path)->Some_0, (fuel - 1) as nat);
    }
}

/// The order in which re-exports are declared does not matter: two packs with
/// the same items and the same re-exports, in whatever order, where no name is
/// re-exported twice, look every path up alike.
pub proof fn lemma_reexport_order_is_irrelevant(
    one: PackModel,
    other: PackModel,
    path: Seq<Seq<char>>,
)
    requires
        one.items == other.items,
        one.reexports.to_multiset() == other.reexports.to_multiset(),
        edges_distinct(one.reexports),
    ensures
        resolve_spec(one, path) == resolve_spec(other, path),
{
    one.reexports.to_multiset_ensures();
    other.reexports.to_multiset_ensures();
    lemma_follow_same(one, other, path, one.reexports.len());
}

} // verus!
