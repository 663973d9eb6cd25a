use crate::codegen::generator::generate_spec;
use crate::codegen::generator::glue::{
    call_symbol_spec, entries_spec, item_entries_spec, needs_disposer, release_symbol_spec,
    EntryModel,
};
use crate::codegen::generator::managed::{declarations_spec, disposer_spec, DeclModel};
use crate::codegen::ir::hir::hierarchical::{ItemModel, PackModel};
use crate::codegen::ir::hir::raw::{HirRawPack, RawCrate, Visibility};
use crate::codegen::ir::mir::{ItemKindModel, MirItemModel};
use crate::codegen::parser::hir::hierarchical::module::{
    all_placed, items_within, lemma_placed_plus, lemma_walk_placed, lemma_walk_within,
    lemma_within_plus, walk_spec,
};
use crate::codegen::parser::hir::hierarchical::{
    crate_spec, crates_spec, declared_paths, first_duplicate_from, parse_spec, seen_before,
};
use crate::codegen::parser::hir::internal_config::ParserHirInternalConfig;
use crate::codegen::parser::mir::ident::{lemma_stable_id_is_injective, stable_id_spec};
use crate::codegen::parser::mir::sort::{ids_distinct, lemma_sort_puts_in_order};
use crate::codegen::parser::mir::{is_bridged_spec, lower_item_spec, lower_items_spec, lower_spec};
use vstd::prelude::*;
use vstd::string::*;

verus! {

proof fn lemma_crates_within(config: ParserHirInternalConfig, crates: Seq<RawCrate>, n: nat)
    ensures
        items_within(crates_spec(config, crates, n), Visibility::Public),
    decreases n,
{
    if n == 0 || n > crates.len() {
    } else {
        let c = crates[n - 1];
        lemma_crates_within(config, crates, (n - 1) as nat);
        lemma_walk_within(c.root, seq![c.name@], Seq::empty());
        let walked = walk_spec(c.root, seq![c.name@], Seq::empty());
        assert(items_within(walked, Visibility::Public));
        assert(crate_spec(config, c).items =~= walked.items);
        assert(items_within(crate_spec(config, c), Visibility::Public));
        lemma_within_plus(
            crates_spec(config, crates, (n - 1) as nat),
            crate_spec(config, c),
            Visibility::Public,
        );
    }
}

proof fn lemma_crates_placed(config: ParserHirInternalConfig, crates: Seq<RawCrate>, n: nat)
    ensures
        all_placed(crates_spec(config, crates, n), Seq::empty(), Visibility::Public),
    decreases n,
{
    if n == 0 || n > crates.len() {
    } else {
        let c = crates[n - 1];
        let root = seq![c.name@];
        lemma_crates_placed(config, crates, (n - 1) as nat);
        lemma_walk_placed(c.root, root, Seq::empty());
        assert(root.drop_last() =~= Seq::<Seq<char>>::empty());
        let walked = walk_spec(c.root, root, Seq::empty());
        let one = crate_spec(config, c);
        assert(one.items =~= walked.items);
        assert(one.modules =~= walked.modules);
        assert(all_placed(one, Seq::empty(), Visibility::Public));
        lemma_placed_plus(
            crates_spec(config, crates, (n - 1) as nat),
            one,
            Seq::empty(),
            Visibility::Public,
        );
    }
}

/// In crates that resolve, the visibility of everything is the least of its own
/// and of all that encloses it. Every item is seen as far as the lesser of its
/// declaration and the module that declares it; every module as far as the
/// lesser of its declaration and the module that holds it; and the root of a
/// crate as far as it is declared. Going up from an item, that is the least
/// visibility on the way.
pub proof fn lemma_visibility_is_least(config: ParserHirInternalConfig, raw: HirRawPack)
    ensures
        parse_spec(config, raw) matches Ok(pack) ==> all_placed(
            pack,
            Seq::empty(),
            Visibility::Public,
        ),
{
    lemma_crates_placed(config, raw.crates@, raw.crates@.len());
}

/// A private item does not cross, whatever the modules around it are declared:
/// in crates that resolve, an item declared private is not among those that are
/// lowered.
pub proof fn lemma_private_item_is_not_bridged(
    config: ParserHirInternalConfig,
    raw: HirRawPack,
    k: int,
)
    requires
        parse_spec(config, raw) matches Ok(pack) && 0 <= k < pack.items.len()
            && pack.items[k].decl.visibility == Visibility::Private,
    ensures
        parse_spec(config, raw) matches Ok(pack) && !is_bridged_spec(pack, pack.items[k]),
{
    lemma_crates_within(config, raw.crates@, raw.crates@.len());
}

/// An item that stands inside a module which is not public does not cross: in
/// crates that resolve, an item that is seen less far than public is not among
/// those that are lowered.
pub proof fn lemma_hidden_item_is_not_bridged(pack: PackModel, item: ItemModel)
    requires
        item.visibility != Visibility::Public,
    ensures
        !is_bridged_spec(pack, item),
{
}

/// The identifier of an item goes by its path and by nothing else. Two items
/// that are lowered, in whatever crates and at whatever place in them, have the
/// same identifier exactly when they have the same path: moving a declaration
/// or renaming a module that does not enclose it leaves its identifier as it
/// was, and no two items share one.
pub proof fn lemma_identifier_follows_path(
    one_pack: PackModel,
    one: ItemModel,
    one_depth: nat,
    other_pack: PackModel,
    other: ItemModel,
    other_depth: nat,
)
    requires
        lower_item_spec(one_pack, one, one_depth) is Ok,
        lower_item_spec(other_pack, other, other_depth) is Ok,
    ensures
        (one.path == other.path) <==> (lower_item_spec(one_pack, one, one_depth)->Ok_0.id
            == lower_item_spec(other_pack, other, other_depth)->Ok_0.id),
{
    let a = lower_item_spec(one_pack, one, one_depth)->Ok_0;
    let b = lower_item_spec(other_pack, other, other_depth)->Ok_0;
    if a.id == b.id {
        lemma_stable_id_is_injective(one.path, other.path);
    }
}

/// How many of the first `n` declarations release through `symbol`.
pub open spec fn count_disposers(decls: Seq<DeclModel>, symbol: Seq<char>, n: nat) -> nat
    decreases n,
{
    if n == 0 || n > decls.len() {
        0
    } else {
        count_disposers(decls, symbol, (n - 1) as nat) + if decls[n - 1].disposer == Some(symbol) {
            1nat
        } else {
            0nat
        }
    }
}

/// How many of the entry points are named `symbol`.
pub open spec fn count_entries(entries: Seq<EntryModel>, symbol: Seq<char>) -> nat
    decreases entries.len(),
{
    if entries.len() == 0 {
        0
    } else {
        count_entries(entries.drop_last(), symbol) + if entries.last().symbol == symbol {
            1nat
        } else {
            0nat
        }
    }
}

/// How many disposers the item needs: one where its values are moved or known by
/// a handle, none otherwise.
pub open spec fn disposers_owed(item: MirItemModel) -> nat {
    match item.kind {
        ItemKindModel::Data { slot } => if needs_disposer(slot.tag) {
            1
        } else {
            0
        },
        ItemKindModel::Function { .. } => 0,
    }
}

proof fn lemma_prefix_is_injective(prefix: Seq<char>, a: Seq<char>, b: Seq<char>)
    requires
        prefix + a == prefix + b,
    ensures
        a == b,
{
    assert(a =~= (prefix + a).subrange(prefix.len() as int, (prefix + a).len() as int));
    assert(b =~= (prefix + b).subrange(prefix.len() as int, (prefix + b).len() as int));
}

proof fn lemma_count_disposers(items: Seq<MirItemModel>, i: int, n: nat)
    requires
        ids_distinct(items),
        0 <= i < items.len(),
        n <= items.len(),
    ensures
        count_disposers(declarations_spec(items), release_symbol_spec(items[i].id), n) == if i
            < n {
            disposers_owed(items[i])
        } else {
            0
        },
    decreases n,
{
    if n > 0 {
        lemma_count_disposers(items, i, (n - 1) as nat);
        let j = n - 1;
        if j != i && disposer_spec(items[j]) == Some(release_symbol_spec(items[i].id)) {
            lemma_prefix_is_injective("release_"@, items[j].id, items[i].id);
        }
    }
}

proof fn lemma_count_entries_plus(a: Seq<EntryModel>, b: Seq<EntryModel>, symbol: Seq<char>)
    ensures
        count_entries(a + b, symbol) == count_entries(a, symbol) + count_entries(b, symbol),
    decreases b.len(),
{
    if b.len() == 0 {
        assert(a + b =~= a);
    } else {
        lemma_count_entries_plus(a, b.drop_last(), symbol);
        assert((a + b).drop_last() =~= a + b.drop_last());
        assert((a + b).last() == b.last());
    }
}

proof fn lemma_symbols_differ(a: Seq<char>, b: Seq<char>)
    ensures
        call_symbol_spec(a) != release_symbol_spec(b),
{
    reveal_strlit("frb_");
    reveal_strlit("release_");
    assert(call_symbol_spec(a)[0] == 'f');
    assert(release_symbol_spec(b)[0] == 'r');
}

proof fn lemma_count_item_entries(item: MirItemModel, symbol: Seq<char>)
    ensures
        count_entries(item_entries_spec(item), symbol) == if item_entries_spec(item).len() == 1
            && item_entries_spec(item)[0].symbol == symbol {
            1nat
        } else {
            0nat
        },
{
    let e = item_entries_spec(item);
    if e.len() == 1 {
        assert(e.drop_last() =~= Seq::<EntryModel>::empty());
        assert(count_entries(e.drop_last(), symbol) == 0);
    }
}

proof fn lemma_count_entries(items: Seq<MirItemModel>, i: int, n: nat)
    requires
        ids_distinct(items),
        0 <= i < items.len(),
        n <= items.len(),
    ensures
        count_entries(entries_spec(items, n), release_symbol_spec(items[i].id)) == if i < n {
            disposers_owed(items[i])
        } else {
            0
        },
    decreases n,
{
    let symbol = release_symbol_spec(items[i].id);
    if n > 0 {
        let j = n - 1;
        lemma_count_entries(items, i, j as nat);
        lemma_count_entries_plus(
            entries_spec(items, j as nat),
            item_entries_spec(items[j]),
            symbol,
        );
        lemma_count_item_entries(items[j], symbol);
        match items[j].kind {
            ItemKindModel::Function { .. } => {
                lemma_symbols_differ(items[j].id, items[i].id);
            },
            ItemKindModel::Data { slot } => {
                if j != i && needs_disposer(slot.tag) && release_symbol_spec(items[j].id)
                    == symbol {
                    lemma_prefix_is_injective("release_"@, items[j].id, items[i].id);
                }
            },
        }
    }
}

/// Disposers and items go in pairs. Of a document in which no two items share an
/// identifier, every data type whose values are moved or known by a handle has
/// exactly one declaration on the managed side that releases through its
/// disposer, and the native glue has exactly one entry point of that name; an
/// item of any other kind has neither.
pub proof fn lemma_disposers_are_paired(
    header_path: Seq<char>,
    output_dir: Seq<char>,
    items: Seq<MirItemModel>,
    i: int,
)
    requires
        ids_distinct(items),
        0 <= i < items.len(),
    ensures
        count_disposers(
            generate_spec(header_path, output_dir, items).declarations,
            release_symbol_spec(items[i].id),
            items.len(),
        ) == disposers_owed(items[i]),
        count_entries(
            generate_spec(header_path, output_dir, items).entries,
            release_symbol_spec(items[i].id),
        ) == disposers_owed(items[i]),
        generate_spec(header_path, output_dir, items).declarations[i].disposer == if disposers_owed(
            items[i],
        ) == 1 {
            Some(release_symbol_spec(items[i].id))
        } else {
            None
        },
{
    lemma_count_disposers(items, i, items.len());
    lemma_count_entries(items, i, items.len());
}

/// Whether no two items of the pack stand under the same path.
pub open spec fn item_paths_distinct(pack: PackModel) -> bool {
    forall|i: int, j: int|
        0 <= i < j < pack.items.len() ==> pack.items[i].path != pack.items[j].path
}

/// The document that a run makes of the syntax trees `raw`, where it gets as far
/// as a document.
pub open spec fn document_of(config: ParserHirInternalConfig, raw: HirRawPack) -> Option<
    Seq<MirItemModel>,
> {
    match parse_spec(config, raw) {
        Ok(pack) => match lower_spec(pack) {
            Ok(items) => Some(items),
            Err(_) => None,
        },
        Err(_) => None,
    }
}

proof fn lemma_no_path_twice(paths: Seq<Seq<Seq<char>>>, from: int, j: int)
    requires
        0 <= from <= j < paths.len(),
        first_duplicate_from(paths, from) is None,
    ensures
        !seen_before(paths, j),
    decreases j - from,
{
    if from < j {
        lemma_no_path_twice(paths, from + 1, j);
    }
}

proof fn lemma_resolved_paths_are_distinct(pack: PackModel)
    requires
        first_duplicate_from(declared_paths(pack), 0) is None,
    ensures
        item_paths_distinct(pack),
{
    let paths = declared_paths(pack);
    let c = pack.crates.len() as int;
    assert forall|i: int, j: int| 0 <= i < j < pack.items.len() implies pack.items[i].path
        != pack.items[j].path by {
        lemma_no_path_twice(paths, 0, c + j);
        assert(paths[c + i] == pack.items[i].path);
        assert(paths[c + j] == pack.items[j].path);
    }
}

/// Whether `id` is the identifier of one of the first `n` items of the pack.
pub open spec fn names_item(pack: PackModel, n: nat, id: Seq<char>) -> bool {
    exists|j: int| 0 <= j < n && id == stable_id_spec(#[trigger] pack.items[j].path)
}

proof fn lemma_lowered_ids_are_distinct(pack: PackModel, n: nat, depth: nat)
    requires
        item_paths_distinct(pack),
        n <= pack.items.len(),
    ensures
        lower_items_spec(pack, n, depth) matches Ok(out) ==> ids_distinct(out) && forall|k: int|
            0 <= k < out.len() ==> names_item(pack, n, #[trigger] out[k].id),
    decreases n,
{
    if n > 0 {
        lemma_lowered_ids_are_distinct(pack, (n - 1) as nat, depth);
        match lower_items_spec(pack, n, depth) {
            Ok(out) => {
                let done = lower_items_spec(pack, (n - 1) as nat, depth)->Ok_0;
                assert forall|k: int| 0 <= k < done.len() implies names_item(
                    pack,
                    n,
                    #[trigger] done[k].id,
                ) && done[k].id != stable_id_spec(pack.items[n - 1].path) by {
                    assert(names_item(pack, (n - 1) as nat, done[k].id));
                    let j = choose|j: int|
                        0 <= j < n - 1 && done[k].id == stable_id_spec(
                            #[trigger] pack.items[j].path,
                        );
                    if done[k].id == stable_id_spec(pack.items[n - 1].path) {
                        lemma_stable_id_is_injective(pack.items[j].path, pack.items[n - 1].path);
                    }
                }
                if is_bridged_spec(pack, pack.items[n - 1]) {
                    let item = lower_item_spec(pack, pack.items[n - 1], depth)->Ok_0;
                    assert(out == done.push(item));
                    assert(item.id == stable_id_spec(pack.items[n - 1].path));
                    assert forall|k: int| 0 <= k < out.len() implies names_item(
                        pack,
                        n,
                        #[trigger] out[k].id,
                    ) by {
                        if k < done.len() {
                            assert(out[k] == done[k]);
                        }
                    }
                    assert forall|a: int, b: int| 0 <= a < b < out.len() implies out[a].id
                        != out[b].id by {
                        if b < done.len() {
                            assert(out[a] == done[a] && out[b] == done[b]);
                        } else {
                            assert(out[a] == done[a]);
                        }
                    }
                } else {
                    assert(out == done);
                }
            },
            Err(_) => {},
        }
    }
}

/// No two items of a document share an identifier: the crates of the run
/// resolve only where no name is declared twice, and different paths have
/// different identifiers.
pub proof fn lemma_document_ids_are_distinct(config: ParserHirInternalConfig, raw: HirRawPack)
    ensures
        document_of(config, raw) matches Some(items) ==> ids_distinct(items),
{
    match parse_spec(config, raw) {
        Ok(pack) => {
            lemma_resolved_paths_are_distinct(pack);
            lemma_lowered_ids_are_distinct(pack, pack.items.len(), pack.items.len());
            match lower_items_spec(pack, pack.items.len(), pack.items.len()) {
                Ok(unordered) => {
                    lemma_sort_puts_in_order(unordered);
                },
                Err(_) => {},
            }
        },
        Err(_) => {},
    }
}

/// In every run that gets as far as a document, disposers and items go in pairs:
/// each data type of the document whose values are moved or known by a handle
/// has exactly one declaration on the managed side that releases through its
/// disposer, and exactly one entry point of that name in the native glue; any
/// other item has neither.
pub proof fn lemma_run_pairs_disposers(
    config: ParserHirInternalConfig,
    header_path: Seq<char>,
    output_dir: Seq<char>,
    raw: HirRawPack,
    i: int,
)
    requires
        document_of(config, raw) matches Some(items) && 0 <= i < items.len(),
    ensures
        document_of(config, raw) matches Some(items) && count_disposers(
            generate_spec(header_path, output_dir, items).declarations,
            release_symbol_spec(items[i].id),
            items.len(),
        ) == disposers_owed(items[i]) && count_entries(
            generate_spec(header_path, output_dir, items).entries,
            release_symbol_spec(items[i].id),
        ) == disposers_owed(items[i]),
{
    lemma_document_ids_are_distinct(config, raw);
    let items = document_of(config, raw)->Some_0;
    lemma_disposers_are_paired(header_path, output_dir, items, i);
}

} // verus!
