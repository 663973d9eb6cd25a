use crate::codegen::ir::hir::hierarchical::{
    HirItem, HirModule, HirPack, HirReexport, ItemModel, ModuleModel, PackModel, ReexportModel,
};
use crate::codegen::ir::hir::raw::{RawDecl, RawDeclKind, RawModule, Visibility};
use crate::codegen::ir::path::{child_path, clone_path, parent_spec};
use crate::codegen::parser::hir::hierarchical::item_type::{classify, classify_spec, Entry};
use crate::codegen::parser::hir::hierarchical::visibility::{
    effective_visibility, meet, meet_all, meet_spec, rank,
};
use crate::text::views;
use vstd::prelude::*;
use vstd::string::*;

verus! {

/// The path that a `use` declaration takes its name from; empty for any other
/// declaration.
pub open spec fn use_target(d: RawDecl) -> Seq<Seq<char>> {
    match d.kind {
        RawDeclKind::Use { target } => views(target@),
        _ => Seq::empty(),
    }
}

/// What one declaration adds to the pack, in the module at `path` whose own and
/// enclosing modules are declared `chain`, outermost first.
pub open spec fn decl_entry(d: RawDecl, path: Seq<Seq<char>>, chain: Seq<Visibility>) -> PackModel {
    match classify_spec(d) {
        Entry::Item(class) => PackModel::of_item(
            ItemModel {
                path: path.push(d.name@),
                class,
                visibility: effective_visibility(d.visibility, chain),
                decl: d,
            },
        ),
        Entry::Reexport => PackModel::of_reexport(
            ReexportModel {
                path: path.push(d.name@),
                visibility: effective_visibility(d.visibility, chain),
                target: use_target(d),
            },
        ),
        Entry::Ignored => PackModel::empty(),
    }
}

/// What the first `n` declarations of a module add, in their order.
pub open spec fn decl_entries(
    decls: Seq<RawDecl>,
    n: nat,
    path: Seq<Seq<char>>,
    chain: Seq<Visibility>,
) -> PackModel
    decreases n,
{
    if n == 0 || n > decls.len() {
        PackModel::empty()
    } else {
        decl_entries(decls, (n - 1) as nat, path, chain).plus(
            decl_entry(decls[n - 1], path, chain),
        )
    }
}

/// What the module `m` at `path` adds, inside modules declared `outer`: the
/// module itself, its declarations, then its child modules with all that is in
/// them, each in the order of the source.
pub open spec fn walk_spec(m: RawModule, path: Seq<Seq<char>>, outer: Seq<Visibility>) -> PackModel
    decreases m, 1nat, 0nat,
{
    let chain = outer.push(m.visibility);
    PackModel::of_module(
        ModuleModel { path, declared: m.visibility, visibility: meet_all(chain) },
    ).plus(decl_entries(m.decls@, m.decls@.len(), path, chain)).plus(
        walk_children(m, m.modules@.len(), path, chain),
    )
}

/// What the first `n` child modules of `m` add.
pub open spec fn walk_children(
    m: RawModule,
    n: nat,
    path: Seq<Seq<char>>,
    chain: Seq<Visibility>,
) -> PackModel
    decreases m, 0nat, n,
{
    if n == 0 || n > m.modules@.len() {
        PackModel::empty()
    } else {
        let child = m.modules@[n - 1];
        walk_children(m, (n - 1) as nat, path, chain).plus(
            walk_spec(child, path.push(child.name@), chain),
        )
    }
}

/// Whether every item of `part` is seen no further than it is declared, and no
/// further than `bound`.
pub open spec fn items_within(part: PackModel, bound: Visibility) -> bool {
    forall|k: int|
        0 <= k < part.items.len() ==> rank((#[trigger] part.items[k]).visibility) <= rank(
            part.items[k].decl.visibility,
        ) && rank(part.items[k].visibility) <= rank(bound)
}

/// What holds of the items of two packs holds of the items of both together.
pub proof fn lemma_within_plus(a: PackModel, b: PackModel, bound: Visibility)
    requires
        items_within(a, bound),
        items_within(b, bound),
    ensures
        items_within(a.plus(b), bound),
{
    assert forall|k: int| 0 <= k < a.plus(b).items.len() implies rank(
        (#[trigger] a.plus(b).items[k]).visibility,
    ) <= rank(a.plus(b).items[k].decl.visibility) && rank(a.plus(b).items[k].visibility) <= rank(
        bound,
    ) by {
        if k < a.items.len() {
            assert(a.plus(b).items[k] == a.items[k]);
        } else {
            assert(a.plus(b).items[k] == b.items[k - a.items.len()]);
        }
    }
}

proof fn lemma_decl_entries_within(
    decls: Seq<RawDecl>,
    n: nat,
    path: Seq<Seq<char>>,
    chain: Seq<Visibility>,
)
    ensures
        items_within(decl_entries(decls, n, path, chain), meet_all(chain)),
    decreases n,
{
    if n == 0 || n > decls.len() {
    } else {
        lemma_decl_entries_within(decls, (n - 1) as nat, path, chain);
        lemma_within_plus(
            decl_entries(decls, (n - 1) as nat, path, chain),
            decl_entry(decls[n - 1], path, chain),
            meet_all(chain),
        );
    }
}

/// No item is seen further than it is declared, nor further than any module
/// around it: of all that the walk of `m` collects, every item is seen at most
/// as far as its own declaration says, and at most as far as `m` is seen.
pub proof fn lemma_walk_within(m: RawModule, path: Seq<Seq<char>>, outer: Seq<Visibility>)
    ensures
        items_within(walk_spec(m, path, outer), meet_all(outer.push(m.visibility))),
    decreases m, 1nat, 0nat,
{
    let chain = outer.push(m.visibility);
    let head = PackModel::of_module(
        ModuleModel { path, declared: m.visibility, visibility: meet_all(chain) },
    );
    lemma_decl_entries_within(m.decls@, m.decls@.len(), path, chain);
    lemma_walk_children_within(m, m.modules@.len(), path, chain);
    lemma_within_plus(head, decl_entries(m.decls@, m.decls@.len(), path, chain), meet_all(chain));
    lemma_within_plus(
        head.plus(decl_entries(m.decls@, m.decls@.len(), path, chain)),
        walk_children(m, m.modules@.len(), path, chain),
        meet_all(chain),
    );
}

proof fn lemma_walk_children_within(
    m: RawModule,
    n: nat,
    path: Seq<Seq<char>>,
    chain: Seq<Visibility>,
)
    ensures
        items_within(walk_children(m, n, path, chain), meet_all(chain)),
    decreases m, 0nat, n,
{
    if n == 0 || n > m.modules@.len() {
    } else {
        let child = m.modules@[n - 1];
        lemma_walk_children_within(m, (n - 1) as nat, path, chain);
        lemma_walk_within(child, path.push(child.name@), chain);
        assert(chain.push(child.visibility).drop_last() =~= chain);
        let sub = walk_spec(child, path.push(child.name@), chain);
        assert(items_within(sub, meet_all(chain)));
        lemma_within_plus(walk_children(m, (n - 1) as nat, path, chain), sub, meet_all(chain));
    }
}

/// Whether `item` is seen as far as the lesser of its own declaration and the
/// module that declares it: among `modules` stands the module at the path that
/// the item is declared in, and the two visibilities meet in that of the item.
pub open spec fn item_placed(item: ItemModel, modules: Seq<ModuleModel>) -> bool {
    exists|q: int|
        0 <= q < modules.len() && (#[trigger] modules[q]).path == parent_spec(item.path)
            && item.visibility == meet_spec(item.decl.visibility, modules[q].visibility)
}

/// Whether `m` is seen as far as the lesser of its own declaration and the
/// module that holds it: either it stands directly below the path `above`, which
/// is seen as far as `above_seen`, or the module that holds it is among
/// `modules`.
pub open spec fn module_placed(
    m: ModuleModel,
    modules: Seq<ModuleModel>,
    above: Seq<Seq<char>>,
    above_seen: Visibility,
) -> bool {
    (m.path.len() > 0 && parent_spec(m.path) == above && m.visibility == meet_spec(
        m.declared,
        above_seen,
    )) || exists|q: int|
        0 <= q < modules.len() && (#[trigger] modules[q]).path == parent_spec(m.path)
            && m.visibility == meet_spec(m.declared, modules[q].visibility)
}

/// Whether every item and every module of `part` is seen as far as the lesser of
/// its own declaration and what holds it, where `above`, seen as far as
/// `above_seen`, holds the outermost modules of `part`.
pub open spec fn all_placed(
    part: PackModel,
    above: Seq<Seq<char>>,
    above_seen: Visibility,
) -> bool {
    &&& forall|k: int|
        0 <= k < part.items.len() ==> item_placed(#[trigger] part.items[k], part.modules)
    &&& forall|q: int|
        0 <= q < part.modules.len() ==> module_placed(
            #[trigger] part.modules[q],
            part.modules,
            above,
            above_seen,
        )
}

proof fn lemma_item_placed_grows(
    item: ItemModel,
    modules: Seq<ModuleModel>,
    before: Seq<ModuleModel>,
    after: Seq<ModuleModel>,
)
    requires
        item_placed(item, modules),
    ensures
        item_placed(item, before + modules + after),
{
    let q = choose|q: int|
        0 <= q < modules.len() && (#[trigger] modules[q]).path == parent_spec(item.path)
            && item.visibility == meet_spec(item.decl.visibility, modules[q].visibility);
    let all = before + modules + after;
    assert(all[before.len() + q] == modules[q]);
}

proof fn lemma_module_placed_grows(
    m: ModuleModel,
    modules: Seq<ModuleModel>,
    before: Seq<ModuleModel>,
    after: Seq<ModuleModel>,
    above: Seq<Seq<char>>,
    above_seen: Visibility,
)
    requires
        module_placed(m, modules, above, above_seen),
    ensures
        module_placed(m, before + modules + after, above, above_seen),
{
    if !(m.path.len() > 0 && parent_spec(m.path) == above && m.visibility == meet_spec(
        m.declared,
        above_seen,
    )) {
        let q = choose|q: int|
            0 <= q < modules.len() && (#[trigger] modules[q]).path == parent_spec(m.path)
                && m.visibility == meet_spec(m.declared, modules[q].visibility);
        let all = before + modules + after;
        assert(all[before.len() + q] == modules[q]);
    }
}

/// What is placed in each of two packs is placed in both together.
pub proof fn lemma_placed_plus(
    a: PackModel,
    b: PackModel,
    above: Seq<Seq<char>>,
    above_seen: Visibility,
)
    requires
        all_placed(a, above, above_seen),
        all_placed(b, above, above_seen),
    ensures
        all_placed(a.plus(b), above, above_seen),
{
    let both = a.plus(b);
    let none = Seq::<ModuleModel>::empty();
    assert(both.modules =~= none + a.modules + b.modules);
    assert(both.modules =~= a.modules + b.modules + none);
    assert forall|k: int| 0 <= k < both.items.len() implies item_placed(
        #[trigger] both.items[k],
        both.modules,
    ) by {
        if k < a.items.len() {
            assert(both.items[k] == a.items[k]);
            lemma_item_placed_grows(a.items[k], a.modules, none, b.modules);
        } else {
            assert(both.items[k] == b.items[k - a.items.len()]);
            lemma_item_placed_grows(b.items[k - a.items.len()], b.modules, a.modules, none);
        }
    }
    assert forall|q: int| 0 <= q < both.modules.len() implies module_placed(
        #[trigger] both.modules[q],
        both.modules,
        above,
        above_seen,
    ) by {
        if q < a.modules.len() {
            assert(both.modules[q] == a.modules[q]);
            lemma_module_placed_grows(a.modules[q], a.modules, none, b.modules, above, above_seen);
        } else {
            assert(both.modules[q] == b.modules[q - a.modules.len()]);
            lemma_module_placed_grows(
                b.modules[q - a.modules.len()],
                b.modules,
                a.modules,
                none,
                above,
                above_seen,
            );
        }
    }
}

proof fn lemma_decl_entries_placed(
    decls: Seq<RawDecl>,
    n: nat,
    path: Seq<Seq<char>>,
    chain: Seq<Visibility>,
    modules: Seq<ModuleModel>,
)
    requires
        modules.len() > 0,
        modules[0].path == path,
        modules[0].visibility == meet_all(chain),
    ensures
        forall|k: int|
            0 <= k < decl_entries(decls, n, path, chain).items.len() ==> item_placed(
                #[trigger] decl_entries(decls, n, path, chain).items[k],
                modules,
            ),
        decl_entries(decls, n, path, chain).modules.len() == 0,
    decreases n,
{
    if n == 0 || n > decls.len() {
    } else {
        lemma_decl_entries_placed(decls, (n - 1) as nat, path, chain, modules);
        let before = decl_entries(decls, (n - 1) as nat, path, chain);
        let entry = decl_entry(decls[n - 1], path, chain);
        let all = decl_entries(decls, n, path, chain);
        assert(all == before.plus(entry));
        assert forall|k: int| 0 <= k < all.items.len() implies item_placed(
            #[trigger] all.items[k],
            modules,
        ) by {
            if k < before.items.len() {
                assert(all.items[k] == before.items[k]);
            } else {
                let item = entry.items[k - before.items.len()];
                assert(all.items[k] == item);
                assert(item.path == path.push(decls[n - 1].name@));
                assert(path.push(decls[n - 1].name@).drop_last() =~= path);
                assert(modules[0].path == parent_spec(item.path));
            }
        }
    }
}

/// All that the walk of a module collects is seen as far as the lesser of its
/// own declaration and what holds it: every item as far as that and the module
/// that declares it, every module as far as that and the module around it, and
/// the module walked as far as that and what is around the walk.
pub proof fn lemma_walk_placed(m: RawModule, path: Seq<Seq<char>>, outer: Seq<Visibility>)
    requires
        path.len() > 0,
    ensures
        all_placed(walk_spec(m, path, outer), parent_spec(path), meet_all(outer)),
        walk_spec(m, path, outer).modules.len() > 0,
        walk_spec(m, path, outer).modules[0].path == path,
        walk_spec(m, path, outer).modules[0].visibility == meet_all(outer.push(m.visibility)),
    decreases m, 1nat, 0nat,
{
    let chain = outer.push(m.visibility);
    let head_module = ModuleModel { path, declared: m.visibility, visibility: meet_all(chain) };
    let head = PackModel::of_module(head_module);
    let decls = decl_entries(m.decls@, m.decls@.len(), path, chain);
    let children = walk_children(m, m.modules@.len(), path, chain);
    let w = walk_spec(m, path, outer);
    assert(chain.drop_last() =~= outer);
    lemma_walk_children_placed(m, m.modules@.len(), path, chain);
    lemma_decl_entries_placed(m.decls@, m.decls@.len(), path, chain, w.modules);
    assert(w.modules =~= seq![head_module] + children.modules);
    assert(w.items =~= decls.items + children.items);
    assert forall|k: int| 0 <= k < w.items.len() implies item_placed(
        #[trigger] w.items[k],
        w.modules,
    ) by {
        if k >= decls.items.len() {
            let item = children.items[k - decls.items.len()];
            assert(item_placed(item, children.modules));
            let q = choose|q: int|
                0 <= q < children.modules.len() && (#[trigger] children.modules[q]).path
                    == parent_spec(item.path) && item.visibility == meet_spec(
                    item.decl.visibility,
                    children.modules[q].visibility,
                );
            assert(w.modules[q + 1] == children.modules[q]);
        }
    }
    assert forall|q: int| 0 <= q < w.modules.len() implies module_placed(
        #[trigger] w.modules[q],
        w.modules,
        parent_spec(path),
        meet_all(outer),
    ) by {
        if q == 0 {
            assert(w.modules[0] == head_module);
        } else {
            let c = children.modules[q - 1];
            assert(w.modules[q] == c);
            assert(module_placed(c, children.modules, path, meet_all(chain)));
            if c.path.len() > 0 && parent_spec(c.path) == path && c.visibility == meet_spec(
                c.declared,
                meet_all(chain),
            ) {
                assert(w.modules[0].path == parent_spec(c.path));
            } else {
                let p = choose|p: int|
                    0 <= p < children.modules.len() && (#[trigger] children.modules[p]).path
                        == parent_spec(c.path) && c.visibility == meet_spec(
                        c.declared,
                        children.modules[p].visibility,
                    );
                assert(w.modules[p + 1] == children.modules[p]);
            }
        }
    }
}

proof fn lemma_walk_children_placed(
    m: RawModule,
    n: nat,
    path: Seq<Seq<char>>,
    chain: Seq<Visibility>,
)
    requires
        path.len() > 0,
    ensures
        all_placed(walk_children(m, n, path, chain), path, meet_all(chain)),
    decreases m, 0nat, n,
{
    if n == 0 || n > m.modules@.len() {
    } else {
        let child = m.modules@[n - 1];
        let at = path.push(child.name@);
        lemma_walk_children_placed(m, (n - 1) as nat, path, chain);
        lemma_walk_placed(child, at, chain);
        assert(at.drop_last() =~= path);
        lemma_placed_plus(
            walk_children(m, (n - 1) as nat, path, chain),
            walk_spec(child, at, chain),
            path,
            meet_all(chain),
        );
    }
}

/// The least visibility of `chain`.
pub fn meet_chain(chain: &Vec<Visibility>) -> (r: Visibility)
    ensures
        r == meet_all(chain@),
{
    let mut acc = Visibility::Public;
    let mut i: usize = 0;
    while i < chain.len()
        invariant
            i <= chain.len(),
            acc == meet_all(chain@.take(i as int)),
        decreases chain.len() - i,
    {
        proof {
            assert(chain@.take(i + 1).drop_last() =~= chain@.take(i as int));
        }
        acc = meet(acc, chain[i]);
        i += 1;
    }
    assert(chain@.take(chain.len() as int) =~= chain@);
    acc
}

/// `chain` with `v` behind it.
pub fn extend_chain(chain: &Vec<Visibility>, v: Visibility) -> (r: Vec<Visibility>)
    ensures
        r@ == chain@.push(v),
{
    let mut out: Vec<Visibility> = Vec::new();
    let mut i: usize = 0;
    while i < chain.len()
        invariant
            i <= chain.len(),
            out@ == chain@.take(i as int),
        decreases chain.len() - i,
    {
        out.push(chain[i]);
        i += 1;
        assert(out@ =~= chain@.take(i as int));
    }
    assert(chain@.take(chain.len() as int) =~= chain@);
    out.push(v);
    out
}

/// Visits the module `m` at `path` and all modules below it, and collects what
/// they declare. `outer` holds the declared visibilities of the modules that
/// enclose `m`, outermost first; every entry is seen as far as the least of its
/// own visibility and those of all modules around it.
pub fn walk<'a>(m: &'a RawModule, path: &Vec<String>, outer: &Vec<Visibility>) -> (r: HirPack<'a>)
    ensures
        r@ == walk_spec(*m, views(path@), outer@),
    decreases m,
{
    let chain = extend_chain(outer, m.visibility);
    let vis = meet_chain(&chain);
    let mut out = HirPack::new();
    out.push_module(HirModule { path: clone_path(path), declared: m.visibility, visibility: vis });
    let ghost head = out@;
    proof {
        PackModel::lemma_plus(head, PackModel::empty(), PackModel::empty());
    }
    let mut i: usize = 0;
    while i < m.decls.len()
        invariant
            i <= m.decls.len(),
            vis == meet_all(chain@),
            out@ == head.plus(decl_entries(m.decls@, i as nat, views(path@), chain@)),
        decreases m.decls.len() - i,
    {
        let d = &m.decls[i];
        let ghost before = decl_entries(m.decls@, i as nat, views(path@), chain@);
        proof {
            PackModel::lemma_plus(head, before, decl_entry(*d, views(path@), chain@));
            PackModel::lemma_plus(before, PackModel::empty(), PackModel::empty());
        }
        match classify(d) {
            Entry::Item(class) => {
                out.push_item(
                    HirItem {
                        path: child_path(path, d.name.as_str()),
                        class,
                        visibility: meet(d.visibility, vis),
                        decl: d,
                    },
                );
            },
            Entry::Reexport => {
                let target = match &d.kind {
                    RawDeclKind::Use { target } => clone_path(target),
                    _ => Vec::new(),
                };
                assert(views(target@) =~= use_target(*d));
                out.push_reexport(
                    HirReexport {
                        path: child_path(path, d.name.as_str()),
                        visibility: meet(d.visibility, vis),
                        target,
                    },
                );
            },
            Entry::Ignored => {},
        }
        i += 1;
    }
    let ghost body = out@;
    proof {
        PackModel::lemma_plus(body, PackModel::empty(), PackModel::empty());
    }
    let mut j: usize = 0;
    while j < m.modules.len()
        invariant
            j <= m.modules.len(),
            out@ == body.plus(walk_children(*m, j as nat, views(path@), chain@)),
        decreases m.modules.len() - j,
    {
        let child = &m.modules[j];
        let child_at = child_path(path, child.name.as_str());
        let sub = walk(child, &child_at, &chain);
        proof {
            PackModel::lemma_plus(
                body,
                walk_children(*m, j as nat, views(path@), chain@),
                sub@,
            );
        }
        out.absorb(sub);
        j += 1;
    }
    out
}

} // verus!
