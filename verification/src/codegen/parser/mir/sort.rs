use crate::codegen::ir::mir::{items_model, MirItem, MirItemModel};
use crate::text::{
    lemma_text_lt_is_asymmetric, lemma_text_lt_is_connected, lemma_text_lt_is_cotransitive, str_lt,
    text_lt,
};
use vstd::prelude::*;
use vstd::string::*;

verus! {

/// `sorted` with `x` put in behind the last item whose identifier does not come
/// after that of `x`.
pub open spec fn insert_by_id(sorted: Seq<MirItemModel>, x: MirItemModel) -> Seq<MirItemModel>
    decreases sorted.len(),
{
    if sorted.len() == 0 {
        seq![x]
    } else if text_lt(x.id, sorted.last().id) {
        insert_by_id(sorted.drop_last(), x).push(sorted.last())
    } else {
        sorted.push(x)
    }
}

/// The first `n` of `items` in the order of their identifiers; items with the
/// same identifier keep their order.
pub open spec fn sort_by_id_spec(items: Seq<MirItemModel>, n: nat) -> Seq<MirItemModel>
    decreases n,
{
    if n == 0 || n > items.len() {
        Seq::empty()
    } else {
        insert_by_id(sort_by_id_spec(items, (n - 1) as nat), items[n - 1])
    }
}

/// Whether the items stand in the order of their identifiers.
pub open spec fn in_id_order(items: Seq<MirItemModel>) -> bool {
    forall|i: int, j: int| 0 <= i < j < items.len() ==> !text_lt(items[j].id, items[i].id)
}

/// Whether no two items have the same identifier.
pub open spec fn ids_distinct(items: Seq<MirItemModel>) -> bool {
    forall|i: int, j: int| 0 <= i < j < items.len() ==> items[i].id != items[j].id
}

proof fn lemma_insert_keeps(sorted: Seq<MirItemModel>, x: MirItemModel)
    ensures
        insert_by_id(sorted, x).to_multiset() == sorted.to_multiset().insert(x),
        insert_by_id(sorted, x).len() == sorted.len() + 1,
        forall|e: MirItemModel|
            insert_by_id(sorted, x).contains(e) <==> (sorted.contains(e) || e == x),
    decreases sorted.len(),
{
    let r = insert_by_id(sorted, x);
    if sorted.len() == 0 {
        assert(sorted =~= Seq::empty());
        assert(r =~= Seq::<MirItemModel>::empty().push(x));
        Seq::<MirItemModel>::empty().to_multiset_ensures();
    } else if text_lt(x.id, sorted.last().id) {
        let front = sorted.drop_last();
        lemma_insert_keeps(front, x);
        insert_by_id(front, x).to_multiset_ensures();
        front.to_multiset_ensures();
        assert(sorted =~= front.push(sorted.last()));
        assert(r.to_multiset() =~= sorted.to_multiset().insert(x));
    } else {
        sorted.to_multiset_ensures();
    }
    r.to_multiset_ensures();
    sorted.to_multiset_ensures();
    assert forall|e: MirItemModel| r.contains(e) <==> (sorted.contains(e) || e == x) by {
        assert(r.to_multiset().count(e) == sorted.to_multiset().insert(x).count(e));
    }
}

proof fn lemma_insert_in_order(sorted: Seq<MirItemModel>, x: MirItemModel)
    requires
        in_id_order(sorted),
    ensures
        in_id_order(insert_by_id(sorted, x)),
    decreases sorted.len(),
{
    let r = insert_by_id(sorted, x);
    if sorted.len() == 0 {
    } else if text_lt(x.id, sorted.last().id) {
        let front = sorted.drop_last();
        let last = sorted.last();
        lemma_insert_in_order(front, x);
        lemma_insert_keeps(front, x);
        let inner = insert_by_id(front, x);
        assert forall|i: int, j: int| 0 <= i < j < r.len() implies !text_lt(r[j].id, r[i].id) by {
            if j < inner.len() {
                assert(r[i] == inner[i] && r[j] == inner[j]);
            } else {
                assert(r[j] == last);
                assert(r[i] == inner[i]);
                assert(inner.contains(inner[i]));
                if inner[i] == x {
                    lemma_text_lt_is_asymmetric(x.id, last.id);
                } else {
                    assert(front.contains(inner[i]));
                    let m = choose|m: int| 0 <= m < front.len() && front[m] == inner[i];
                    assert(sorted[m] == inner[i]);
                }
            }
        }
    } else {
        let last = sorted.last();
        assert forall|i: int, j: int| 0 <= i < j < r.len() implies !text_lt(r[j].id, r[i].id) by {
            if j < sorted.len() {
                assert(r[i] == sorted[i] && r[j] == sorted[j]);
            } else {
                assert(r[j] == x && r[i] == sorted[i]);
                if text_lt(x.id, sorted[i].id) {
                    lemma_text_lt_is_cotransitive(x.id, sorted[i].id, last.id);
                    if i == sorted.len() - 1 {
                        lemma_text_lt_is_asymmetric(last.id, sorted[i].id);
                    }
                }
            }
        }
    }
}

proof fn lemma_insert_distinct(sorted: Seq<MirItemModel>, x: MirItemModel)
    requires
        ids_distinct(sorted),
        forall|k: int| 0 <= k < sorted.len() ==> sorted[k].id != x.id,
    ensures
        ids_distinct(insert_by_id(sorted, x)),
    decreases sorted.len(),
{
    let r = insert_by_id(sorted, x);
    if sorted.len() == 0 {
    } else if text_lt(x.id, sorted.last().id) {
        let front = sorted.drop_last();
        lemma_insert_distinct(front, x);
        lemma_insert_keeps(front, x);
        let inner = insert_by_id(front, x);
        assert forall|i: int, j: int| 0 <= i < j < r.len() implies r[i].id != r[j].id by {
            if j < inner.len() {
                assert(r[i] == inner[i] && r[j] == inner[j]);
            } else {
                assert(r[i] == inner[i]);
                assert(r[j] == sorted.last());
                assert(inner.contains(inner[i]));
                if inner[i] != x {
                    assert(front.contains(inner[i]));
                    let m = choose|m: int| 0 <= m < front.len() && front[m] == inner[i];
                    assert(sorted[m] == inner[i]);
                }
            }
        }
    } else {
        assert forall|i: int, j: int| 0 <= i < j < r.len() implies r[i].id != r[j].id by {
            if j < sorted.len() {
                assert(r[i] == sorted[i] && r[j] == sorted[j]);
            } else {
                assert(r[j] == x && r[i] == sorted[i]);
            }
        }
    }
}

proof fn lemma_sort_steps(items: Seq<MirItemModel>, n: nat)
    requires
        n <= items.len(),
    ensures
        in_id_order(sort_by_id_spec(items, n)),
        sort_by_id_spec(items, n).to_multiset() == items.take(n as int).to_multiset(),
        sort_by_id_spec(items, n).len() == n,
        ids_distinct(items) ==> ids_distinct(sort_by_id_spec(items, n)),
    decreases n,
{
    if n == 0 {
        assert(items.take(0) =~= Seq::empty());
    } else {
        let before = sort_by_id_spec(items, (n - 1) as nat);
        let x = items[n - 1];
        lemma_sort_steps(items, (n - 1) as nat);
        lemma_insert_in_order(before, x);
        lemma_insert_keeps(before, x);
        items.take(n - 1).to_multiset_ensures();
        assert(items.take(n as int) =~= items.take(n - 1).push(x));
        if ids_distinct(items) {
            before.to_multiset_ensures();
            assert forall|k: int| 0 <= k < before.len() implies before[k].id != x.id by {
                assert(before.contains(before[k]));
                assert(before.to_multiset().count(before[k]) > 0);
                assert(items.take(n - 1).to_multiset().count(before[k]) > 0);
                assert(items.take(n - 1).contains(before[k]));
                let m = choose|m: int|
                    0 <= m < n - 1 && #[trigger] items.take(n - 1)[m] == before[k];
                assert(items[m] == before[k]);
            }
            lemma_insert_distinct(before, x);
        }
    }
}

/// The document stands in the order of the identifiers of its items, and holds
/// the items that were lowered, each as often as it was lowered; identifiers
/// that differed before differ after.
pub proof fn lemma_sort_puts_in_order(items: Seq<MirItemModel>)
    ensures
        in_id_order(sort_by_id_spec(items, items.len())),
        sort_by_id_spec(items, items.len()).to_multiset() == items.to_multiset(),
        ids_distinct(items) ==> ids_distinct(sort_by_id_spec(items, items.len())),
{
    lemma_sort_steps(items, items.len());
    assert(items.take(items.len() as int) =~= items);
}

proof fn lemma_order_is_unique(s: Seq<MirItemModel>, t: Seq<MirItemModel>)
    requires
        in_id_order(s),
        in_id_order(t),
        ids_distinct(s),
        s.to_multiset() == t.to_multiset(),
    ensures
        s == t,
    decreases s.len(),
{
    s.to_multiset_ensures();
    t.to_multiset_ensures();
    if s.len() == 0 {
        assert(s =~= t);
    } else {
        let n = s.len() - 1;
        assert(s.contains(s[n]));
        assert(s.to_multiset().count(s[n]) > 0);
        assert(t.to_multiset().count(s[n]) > 0);
        assert(t.contains(s[n]));
        let j = choose|j: int| 0 <= j < t.len() && t[j] == s[n];
        assert(t.contains(t[n]));
        assert(t.to_multiset().count(t[n]) > 0);
        assert(s.to_multiset().count(t[n]) > 0);
        assert(s.contains(t[n]));
        let i = choose|i: int| 0 <= i < s.len() && s[i] == t[n];
        if text_lt(t[n].id, s[n].id) {
            lemma_text_lt_is_asymmetric(t[n].id, s[n].id);
            assert(j != n);
            assert(!text_lt(t[n].id, t[j].id));
        }
        if text_lt(s[n].id, t[n].id) {
            lemma_text_lt_is_asymmetric(s[n].id, t[n].id);
            assert(i != n);
            assert(!text_lt(s[n].id, s[i].id));
        }
        lemma_text_lt_is_connected(s[n].id, t[n].id);
        assert(i == n);
        assert(s.drop_last() =~= s.remove(n));
        assert(t.drop_last() =~= t.remove(n));
        lemma_order_is_unique(s.drop_last(), t.drop_last());
        assert(s =~= s.drop_last().push(s[n]));
        assert(t =~= t.drop_last().push(t[n]));
    }
}

/// The order of the document does not go by the order in which its items were
/// declared: two lists of the same items, none with the identifier of another,
/// give the same document, in whatever order each list holds them.
pub proof fn lemma_sort_ignores_order(one: Seq<MirItemModel>, other: Seq<MirItemModel>)
    requires
        one.to_multiset() == other.to_multiset(),
        ids_distinct(one),
    ensures
        sort_by_id_spec(one, one.len()) == sort_by_id_spec(other, other.len()),
{
    lemma_sort_puts_in_order(one);
    lemma_sort_puts_in_order(other);
    lemma_order_is_unique(
        sort_by_id_spec(one, one.len()),
        sort_by_id_spec(other, other.len()),
    );
}

/// Putting `x` in comes to placing it at `p`, where every item from `p` on has an
/// identifier that comes after that of `x`, and the item before `p` has not.
proof fn lemma_insert_at(sorted: Seq<MirItemModel>, x: MirItemModel, p: int)
    requires
        0 <= p <= sorted.len(),
        forall|k: int| p <= k < sorted.len() ==> text_lt(x.id, sorted[k].id),
        p > 0 ==> !text_lt(x.id, sorted[p - 1].id),
    ensures
        insert_by_id(sorted, x) == sorted.insert(p, x),
    decreases sorted.len(),
{
    if sorted.len() == 0 {
        assert(sorted.insert(p, x) =~= seq![x]);
    } else if p == sorted.len() {
        assert(sorted.insert(p, x) =~= sorted.push(x));
    } else {
        lemma_insert_at(sorted.drop_last(), x, p);
        assert(sorted.insert(p, x) =~= sorted.drop_last().insert(p, x).push(sorted.last()));
    }
}

/// Puts the items in the order of their identifiers.
pub fn sort_by_id(items: Vec<MirItem>) -> (r: Vec<MirItem>)
    ensures
        items_model(r@) == sort_by_id_spec(items_model(items@), items@.len()),
{
    let ghost given = items_model(items@);
    let total = items.len();
    let mut rest = items;
    let mut reversed: Vec<MirItem> = Vec::new();
    while rest.len() > 0
        invariant
            rest.len() + reversed.len() == given.len(),
            forall|k: int| 0 <= k < rest.len() ==> (#[trigger] rest@[k]).model() == given[k],
            forall|k: int|
                0 <= k < reversed.len() ==> (#[trigger] reversed@[k]).model() == given[given.len()
                    - 1 - k],
        decreases rest.len(),
    {
        match rest.pop() {
            Some(x) => {
                reversed.push(x);
            },
            None => {},
        }
    }
    let mut out: Vec<MirItem> = Vec::new();
    let mut done: usize = 0;
    assert(items_model(out@) =~= Seq::empty());
    while reversed.len() > 0
        invariant
            given.len() == total,
            done + reversed.len() == given.len(),
            forall|k: int|
                0 <= k < reversed.len() ==> (#[trigger] reversed@[k]).model() == given[given.len()
                    - 1 - k],
            items_model(out@) == sort_by_id_spec(given, done as nat),
            out.len() <= done,
        decreases reversed.len(),
    {
        match reversed.pop() {
            Some(x) => {
                assert(x.model() == given[done as int]);
                let mut p: usize = out.len();
                while p > 0 && str_lt(x.id.as_str(), out[p - 1].id.as_str())
                    invariant
                        p <= out.len(),
                        forall|k: int|
                            p <= k < out.len() ==> text_lt(x.id@, (#[trigger] out@[k]).id@),
                    decreases p,
                {
                    p -= 1;
                }
                proof {
                    lemma_insert_at(items_model(out@), x.model(), p as int);
                }
                let ghost before = items_model(out@);
                let ghost added = x.model();
                out.insert(p, x);
                assert(items_model(out@) =~= before.insert(p as int, added));
                done += 1;
            },
            None => {},
        }
    }
    out
}

} // verus!
