use crate::codegen::ir::hir::raw::Visibility;
use vstd::prelude::*;

verus! {

/// The place of a visibility in the order private, crate-local, public.
pub open spec fn rank(v: Visibility) -> nat {
    match v {
        Visibility::Private => 0,
        Visibility::CrateLocal => 1,
        Visibility::Public => 2,
    }
}

/// The lesser of two visibilities.
pub open spec fn meet_spec(a: Visibility, b: Visibility) -> Visibility {
    if rank(a) <= rank(b) {
        a
    } else {
        b
    }
}

/// The least visibility of `chain`; public where the chain is empty.
pub open spec fn meet_all(chain: Seq<Visibility>) -> Visibility
    decreases chain.len(),
{
    if chain.len() == 0 {
        Visibility::Public
    } else {
        meet_spec(meet_all(chain.drop_last()), chain.last())
    }
}

/// How far a declaration is seen that is declared `own` inside modules declared
/// `enclosing`, outermost first: the least of them all.
pub open spec fn effective_visibility(own: Visibility, enclosing: Seq<Visibility>) -> Visibility {
    meet_spec(own, meet_all(enclosing))
}

/// The lesser of two visibilities.
pub fn meet(a: Visibility, b: Visibility) -> (r: Visibility)
    ensures
        r == meet_spec(a, b),
{
    match a {
        Visibility::Private => Visibility::Private,
        Visibility::CrateLocal => match b {
            Visibility::Private => Visibility::Private,
            _ => Visibility::CrateLocal,
        },
        Visibility::Public => b,
    }
}

/// The least visibility of a chain is no greater than any member of it.
pub proof fn lemma_meet_all_is_lower_bound(chain: Seq<Visibility>, i: int)
    requires
        0 <= i < chain.len(),
    ensures
        rank(meet_all(chain)) <= rank(chain[i]),
    decreases chain.len(),
{
    if i < chain.len() - 1 {
        lemma_meet_all_is_lower_bound(chain.drop_last(), i);
    }
}

/// The least visibility of a non-empty chain is that of one of its members.
pub proof fn lemma_meet_all_is_attained(chain: Seq<Visibility>) -> (i: int)
    requires
        chain.len() > 0,
    ensures
        0 <= i < chain.len(),
        meet_all(chain) == chain[i],
    decreases chain.len(),
{
    if chain.len() == 1 {
        assert(meet_all(chain.drop_last()) == Visibility::Public);
        0
    } else if rank(meet_all(chain.drop_last())) <= rank(chain.last()) {
        lemma_meet_all_is_attained(chain.drop_last())
    } else {
        chain.len() - 1
    }
}

/// The visibility in effect is the minimum of the declaration's own and those of
/// all enclosing modules: it is no greater than any of them, and it is one of
/// them.
pub proof fn lemma_effective_visibility_is_minimum(own: Visibility, enclosing: Seq<Visibility>)
    ensures
        rank(effective_visibility(own, enclosing)) <= rank(own),
        forall|i: int|
            0 <= i < enclosing.len() ==> rank(effective_visibility(own, enclosing)) <= rank(
                #[trigger] enclosing[i],
            ),
        effective_visibility(own, enclosing) == own || exists|i: int|
            0 <= i < enclosing.len() && effective_visibility(own, enclosing) == enclosing[i],
{
    assert forall|i: int| 0 <= i < enclosing.len() implies rank(
        effective_visibility(own, enclosing),
    ) <= rank(#[trigger] enclosing[i]) by {
        lemma_meet_all_is_lower_bound(enclosing, i);
    }
    if enclosing.len() > 0 {
        let i = lemma_meet_all_is_attained(enclosing);
    }
}

/// What is declared private is seen as private, whatever encloses it; and what
/// stands inside a private module is seen as private, whatever it is declared.
pub proof fn lemma_private_stays_private(own: Visibility, enclosing: Seq<Visibility>)
    requires
        own == Visibility::Private || exists|i: int|
            0 <= i < enclosing.len() && enclosing[i] == Visibility::Private,
    ensures
        effective_visibility(own, enclosing) == Visibility::Private,
{
    lemma_effective_visibility_is_minimum(own, enclosing);
}

} // verus!
