use crate::text::{decimal, decimal_spec, digit_char, views};
use vstd::prelude::*;
use vstd::string::*;

verus! {

/// One segment of a path as it stands in an identifier: its length in decimal,
/// an underscore, and the segment.
pub open spec fn segment_code(segment: Seq<char>) -> Seq<char> {
    decimal_spec(segment.len()) + seq!['_'] + segment
}

/// The identifier of the item at `path`: the codes of the segments of the path,
/// one after another. It depends on the path alone.
pub open spec fn stable_id_spec(path: Seq<Seq<char>>) -> Seq<char>
    decreases path.len(),
{
    if path.len() == 0 {
        Seq::empty()
    } else {
        segment_code(path[0]) + stable_id_spec(path.drop_first())
    }
}

proof fn lemma_stable_id_push(path: Seq<Seq<char>>, segment: Seq<char>)
    ensures
        stable_id_spec(path.push(segment)) == stable_id_spec(path) + segment_code(segment),
    decreases path.len(),
{
    if path.len() == 0 {
        let one = path.push(segment);
        assert(one[0] == segment);
        assert(one.drop_first() =~= Seq::<Seq<char>>::empty());
        assert(stable_id_spec(one.drop_first()) =~= Seq::<char>::empty());
        assert(stable_id_spec(one) == segment_code(one[0]) + stable_id_spec(one.drop_first()));
        assert(stable_id_spec(one) =~= segment_code(segment));
        assert(stable_id_spec(path) + segment_code(segment) =~= segment_code(segment));
    } else {
        lemma_stable_id_push(path.drop_first(), segment);
        assert(path.push(segment).drop_first() =~= path.drop_first().push(segment));
        assert(path.push(segment)[0] == path[0]);
        assert(stable_id_spec(path.push(segment)) =~= stable_id_spec(path) + segment_code(
            segment,
        ));
    }
}

/// The decimal notation of a number is made of digits, and of one at least.
pub proof fn lemma_decimal_is_digits(n: nat)
    ensures
        decimal_spec(n).len() >= 1,
        forall|i: int| 0 <= i < decimal_spec(n).len() ==> decimal_spec(n)[i] != '_',
    decreases n,
{
    if n >= 10 {
        lemma_decimal_is_digits(n / 10);
    }
}

/// Two numbers with the same decimal notation are the same number.
pub proof fn lemma_decimal_is_injective(a: nat, b: nat)
    requires
        decimal_spec(a) == decimal_spec(b),
    ensures
        a == b,
    decreases a,
{
    lemma_decimal_is_digits(a / 10);
    lemma_decimal_is_digits(b / 10);
    if a < 10 {
        assert(decimal_spec(a).len() == 1);
        assert(b < 10);
        assert(decimal_spec(a)[0] == digit_char(a));
        assert(decimal_spec(b)[0] == digit_char(b));
    } else {
        assert(decimal_spec(a).len() >= 2);
        assert(b >= 10);
        let x = decimal_spec(a / 10);
        let y = decimal_spec(b / 10);
        assert(x.push(digit_char(a % 10)).drop_last() =~= x);
        assert(y.push(digit_char(b % 10)).drop_last() =~= y);
        assert(x.push(digit_char(a % 10)).last() == digit_char(a % 10));
        assert(y.push(digit_char(b % 10)).last() == digit_char(b % 10));
        lemma_decimal_is_injective(a / 10, b / 10);
    }
}

/// The code of a segment can be read off the front of a text in one way only.
proof fn lemma_code_is_prefix_free(a: Seq<char>, x: Seq<char>, b: Seq<char>, y: Seq<char>)
    requires
        segment_code(a) + x == segment_code(b) + y,
    ensures
        a == b,
        x == y,
{
    let w = segment_code(a) + x;
    let da = decimal_spec(a.len());
    let db = decimal_spec(b.len());
    lemma_decimal_is_digits(a.len());
    lemma_decimal_is_digits(b.len());
    assert(w[da.len() as int] == '_');
    assert((segment_code(b) + y)[db.len() as int] == '_');
    assert forall|i: int| 0 <= i < da.len() implies w[i] != '_' by {
        assert(w[i] == da[i]);
    }
    assert forall|i: int| 0 <= i < db.len() implies w[i] != '_' by {
        assert((segment_code(b) + y)[i] == db[i]);
    }
    assert(da.len() == db.len());
    assert(da =~= db) by {
        assert forall|i: int| 0 <= i < da.len() implies da[i] == db[i] by {
            assert(w[i] == da[i]);
            assert((segment_code(b) + y)[i] == db[i]);
        }
    }
    lemma_decimal_is_injective(a.len(), b.len());
    let start = da.len() + 1;
    assert(a =~= b) by {
        assert forall|i: int| 0 <= i < a.len() implies a[i] == b[i] by {
            assert(w[start + i] == a[i]);
            assert((segment_code(b) + y)[start + i] == b[i]);
        }
    }
    assert(x =~= y) by {
        assert(x.len() == y.len()) by {
            assert(w.len() == start + a.len() + x.len());
            assert((segment_code(b) + y).len() == start + b.len() + y.len());
        }
        assert forall|i: int| 0 <= i < x.len() implies x[i] == y[i] by {
            assert(w[start + a.len() + i] == x[i]);
            assert((segment_code(b) + y)[start + b.len() + i] == y[i]);
        }
    }
}

/// Different paths have different identifiers: an identifier names one item
/// and no other.
pub proof fn lemma_stable_id_is_injective(p: Seq<Seq<char>>, q: Seq<Seq<char>>)
    requires
        stable_id_spec(p) == stable_id_spec(q),
    ensures
        p == q,
    decreases p.len(),
{
    if p.len() == 0 {
        if q.len() > 0 {
            lemma_decimal_is_digits(q[0].len());
            assert(stable_id_spec(q).len() > 0);
        }
        assert(p =~= q);
    } else {
        if q.len() == 0 {
            lemma_decimal_is_digits(p[0].len());
            assert(stable_id_spec(p).len() > 0);
        } else {
            lemma_code_is_prefix_free(
                p[0],
                stable_id_spec(p.drop_first()),
                q[0],
                stable_id_spec(q.drop_first()),
            );
            lemma_stable_id_is_injective(p.drop_first(), q.drop_first());
            assert(p =~= seq![p[0]] + p.drop_first());
            assert(q =~= seq![q[0]] + q.drop_first());
        }
    }
}

/// The identifier of the item at `path`.
pub fn stable_id(path: &Vec<String>) -> (r: String)
    ensures
        r@ == stable_id_spec(views(path@)),
{
    let mut out = String::new();
    let mut i: usize = 0;
    assert(views(path@).take(0) =~= Seq::<Seq<char>>::empty());
    while i < path.len()
        invariant
            i <= path.len(),
            out@ == stable_id_spec(views(path@).take(i as int)),
        decreases path.len() - i,
    {
        let segment = path[i].as_str();
        let n = segment.unicode_len();
        let digits = decimal(n as u64);
        proof {
            reveal_strlit("_");
            assert(views(path@).take(i + 1) =~= views(path@).take(i as int).push(segment@));
            lemma_stable_id_push(views(path@).take(i as int), segment@);
            assert("_"@ =~= seq!['_']);
        }
        out.append(digits.as_str());
        out.append("_");
        out.append(segment);
        assert(out@ =~= stable_id_spec(views(path@).take(i as int)) + segment_code(segment@));
        i += 1;
    }
    assert(views(path@).take(path.len() as int) =~= views(path@));
    out
}

} // verus!
