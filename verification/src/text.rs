use itertools::Itertools;
use vstd::prelude::*;
use vstd::string::*;

verus! {

/// The views of the strings of a sequence, in order.
pub open spec fn views(v: Seq<String>) -> Seq<Seq<char>> {
    Seq::new(v.len(), |i: int| v[i]@)
}

/// The pieces of `parts` written one after another, with `sep` between neighbours.
pub open spec fn join_spec(parts: Seq<Seq<char>>, sep: Seq<char>) -> Seq<char>
    decreases parts.len(),
{
    if parts.len() == 0 {
        Seq::empty()
    } else if parts.len() == 1 {
        parts[0]
    } else {
        join_spec(parts.drop_last(), sep) + sep + parts.last()
    }
}

/// Whether `needle` occurs in `haystack` as a contiguous run of characters.
pub open spec fn contains_text(haystack: Seq<char>, needle: Seq<char>) -> bool {
    exists|i: int|
        0 <= i && i + needle.len() <= haystack.len() && #[trigger] haystack.subrange(
            i,
            i + needle.len(),
        ) == needle
}

/// Whether `a` comes before `b` in the order of the dictionary, where
/// characters are ordered by their code points.
pub open spec fn text_lt(a: Seq<char>, b: Seq<char>) -> bool
    decreases a.len(),
{
    if b.len() == 0 {
        false
    } else if a.len() == 0 {
        true
    } else if a[0] == b[0] {
        text_lt(a.drop_first(), b.drop_first())
    } else {
        (a[0] as int) < (b[0] as int)
    }
}

/// Of two texts, at most one comes before the other.
pub proof fn lemma_text_lt_is_asymmetric(a: Seq<char>, b: Seq<char>)
    requires
        text_lt(a, b),
    ensures
        !text_lt(b, a),
    decreases a.len(),
{
    if a.len() > 0 && b.len() > 0 && a[0] == b[0] {
        lemma_text_lt_is_asymmetric(a.drop_first(), b.drop_first());
    }
}

/// A text that comes before another comes before any third text, or the third
/// comes before the other.
pub proof fn lemma_text_lt_is_cotransitive(a: Seq<char>, b: Seq<char>, c: Seq<char>)
    requires
        text_lt(a, b),
    ensures
        text_lt(a, c) || text_lt(c, b),
    decreases a.len(),
{
    if c.len() == 0 {
        assert(text_lt(c, b));
    } else if a.len() == 0 {
        assert(text_lt(a, c));
    } else {
        let x = a[0] as int;
        let y = b[0] as int;
        let z = c[0] as int;
        if a[0] == b[0] {
            if c[0] == a[0] {
                lemma_text_lt_is_cotransitive(a.drop_first(), b.drop_first(), c.drop_first());
            } else if x < z {
                assert(text_lt(a, c));
            } else {
                assert(z < y);
                assert(text_lt(c, b));
            }
        } else {
            assert(x < y);
            if c[0] == a[0] {
                assert(text_lt(c, b));
            } else if x < z {
                assert(text_lt(a, c));
            } else {
                assert(z < y);
                assert(text_lt(c, b));
            }
        }
    }
}

/// Two texts of which neither comes before the other are the same text.
pub proof fn lemma_text_lt_is_connected(a: Seq<char>, b: Seq<char>)
    requires
        !text_lt(a, b),
        !text_lt(b, a),
    ensures
        a == b,
    decreases a.len(),
{
    if a.len() > 0 && b.len() > 0 {
        if a[0] != b[0] {
            assert((a[0] as int) != (b[0] as int));
            assert(text_lt(a, b) || text_lt(b, a));
        }
        lemma_text_lt_is_connected(a.drop_first(), b.drop_first());
        assert(a =~= seq![a[0]] + a.drop_first());
        assert(b =~= seq![b[0]] + b.drop_first());
    } else {
        assert(a =~= b);
    }
}

/// The character that writes the decimal digit `d`.
pub open spec fn digit_char(d: nat) -> char {
    if d == 0 {
        '0'
    } else if d == 1 {
        '1'
    } else if d == 2 {
        '2'
    } else if d == 3 {
        '3'
    } else if d == 4 {
        '4'
    } else if d == 5 {
        '5'
    } else if d == 6 {
        '6'
    } else if d == 7 {
        '7'
    } else if d == 8 {
        '8'
    } else {
        '9'
    }
}

/// The decimal notation of `n`, without sign or leading zeros.
pub open spec fn decimal_spec(n: nat) -> Seq<char>
    decreases n,
{
    if n < 10 {
        seq![digit_char(n)]
    } else {
        decimal_spec(n / 10).push(digit_char(n % 10))
    }
}

/// What `std`'s `Debug` formatting writes for a path that holds the given text:
/// the text between double quotes, with the characters that `Debug` escapes
/// written as escapes.
pub uninterp spec fn path_debug_form(text: Seq<char>) -> Seq<char>;

/// What `String::from_utf8_lossy` makes of the given bytes: their decoding as
/// UTF-8, with each invalid sequence replaced by U+FFFD.
pub uninterp spec fn utf8_lossy_form(bytes: Seq<u8>) -> Seq<char>;

/// Calls `Itertools::join` on the strings of `parts`. The crate writes the first
/// item and then, for every further item, the separator and the item; an item
/// is written by its `Display` form, which for a string is the string itself.
#[verifier::external_body]
pub(crate) fn join_strings(parts: &Vec<String>, sep: &str) -> (r: String)
    ensures
        r@ == join_spec(views(parts@), sep@),
{
    parts.iter().join(sep)
}

/// Compares two string slices with `str`'s `==`, which holds exactly when both
/// hold the same characters.
#[verifier::external_body]
pub(crate) fn str_eq(a: &str, b: &str) -> (r: bool)
    ensures
        r == (a@ == b@),
{
    a == b
}

/// Compares two string slices with `str`'s `<`, which orders strings byte by
/// byte; on UTF-8 that is the order of the code points, character by character,
/// with a proper prefix before what it is a prefix of.
#[verifier::external_body]
pub(crate) fn str_lt(a: &str, b: &str) -> (r: bool)
    ensures
        r == text_lt(a@, b@),
{
    a < b
}

/// Calls `str::contains` with a string pattern, which says whether the pattern
/// matches a sub-slice of the text.
#[verifier::external_body]
pub(crate) fn str_contains(haystack: &str, needle: &str) -> (r: bool)
    ensures
        r == contains_text(haystack@, needle@),
{
    haystack.contains(needle)
}

/// Formats `std::path::Path::new(text)` with `{:?}`. Nothing is claimed of the
/// result but that it is the same for the same text.
#[verifier::external_body]
pub(crate) fn path_debug(text: &str) -> (r: String)
    ensures
        r@ == path_debug_form(text@),
{
    format!("{:?}", std::path::Path::new(text))
}

/// Calls `String::from_utf8_lossy` and owns the result. Nothing is claimed of the
/// result but that it is the same for the same bytes.
#[verifier::external_body]
pub(crate) fn utf8_lossy(bytes: &Vec<u8>) -> (r: String)
    ensures
        r@ == utf8_lossy_form(bytes@),
{
    String::from_utf8_lossy(bytes).into_owned()
}

fn digit_text(d: u64) -> (r: &'static str)
    requires
        d < 10,
    ensures
        r@ == seq![digit_char(d as nat)],
{
    proof {
        reveal_strlit("0");
        reveal_strlit("1");
        reveal_strlit("2");
        reveal_strlit("3");
        reveal_strlit("4");
        reveal_strlit("5");
        reveal_strlit("6");
        reveal_strlit("7");
        reveal_strlit("8");
        reveal_strlit("9");
    }
    let r = if d == 0 {
        "0"
    } else if d == 1 {
        "1"
    } else if d == 2 {
        "2"
    } else if d == 3 {
        "3"
    } else if d == 4 {
        "4"
    } else if d == 5 {
        "5"
    } else if d == 6 {
        "6"
    } else if d == 7 {
        "7"
    } else if d == 8 {
        "8"
    } else {
        "9"
    };
    assert(r@ =~= seq![digit_char(d as nat)]);
    r
}

/// Writes `n` in decimal notation.
pub fn decimal(n: u64) -> (r: String)
    ensures
        r@ == decimal_spec(n as nat),
    decreases n,
{
    if n < 10 {
        digit_text(n).to_string()
    } else {
        let mut s = decimal(n / 10);
        s.append(digit_text(n % 10));
        assert(s@ =~= decimal_spec(n as nat));
        s
    }
}

/// The strings of `a` followed by those of `b`.
pub fn concat_strings(a: &Vec<String>, b: &[String]) -> (r: Vec<String>)
    ensures
        views(r@) == views(a@) + views(b@),
{
    let mut out: Vec<String> = Vec::new();
    let mut i: usize = 0;
    while i < a.len()
        invariant
            i <= a.len(),
            out.len() == i,
            forall|k: int| 0 <= k < i ==> out@[k]@ == a@[k]@,
        decreases a.len() - i,
    {
        out.push(a[i].clone());
        i += 1;
    }
    let mut j: usize = 0;
    while j < b.len()
        invariant
            j <= b.len(),
            out.len() == a.len() + j,
            forall|k: int| 0 <= k < a.len() ==> out@[k]@ == a@[k]@,
            forall|k: int| 0 <= k < j ==> out@[a.len() + k]@ == b@[k]@,
        decreases b.len() - j,
    {
        out.push(b[j].clone());
        j += 1;
    }
    assert(views(out@) =~= views(a@) + views(b@));
    out
}

} // verus!
