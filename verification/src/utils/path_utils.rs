use vstd::prelude::*;
use vstd::string::*;

verus! {

/// The four characters `\\?\` with which Windows marks a verbatim path.
pub open spec fn unc_prefix() -> Seq<char> {
    seq!['\\', '\\', '?', '\\']
}

/// `path` without a leading verbatim marker; any other path unchanged.
pub open spec fn normalize_unc_spec(path: Seq<char>) -> Seq<char> {
    if path.len() >= 4 && path.subrange(0, 4) == unc_prefix() {
        path.subrange(4, path.len() as int)
    } else {
        path
    }
}

/// Each path of `paths` without its leading verbatim marker.
pub open spec fn normalize_all_spec(paths: Seq<Seq<char>>) -> Seq<Seq<char>> {
    Seq::new(paths.len(), |i: int| normalize_unc_spec(paths[i]))
}

/// Strips the verbatim marker `\\?\` from the front of a path, so that tools
/// which do not understand it are handed an ordinary path.
pub fn normalize_windows_unc_path<'a>(path: &'a str) -> (r: &'a str)
    ensures
        r@ == normalize_unc_spec(path@),
{
    let n = path.unicode_len();
    if n >= 4 && path.get_char(0) == '\\' && path.get_char(1) == '\\' && path.get_char(2) == '?'
        && path.get_char(3) == '\\' {
        assert(path@.subrange(0, 4) =~= unc_prefix());
        path.substring_char(4, n)
    } else {
        proof {
            if path@.len() >= 4 {
                let p = path@.subrange(0, 4);
                assert(p[0] == path@[0] && p[1] == path@[1] && p[2] == path@[2] && p[3]
                    == path@[3]);
                assert(unc_prefix()[0] == '\\' && unc_prefix()[1] == '\\' && unc_prefix()[2] == '?'
                    && unc_prefix()[3] == '\\');
            }
        }
        path
    }
}

} // verus!
