use crate::text::{str_eq, views};
use vstd::prelude::*;
use vstd::string::*;

verus! {

/// All segments of a path but the last; nothing for the empty path.
pub open spec fn parent_spec(path: Seq<Seq<char>>) -> Seq<Seq<char>> {
    if path.len() == 0 {
        Seq::empty()
    } else {
        path.drop_last()
    }
}

/// The last segment of a path; nothing for the empty path.
pub open spec fn last_segment_spec(path: Seq<Seq<char>>) -> Seq<char> {
    if path.len() == 0 {
        Seq::empty()
    } else {
        path.last()
    }
}


/// Whether two paths hold the same segments.
pub fn path_eq(a: &Vec<String>, b: &Vec<String>) -> (r: bool)
    ensures
        r == (views(a@) == views(b@)),
{
    if a.len() != b.len() {
        assert(views(a@).len() != views(b@).len());
        return false;
    }
    let mut i: usize = 0;
    while i < a.len()
        invariant
            i <= a.len(),
            a.len() == b.len(),
            forall|k: int| 0 <= k < i ==> a@[k]@ == b@[k]@,
        decreases a.len() - i,
    {
        if !str_eq(a[i].as_str(), b[i].as_str()) {
            assert(views(a@)[i as int] != views(b@)[i as int]);
            return false;
        }
        i += 1;
    }
    assert(views(a@) =~= views(b@));
    true
}

/// A copy of `path`.
pub fn clone_path(path: &Vec<String>) -> (r: Vec<String>)
    ensures
        views(r@) == views(path@),
{
    let mut out: Vec<String> = Vec::new();
    let mut i: usize = 0;
    while i < path.len()
        invariant
            i <= path.len(),
            out.len() == i,
            forall|k: int| 0 <= k < i ==> out@[k]@ == path@[k]@,
        decreases path.len() - i,
    {
        out.push(path[i].clone());
        i += 1;
    }
    assert(views(out@) =~= views(path@));
    out
}

/// The path that names `name` below `path`.
pub fn child_path(path: &Vec<String>, name: &str) -> (r: Vec<String>)
    ensures
        views(r@) == views(path@).push(name@),
{
    let mut out = clone_path(path);
    out.push(name.to_string());
    assert(views(out@) =~= views(path@).push(name@));
    out
}

/// The last segment of a path.
pub fn last_segment(path: &Vec<String>) -> (r: String)
    ensures
        r@ == last_segment_spec(views(path@)),
{
    if path.len() == 0 {
        String::new()
    } else {
        path[path.len() - 1].clone()
    }
}

/// All segments of a path but the last.
pub fn parent_path(path: &Vec<String>) -> (r: Vec<String>)
    ensures
        views(r@) == parent_spec(views(path@)),
{
    let mut out: Vec<String> = Vec::new();
    if path.len() == 0 {
        assert(views(out@) =~= Seq::<Seq<char>>::empty());
        return out;
    }
    let mut i: usize = 0;
    while i < path.len() - 1
        invariant
            path.len() > 0,
            i <= path.len() - 1,
            out.len() == i,
            forall|k: int| 0 <= k < i ==> out@[k]@ == path@[k]@,
        decreases path.len() - i,
    {
        out.push(path[i].clone());
        i += 1;
    }
    assert(views(out@) =~= views(path@).drop_last());
    out
}

} // verus!
