//! Repository-relative paths, carried as vectors of path segments.
//!
//! A path's mathematical model is the sequence of its segments' character
//! sequences; no separator characters take part in the model.

use vstd::prelude::*;

verus! {

/// The model of a path: the sequence of its segments.
pub open spec fn path_view(p: Seq<String>) -> Seq<Seq<char>> {
    p.map_values(|s: String| s@)
}

/// Copies a path.
pub fn clone_path(p: &Vec<String>) -> (r: Vec<String>)
    ensures
        path_view(r@) == path_view(p@),
{
    let mut out: Vec<String> = Vec::new();
    let mut i: usize = 0;
    while i < p.len()
        invariant
            i <= p@.len(),
            out@.len() == i,
            forall|j: int| 0 <= j < i ==> out@[j]@ == p@[j]@,
        decreases p@.len() - i,
    {
        out.push(p[i].clone());
        i = i + 1;
    }
    proof {
        assert(path_view(out@) =~= path_view(p@));
    }
    out
}

/// Copies a path and appends one more segment.
pub fn path_push(p: &Vec<String>, segment: &String) -> (r: Vec<String>)
    ensures
        path_view(r@) == path_view(p@).push(segment@),
{
    let mut out = clone_path(p);
    out.push(segment.clone());
    proof {
        assert(path_view(out@) =~= path_view(p@).push(segment@));
    }
    out
}

/// Whether two paths denote the same sequence of segments.
pub fn paths_equal(a: &Vec<String>, b: &Vec<String>) -> (r: bool)
    ensures
        r == (path_view(a@) == path_view(b@)),
{
    if a.len() != b.len() {
        proof {
            assert(path_view(a@).len() != path_view(b@).len());
        }
        return false;
    }
    let mut i: usize = 0;
    while i < a.len()
        invariant
            i <= a@.len(),
            a@.len() == b@.len(),
            forall|j: int| 0 <= j < i ==> a@[j]@ == b@[j]@,
        decreases a@.len() - i,
    {
        if !(a[i] == b[i]) {
            proof {
                assert(path_view(a@)[i as int] != path_view(b@)[i as int]);
            }
            return false;
        }
        i = i + 1;
    }
    proof {
        assert(path_view(a@) =~= path_view(b@));
    }
    true
}

/// Whether `prefix` is a leading run of `p`'s segments.
pub fn path_has_prefix(p: &Vec<String>, prefix: &Vec<String>) -> (r: bool)
    ensures
        r == path_view(prefix@).is_prefix_of(path_view(p@)),
{
    if prefix.len() > p.len() {
        return false;
    }
    let mut i: usize = 0;
    while i < prefix.len()
        invariant
            i <= prefix@.len(),
            prefix@.len() <= p@.len(),
            forall|j: int| 0 <= j < i ==> prefix@[j]@ == p@[j]@,
        decreases prefix@.len() - i,
    {
        if !(prefix[i] == p[i]) {
            proof {
                assert(path_view(prefix@)[i as int] != path_view(p@).subrange(
                    0,
                    path_view(prefix@).len() as int,
                )[i as int]);
            }
            return false;
        }
        i = i + 1;
    }
    proof {
        assert(path_view(prefix@) =~= path_view(p@).subrange(
            0,
            path_view(prefix@).len() as int,
        ));
    }
    true
}

} // verus!
