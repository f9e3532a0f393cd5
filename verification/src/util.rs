use vstd::prelude::*;

verus! {

/// A copy of a list of strings.
pub fn clone_strings(v: &Vec<String>) -> (r: Vec<String>)
    ensures
        r@ == v@,
{
    let r = v.clone();
    assert(r@ =~= v@);
    r
}

/// A copy of an optional string.
pub fn clone_opt_string(v: &Option<String>) -> (r: Option<String>)
    ensures
        r == *v,
{
    match v {
        Some(s) => Some(s.clone()),
        None => None,
    }
}

/// A copy of an optional list of strings.
pub fn clone_opt_strings(v: &Option<Vec<String>>) -> (r: Option<Vec<String>>)
    ensures
        opt_vec_view(r) == opt_vec_view(*v),
{
    match v {
        Some(s) => Some(clone_strings(s)),
        None => None,
    }
}

/// The view of an optional list of strings.
pub open spec fn opt_vec_view(v: Option<Vec<String>>) -> Option<Seq<String>> {
    match v {
        Some(x) => Some(x@),
        None => None,
    }
}

/// Keeps `old` where the update leaves a field unset (`COALESCE($n, col)`).
pub open spec fn coalesce<T>(new: Option<T>, old: T) -> T {
    match new {
        Some(v) => v,
        None => old,
    }
}

} // verus!

verus! {

/// Whether the identifier is in the list.
pub fn contains_id(ids: &Vec<u128>, id: u128) -> (r: bool)
    ensures
        r == ids@.contains(id),
{
    let mut i: usize = 0;
    while i < ids.len()
        invariant
            i <= ids@.len(),
            forall|j: int| 0 <= j < i ==> ids@[j] != id,
        decreases ids@.len() - i,
    {
        if ids[i] == id {
            return true;
        }
        i = i + 1;
    }
    false
}

} // verus!
