//! Selection of mesh entities by tag.
use vstd::prelude::*;
use crate::Tag;

verus! {

/// Whether `t` is one of `tags`.
pub fn tag_in(tags: &Vec<Tag>, t: Tag) -> (r: bool)
    ensures
        r == tags@.contains(t),
{
    let mut k: usize = 0;
    while k < tags.len()
        invariant
            k <= tags@.len(),
            forall|m: int| 0 <= m < k ==> tags@[m] != t,
        decreases tags@.len() - k,
    {
        if tags[k] == t {
            return true;
        }
        k += 1;
    }
    false
}

} // verus!
