//! Ascending lists of identifiers.

use vstd::prelude::*;

use crate::ext::Uuid;

verus! {

/// Each identifier is smaller than those after it.
pub open spec fn ascending(ids: Seq<Uuid>) -> bool {
    forall|i: int, j: int| 0 <= i < j < ids.len() ==> ids[i] < ids[j]
}

/// Puts a new identifier in its place.
pub fn insert_ascending(ids: &mut Vec<Uuid>, id: Uuid)
    requires
        ascending(old(ids)@),
        !old(ids)@.contains(id),
    ensures
        ascending(final(ids)@),
        forall|k: Uuid| #[trigger] final(ids)@.contains(k) <==> old(ids)@.contains(k) || k == id,
{
    let mut at: usize = ids.len();
    while at > 0 && ids[at - 1] > id
        invariant
            at <= ids.len(),
            ascending(ids@),
            forall|i: int| at <= i < ids.len() ==> id < ids[i],
        decreases at,
    {
        at = at - 1;
    }
    let ghost before = ids@;
    assert(at > 0 ==> before[at - 1] != id);
    ids.insert(at, id);
    assert forall|k: Uuid| #[trigger] ids@.contains(k) <==> before.contains(k) || k == id by {
        if ids@.contains(k) {
            let i = choose|i: int| 0 <= i < ids@.len() && ids@[i] == k;
            if i < at {
                assert(before[i] == k);
            } else if i > at {
                assert(before[i - 1] == k);
            }
        }
        if before.contains(k) {
            let i = choose|i: int| 0 <= i < before.len() && before[i] == k;
            if i < at {
                assert(ids@[i] == k);
            } else {
                assert(ids@[i + 1] == k);
            }
        }
        if k == id {
            assert(ids@[at as int] == k);
        }
    }
}

} // verus!
