//! The largest element of a sequence.
use vstd::prelude::*;

verus! {

/// `m` is the largest value of `s`: it occurs in `s` and no element exceeds it.
pub open spec fn is_max_of(s: Seq<i32>, m: i32) -> bool {
    &&& s.contains(m)
    &&& forall|k: int| 0 <= k < s.len() ==> s[k] <= m
}

/// The largest element of `items`, or `None` when `items` is empty.
pub fn find_max(items: &[i32]) -> (r: Option<i32>)
    ensures
        r is None <==> items@.len() == 0,
        r matches Some(m) ==> is_max_of(items@, m),
{
    if items.len() == 0 {
        return None;
    }
    let mut best: i32 = items[0];
    let mut i: usize = 1;
    while i < items.len()
        invariant
            1 <= i <= items@.len(),
            exists|j: int| 0 <= j < i && items@[j] == best,
            forall|k: int| 0 <= k < i ==> items@[k] <= best,
        decreases items@.len() - i,
    {
        if items[i] > best {
            best = items[i];
        }
        i += 1;
    }
    assert(items@.contains(best)) by {
        let j = choose|j: int| 0 <= j < i && items@[j] == best;
        assert(items@[j] == best);
    }
    Some(best)
}

} // verus!
