use vstd::prelude::*;

verus! {

/// `index` is the first position at which `keys` attains its maximum: no key
/// exceeds the key at `index`, and every key before it is strictly smaller.
pub open spec fn is_first_maximum(keys: Seq<u64>, index: int) -> bool {
    &&& 0 <= index < keys.len()
    &&& forall|j: int| 0 <= j < keys.len() ==> keys[j] <= keys[index]
    &&& forall|j: int| 0 <= j < index ==> keys[j] < keys[index]
}

/// Return the first position of the largest key, or `None` for no keys.
///
/// A later key replaces the current best only when it is strictly larger, so
/// ties are resolved deterministically in favour of the earliest position.
pub fn first_maximum(keys: &[u64]) -> (best: Option<usize>)
    ensures
        best is None <==> keys@.len() == 0,
        best matches Some(index) ==> is_first_maximum(keys@, index as int),
{
    if keys.len() == 0 {
        return None;
    }
    let mut best: usize = 0;
    let mut index: usize = 1;
    while index < keys.len()
        invariant
            0 < index <= keys.len(),
            best < index,
            forall|j: int| 0 <= j < index ==> keys@[j] <= keys@[best as int],
            forall|j: int| 0 <= j < best ==> keys@[j] < keys@[best as int],
        decreases keys.len() - index,
    {
        if keys[index] > keys[best] {
            best = index;
        }
        index = index + 1;
    }
    Some(best)
}

/// At most one position is the first maximum of a sequence of keys.
pub proof fn lemma_first_maximum_unique(keys: Seq<u64>, first: int, second: int)
    requires
        is_first_maximum(keys, first),
        is_first_maximum(keys, second),
    ensures
        first == second,
{
    if first < second {
        assert(keys[first] < keys[second]);
        assert(keys[second] <= keys[first]);
    } else if second < first {
        assert(keys[second] < keys[first]);
        assert(keys[first] <= keys[second]);
    }
}

} // verus!
