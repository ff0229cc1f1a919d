use vstd::prelude::*;

verus! {

/// The index before `index`, or `index` itself at the start.
pub fn get_prev_index(index: usize) -> (res: usize)
    ensures
        res == if index > 0 { index - 1 } else { index as int },
{
    if index > 0 {
        index - 1
    } else {
        index
    }
}

/// The previous index never lies after the index, and only the first index is its own
/// previous index.
pub proof fn lemma_prev_index(index: usize)
    ensures
        (if index > 0 { index - 1 } else { index as int }) <= index,
        ((if index > 0 { index - 1 } else { index as int }) == index) <==> index == 0,
{
}

} // verus!
