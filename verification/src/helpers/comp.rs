use crate::helpers::text::{before_first, same_text, text_before};
use vstd::prelude::*;

verus! {

/// The sum of a sequence of counts.
pub open spec fn sum_of(numbers: Seq<usize>) -> int
    decreases numbers.len(),
{
    if numbers.len() == 0 {
        0
    } else {
        sum_of(numbers.drop_last()) + numbers.last()
    }
}

proof fn lemma_sum_prefix_bounded(numbers: Seq<usize>, i: int)
    requires
        0 <= i <= numbers.len(),
    ensures
        0 <= sum_of(numbers.take(i)) <= sum_of(numbers),
    decreases numbers.len() - i,
{
    if i < numbers.len() {
        lemma_sum_prefix_bounded(numbers, i + 1);
        assert(numbers.take(i + 1).drop_last() =~= numbers.take(i));
    } else {
        assert(numbers.take(i) =~= numbers);
    }
    lemma_sum_nonnegative(numbers.take(i));
}

proof fn lemma_sum_nonnegative(numbers: Seq<usize>)
    ensures
        sum_of(numbers) >= 0,
    decreases numbers.len(),
{
    if numbers.len() > 0 {
        lemma_sum_nonnegative(numbers.drop_last());
    }
}

/// The average of the counts, rounded down; 0 for no counts.
pub fn average_usize(numbers: &Vec<usize>) -> (res: usize)
    requires
        sum_of(numbers@) <= usize::MAX,
    ensures
        numbers.len() == 0 ==> res == 0,
        numbers.len() > 0 ==> res == sum_of(numbers@) / numbers.len() as int,
{
    if numbers.len() == 0 {
        0
    } else {
        let mut sum: usize = 0;
        let mut i: usize = 0;
        while i < numbers.len()
            invariant
                i <= numbers.len(),
                sum == sum_of(numbers@.take(i as int)),
                sum_of(numbers@) <= usize::MAX,
            decreases numbers.len() - i,
        {
            proof {
                lemma_sum_prefix_bounded(numbers@, i + 1);
                assert(numbers@.take(i + 1).drop_last() =~= numbers@.take(i as int));
            }
            sum = sum + numbers[i];
            i = i + 1;
        }
        assert(numbers@.take(i as int) =~= numbers@);
        sum / numbers.len()
    }
}

/// Whether the part of `symbol` before its first `_` is one of `symbols`.
pub open spec fn spec_symbol_in_list(symbol: Seq<char>, symbols: Seq<String>) -> bool {
    exists|i: int| 0 <= i < symbols.len() && symbols[i]@ == before_first(symbol, '_')
}

/// Whether the base of `symbol` (its part before the first `_`) is one of `sp_symbols`.
pub fn symbol_in_list(symbol: &str, sp_symbols: &Vec<String>) -> (res: bool)
    ensures
        res == spec_symbol_in_list(symbol@, sp_symbols@),
{
    let compare = text_before(symbol, '_');
    let mut i: usize = 0;
    while i < sp_symbols.len()
        invariant
            i <= sp_symbols.len(),
            compare@ == before_first(symbol@, '_'),
            forall|j: int| 0 <= j < i ==> sp_symbols@[j]@ != compare@,
        decreases sp_symbols.len() - i,
    {
        if same_text(compare, sp_symbols[i].as_str()) {
            return true;
        }
        i = i + 1;
    }
    false
}

} // verus!
