use crate::helpers::comp::{spec_symbol_in_list, symbol_in_list};
use vstd::prelude::*;

verus! {

/// Whether the base of `symbol` (its part before the first `_`) is one of the forex
/// symbols `sp_symbols`.
pub fn is_in_forex(symbol: &str, sp_symbols: &Vec<String>) -> (res: bool)
    ensures
        res == spec_symbol_in_list(symbol@, sp_symbols@),
{
    symbol_in_list(symbol, sp_symbols)
}

} // verus!
