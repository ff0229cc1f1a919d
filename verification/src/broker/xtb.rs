use crate::error::Result;
use crate::helpers::text::{before_first, text_before};
use vstd::prelude::*;

verus! {

/// The base of a broker symbol: its part before the first `_`, or all of it.
pub fn parse_symbol(symbol: &String) -> (res: Result<String>)
    ensures
        res matches Ok(s) && s@ == before_first(symbol@, '_'),
{
    Ok(text_before(symbol.as_str(), '_').to_owned())
}

} // verus!
