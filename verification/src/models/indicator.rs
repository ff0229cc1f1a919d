use vstd::prelude::*;

verus! {

/// Indicator in which a divergence was found.
#[derive(Debug, Clone, Copy, PartialEq, Eq, Structural)]
pub enum IndicatorType {
    Macd,
    Stoch,
    Rsi,
}

} // verus!
