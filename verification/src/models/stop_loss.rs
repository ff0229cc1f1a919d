use vstd::prelude::*;

verus! {

/// How the target price of a stop loss is set, with its parameter: a multiple of the ATR,
/// a fixed price, a distance in pips, or no stop (`None` in the wire format). `P` is the
/// type of prices.
#[derive(Debug, Clone, Copy)]
pub enum StopLossType<P> {
    Atr(P),
    Price(P),
    Pips(P),
    NoStop,
}

/// A stop loss: its kind, price and parameter, and when it was created, last updated and
/// until when it holds. `P` is the type of prices and `D` that of stored dates.
#[derive(Debug, Clone, Copy)]
pub struct StopLoss<P, D> {
    pub stop_type: StopLossType<P>,
    pub price: P,
    pub value: P,
    pub created_at: D,
    pub updated_at: D,
    pub valid_until: D,
}

} // verus!
