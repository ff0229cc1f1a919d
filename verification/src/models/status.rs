use vstd::prelude::*;

verus! {

/// Reading of an indicator, a pattern or a candle.
#[derive(Debug, Clone, Copy, PartialEq, Eq, Structural)]
pub enum Status {
    Bullish,
    Bearish,
    Neutral,
    ChangeUp,
    ChangeDown,
    Default,
}

impl Status {
    /// A fresh status: neutral.
    pub fn new() -> (res: Self)
        ensures
            res is Neutral,
    {
        Status::Neutral
    }
}

impl Default for Status {
    fn default() -> (res: Self)
        ensures
            res is Neutral,
    {
        Self::new()
    }
}

} // verus!
