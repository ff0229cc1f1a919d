use vstd::prelude::*;

verus! {

/// Shape of a candle.
#[derive(Debug, Clone, Copy, PartialEq, Eq, Structural)]
pub enum CandleType {
    Default,
    Doji,
    Karakasa,
    BearishKarakasa,
    Marubozu,
    BearishMarubozu,
    Harami,
    BearishHarami,
    BearishStar,
    Engulfing,
    MorningStar,
    BearishEngulfing,
    HangingMan,
    BullishCrows,
    BearishCrows,
    BullishGap,
    BearishGap,
}

} // verus!
