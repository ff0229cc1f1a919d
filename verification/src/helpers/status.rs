use crate::models::candle::CandleType;
use crate::models::divergence::DivergenceType;
use crate::models::status::Status;
use vstd::prelude::*;

verus! {

/// The reading of a candle shape: bullish for karakasa, engulfing, morning star and bullish
/// gap, bearish for their bearish counterparts and the bearish star, default otherwise.
pub open spec fn spec_candle_status(candle: CandleType) -> Status {
    match candle {
        CandleType::Karakasa => Status::Bullish,
        CandleType::Engulfing => Status::Bullish,
        CandleType::MorningStar => Status::Bullish,
        CandleType::BullishGap => Status::Bullish,
        CandleType::BearishKarakasa => Status::Bearish,
        CandleType::BearishGap => Status::Bearish,
        CandleType::BearishStar => Status::Bearish,
        CandleType::BearishEngulfing => Status::Bearish,
        _ => Status::Default,
    }
}

/// The reading of a candle shape (see `spec_candle_status`).
pub fn get_candle_status(candle: &CandleType) -> (res: Status)
    ensures
        res == spec_candle_status(*candle),
{
    match candle {
        CandleType::Karakasa => Status::Bullish,
        CandleType::Engulfing => Status::Bullish,
        CandleType::MorningStar => Status::Bullish,
        CandleType::BullishGap => Status::Bullish,
        CandleType::BearishKarakasa => Status::Bearish,
        CandleType::BearishGap => Status::Bearish,
        CandleType::BearishStar => Status::Bearish,
        CandleType::BearishEngulfing => Status::Bearish,
        _ => Status::Default,
    }
}

/// The reading of a divergence: its direction, or default when there is none.
pub fn get_divergence_status(divergence_type: &DivergenceType) -> (res: Status)
    ensures
        res == match *divergence_type {
            DivergenceType::Bullish => Status::Bullish,
            DivergenceType::Bearish => Status::Bearish,
            DivergenceType::NoDivergence => Status::Default,
        },
{
    match divergence_type {
        DivergenceType::Bullish => Status::Bullish,
        DivergenceType::Bearish => Status::Bearish,
        DivergenceType::NoDivergence => Status::Default,
    }
}

} // verus!
