pub mod api;
pub mod candle;
pub mod divergence;
pub mod environment;
pub mod horizontal_level;
pub mod indicator;
pub mod market;
pub mod mode;
pub mod order;
pub mod pattern;
pub mod status;
pub mod stop_loss;
pub mod strategy;
pub mod swap;
pub mod tick;
pub mod time_frame;
pub mod trade;
pub mod watch_instrument;

use vstd::prelude::*;

verus! {

/// HTTP method of a request to the scanner API.
#[derive(Debug, Clone, Copy, PartialEq, Eq, Structural)]
pub enum HttpMethod {
    Post,
    Put,
    Get,
    Patch,
}

/// Indicator in which a divergence was found.
#[derive(Debug, Clone, Copy, PartialEq, Eq, Structural)]
pub enum IndicatorType {
    Macd,
    Stoch,
    Rsi,
}

/// Reading of an indicator, a pattern or a candle.
#[derive(Debug, Clone, Copy, PartialEq, Eq, Structural)]
pub enum Status {
    Bullish,
    Bearish,
    Neutral,
    Default,
}

impl Status {
    /// A fresh status: neutral.
    pub fn new() -> (res: Self)
        ensures
            res is Neutral,
    {
        Status::Neutral
    }
}

impl Default for Status {
    fn default() -> (res: Self)
        ensures
            res is Neutral,
    {
        Self::new()
    }
}

/// Whether a horizontal level acts as resistance or as support.
#[derive(Debug, Clone, Copy, PartialEq, Eq, Structural)]
pub enum HorizontalLevelType {
    Resistance,
    Support,
}

/// Shape of a candle.
#[derive(Debug, Clone, Copy, PartialEq, Eq, Structural)]
pub enum CandleType {
    Default,
    Doji,
    Karakasa,
    BearishKarakasa,
    Marubozu,
    BearishMarubozu,
    Harami,
    BearishHarami,
    BearishStar,
    Engulfing,
    MorningStar,
    BearishEngulfing,
    HangingMan,
    BullishCrows,
    BearishCrows,
    BullishGap,
    BearishGap,
}

/// Side on which a chart pattern breaks.
#[derive(Debug, Clone, Copy, PartialEq, Eq, Structural)]
pub enum PatternDirection {
    Top,
    Bottom,
    /// No direction (`None` when displayed).
    NoDirection,
}

impl PatternDirection {
    /// The name under which the value is displayed.
    pub open spec fn spec_name(self) -> Seq<char> {
        match self {
            PatternDirection::Top => "Top"@,
            PatternDirection::Bottom => "Bottom"@,
            PatternDirection::NoDirection => "None"@,
        }
    }

    /// The name under which the value is displayed.
    pub fn to_string(&self) -> (res: String)
        ensures
            res@ == self.spec_name(),
    {
        let name = match *self {
            PatternDirection::Top => "Top",
            PatternDirection::Bottom => "Bottom",
            PatternDirection::NoDirection => "None",
        };
        name.to_owned()
    }
}

/// Chart pattern found by the scanner.
#[derive(Debug, Clone, Copy, PartialEq, Eq, Structural)]
pub enum PatternType {
    Triangle,
    TriangleSymmetrical,
    TriangleDescendant,
    TriangleAscendant,
    Rectangle,
    ChannelUp,
    ChannelDown,
    Broadening,
    DoubleTop,
    DoubleBottom,
    HeadAndShoulders,
    /// No pattern (`None` when displayed).
    NoPattern,
}

impl PatternType {
    /// The name under which the value is displayed.
    pub open spec fn spec_name(self) -> Seq<char> {
        match self {
            PatternType::Triangle => "Triangle"@,
            PatternType::TriangleSymmetrical => "TriangleSymmetrical"@,
            PatternType::TriangleDescendant => "TriangleDescendant"@,
            PatternType::TriangleAscendant => "TriangleAscendant"@,
            PatternType::Rectangle => "Rectangle"@,
            PatternType::ChannelUp => "ChannelUp"@,
            PatternType::ChannelDown => "ChannelDown"@,
            PatternType::Broadening => "Broadening"@,
            PatternType::DoubleTop => "DoubleTop"@,
            PatternType::DoubleBottom => "DoubleBottom"@,
            PatternType::HeadAndShoulders => "HeadAndShoulders"@,
            PatternType::NoPattern => "None"@,
        }
    }

    /// The name under which the value is displayed.
    pub fn to_string(&self) -> (res: String)
        ensures
            res@ == self.spec_name(),
    {
        let name = match *self {
            PatternType::Triangle => "Triangle",
            PatternType::TriangleSymmetrical => "TriangleSymmetrical",
            PatternType::TriangleDescendant => "TriangleDescendant",
            PatternType::TriangleAscendant => "TriangleAscendant",
            PatternType::Rectangle => "Rectangle",
            PatternType::ChannelUp => "ChannelUp",
            PatternType::ChannelDown => "ChannelDown",
            PatternType::Broadening => "Broadening",
            PatternType::DoubleTop => "DoubleTop",
            PatternType::DoubleBottom => "DoubleBottom",
            PatternType::HeadAndShoulders => "HeadAndShoulders",
            PatternType::NoPattern => "None",
        };
        name.to_owned()
    }
}

/// Whether a pattern is drawn on local or on extreme peaks.
#[derive(Debug, Clone, Copy, PartialEq, Eq, Structural)]
pub enum PatternSize {
    Local,
    Extrema,
}

/// Candle period of the scanner.
#[derive(Debug, Clone, Copy, PartialEq, Eq, Structural)]
pub enum TimeFrameType {
    H1,
    H4,
    D,
    W,
}

/// Builder of scanner time frames from their names.
#[derive(Debug, Clone, Copy, PartialEq, Eq, Structural)]
pub struct TimeFrame {}

impl TimeFrame {
    /// Reads a time frame from its name; `H1`, `H4`, `D` and `W` read as themselves and
    /// anything else as `H1`.
    pub fn new(time_frame: &str) -> (res: TimeFrameType)
        ensures
            res == (if time_frame@ == "H1"@ {
                TimeFrameType::H1
            } else if time_frame@ == "H4"@ {
                TimeFrameType::H4
            } else if time_frame@ == "D"@ {
                TimeFrameType::D
            } else if time_frame@ == "W"@ {
                TimeFrameType::W
            } else {
                TimeFrameType::H1
            }),
    {
        let t = time_frame.to_owned();
        if t == "H1".to_owned() {
            TimeFrameType::H1
        } else if t == "H4".to_owned() {
            TimeFrameType::H4
        } else if t == "D".to_owned() {
            TimeFrameType::D
        } else if t == "W".to_owned() {
            TimeFrameType::W
        } else {
            TimeFrameType::H1
        }
    }
}

impl TimeFrameType {
    /// Length of one candle in minutes.
    pub fn value(&self) -> (res: usize)
        ensures
            res == match *self {
                TimeFrameType::H1 => 60usize,
                TimeFrameType::H4 => 240usize,
                TimeFrameType::D => 1440usize,
                TimeFrameType::W => 10080usize,
            },
    {
        match *self {
            TimeFrameType::H1 => 60,
            TimeFrameType::H4 => 240,
            TimeFrameType::D => 1440,
            TimeFrameType::W => 10080,
        }
    }
}

/// Direction of a divergence between price and an indicator.
#[derive(Debug, Clone, Copy, PartialEq, Eq, Structural)]
pub enum DivergenceType {
    Bullish,
    Bearish,
    /// No divergence (`None` when displayed).
    NoDivergence,
}

/// The divergences of an instrument, in short form.
#[derive(Debug, Clone, PartialEq, Eq)]
pub struct CompactDivergences {
    pub divergences: Vec<CompactDivergence>,
}

/// A divergence in short form: where it was found and which way it points.
#[derive(Debug, Clone, Copy, PartialEq, Eq, Structural)]
pub struct CompactDivergence {
    pub indicator: IndicatorType,
    pub divergence_type: DivergenceType,
}

} // verus!
