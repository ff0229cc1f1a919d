use vstd::prelude::*;

verus! {

/// Side on which a chart pattern breaks.
#[derive(Debug, Clone, Copy, PartialEq, Eq, Structural)]
pub enum PatternDirection {
    Top,
    Bottom,
    /// No direction (`None` when displayed).
    NoDirection,
}

impl PatternDirection {
    /// The name under which the value is displayed.
    pub open spec fn spec_name(self) -> Seq<char> {
        match self {
            PatternDirection::Top => "Top"@,
            PatternDirection::Bottom => "Bottom"@,
            PatternDirection::NoDirection => "None"@,
        }
    }

    /// The name under which the value is displayed.
    pub fn to_string(&self) -> (res: String)
        ensures
            res@ == self.spec_name(),
    {
        let name = match *self {
            PatternDirection::Top => "Top",
            PatternDirection::Bottom => "Bottom",
            PatternDirection::NoDirection => "None",
        };
        name.to_owned()
    }
}

/// Chart pattern found by the scanner.
#[derive(Debug, Clone, Copy, PartialEq, Eq, Structural)]
pub enum PatternType {
    Triangle,
    TriangleSym,
    TriangleDown,
    TriangleUp,
    Rectangle,
    ChannelUp,
    ChannelDown,
    Broadening,
    DoubleTop,
    DoubleBottom,
    HeadShoulders,
    HigherHighsHigherLows,
    LowerHighsLowerLows,
    /// No pattern (`None` when displayed).
    NoPattern,
}

impl PatternType {
    /// The name under which the value is displayed.
    pub open spec fn spec_name(self) -> Seq<char> {
        match self {
            PatternType::Triangle => "Triangle"@,
            PatternType::TriangleSym => "TriangleSym"@,
            PatternType::TriangleDown => "TriangleDown"@,
            PatternType::TriangleUp => "TriangleUp"@,
            PatternType::Rectangle => "Rectangle"@,
            PatternType::ChannelUp => "ChannelUp"@,
            PatternType::ChannelDown => "ChannelDown"@,
            PatternType::Broadening => "Broadening"@,
            PatternType::DoubleTop => "DoubleTop"@,
            PatternType::DoubleBottom => "DoubleBottom"@,
            PatternType::HeadShoulders => "HeadShoulders"@,
            PatternType::HigherHighsHigherLows => "HigherHighsHigherLows"@,
            PatternType::LowerHighsLowerLows => "LowerHighsLowerLows"@,
            PatternType::NoPattern => "None"@,
        }
    }

    /// The name under which the value is displayed.
    pub fn to_string(&self) -> (res: String)
        ensures
            res@ == self.spec_name(),
    {
        let name = match *self {
            PatternType::Triangle => "Triangle",
            PatternType::TriangleSym => "TriangleSym",
            PatternType::TriangleDown => "TriangleDown",
            PatternType::TriangleUp => "TriangleUp",
            PatternType::Rectangle => "Rectangle",
            PatternType::ChannelUp => "ChannelUp",
            PatternType::ChannelDown => "ChannelDown",
            PatternType::Broadening => "Broadening",
            PatternType::DoubleTop => "DoubleTop",
            PatternType::DoubleBottom => "DoubleBottom",
            PatternType::HeadShoulders => "HeadShoulders",
            PatternType::HigherHighsHigherLows => "HigherHighsHigherLows",
            PatternType::LowerHighsLowerLows => "LowerHighsLowerLows",
            PatternType::NoPattern => "None",
        };
        name.to_owned()
    }
}

/// Whether a pattern is drawn on local or on extreme peaks.
#[derive(Debug, Clone, Copy, PartialEq, Eq, Structural)]
pub enum PatternSize {
    Local,
    Extrema,
}

} // verus!
