use vstd::prelude::*;

verus! {

/// Which positions a strategy may open, on one or several time frames.
#[derive(Debug, Clone, Copy, PartialEq, Eq, Structural)]
pub enum StrategyType {
    OnlyLong,
    OnlyShort,
    LongShort,
    LongShortMTF,
    OnlyLongMTF,
    OnlyShortMTF,
}

impl StrategyType {
    pub open spec fn spec_is_long_only(self) -> bool {
        self is OnlyLong || self is OnlyLongMTF
    }

    pub open spec fn spec_is_multi_timeframe(self) -> bool {
        self is OnlyLongMTF || self is LongShortMTF || self is OnlyShortMTF
    }

    /// The name under which the strategy type is displayed.
    pub open spec fn spec_name(self) -> Seq<char> {
        match self {
            StrategyType::OnlyLong => "OnlyLong"@,
            StrategyType::OnlyShort => "OnlyShort"@,
            StrategyType::LongShort => "LongShort"@,
            StrategyType::LongShortMTF => "LongShortMTF"@,
            StrategyType::OnlyLongMTF => "OnlyLongMTF"@,
            StrategyType::OnlyShortMTF => "OnlyShortMTF"@,
        }
    }

    /// Whether the strategy only opens long positions.
    pub fn is_long_only(&self) -> (res: bool)
        ensures
            res == self.spec_is_long_only(),
    {
        match *self {
            StrategyType::OnlyLong => true,
            StrategyType::OnlyLongMTF => true,
            _ => false,
        }
    }

    /// Whether the strategy looks at a higher time frame too.
    pub fn is_multi_timeframe(&self) -> (res: bool)
        ensures
            res == self.spec_is_multi_timeframe(),
    {
        match *self {
            StrategyType::OnlyLongMTF => true,
            StrategyType::LongShortMTF => true,
            StrategyType::OnlyShortMTF => true,
            _ => false,
        }
    }

    /// The name under which the strategy type is displayed.
    pub fn to_string(&self) -> (res: String)
        ensures
            res@ == self.spec_name(),
    {
        let name = match *self {
            StrategyType::OnlyLong => "OnlyLong",
            StrategyType::OnlyShort => "OnlyShort",
            StrategyType::LongShort => "LongShort",
            StrategyType::LongShortMTF => "LongShortMTF",
            StrategyType::OnlyLongMTF => "OnlyLongMTF",
            StrategyType::OnlyShortMTF => "OnlyShortMTF",
        };
        name.to_owned()
    }
}

/// The strategy type named `name`; any other name reads as `OnlyLong`.
pub open spec fn spec_strategy_from_str(name: Seq<char>) -> StrategyType {
    if name == "OnlyLong"@ {
        StrategyType::OnlyLong
    } else if name == "OnlyShort"@ {
        StrategyType::OnlyShort
    } else if name == "LongShort"@ {
        StrategyType::LongShort
    } else if name == "LongShortMTF"@ {
        StrategyType::LongShortMTF
    } else if name == "OnlyLongMTF"@ {
        StrategyType::OnlyLongMTF
    } else if name == "OnlyShortMTF"@ {
        StrategyType::OnlyShortMTF
    } else {
        StrategyType::OnlyLong
    }
}

/// Reads a strategy type from its name (see `spec_strategy_from_str`).
pub fn from_str(strategy: &str) -> (res: StrategyType)
    ensures
        res == spec_strategy_from_str(strategy@),
{
    let t = strategy.to_owned();
    if t == "OnlyLong".to_owned() {
        StrategyType::OnlyLong
    } else if t == "OnlyShort".to_owned() {
        StrategyType::OnlyShort
    } else if t == "LongShort".to_owned() {
        StrategyType::LongShort
    } else if t == "LongShortMTF".to_owned() {
        StrategyType::LongShortMTF
    } else if t == "OnlyLongMTF".to_owned() {
        StrategyType::OnlyLongMTF
    } else if t == "OnlyShortMTF".to_owned() {
        StrategyType::OnlyShortMTF
    } else {
        StrategyType::OnlyLong
    }
}

/// Whether the strategy looks at a higher time frame too.
pub fn is_mtf_strategy(strategy_type: &StrategyType) -> (res: bool)
    ensures
        res == strategy_type.spec_is_multi_timeframe(),
{
    match strategy_type {
        StrategyType::OnlyLongMTF => true,
        StrategyType::LongShortMTF => true,
        StrategyType::OnlyShortMTF => true,
        _ => false,
    }
}

/// Whether the strategy only opens long positions.
pub fn is_long_only(strategy_type: &StrategyType) -> (res: bool)
    ensures
        res == strategy_type.spec_is_long_only(),
{
    match strategy_type {
        StrategyType::OnlyLong => true,
        StrategyType::OnlyLongMTF => true,
        _ => false,
    }
}

/// Reading back the displayed name of a strategy type gives the same strategy type.
pub proof fn lemma_strategy_name_round_trip(t: StrategyType)
    ensures
        spec_strategy_from_str(t.spec_name()) == t,
{
    reveal_strlit("OnlyLong");
    reveal_strlit("OnlyShort");
    reveal_strlit("LongShort");
    reveal_strlit("LongShortMTF");
    reveal_strlit("OnlyLongMTF");
    reveal_strlit("OnlyShortMTF");
    assert("OnlyShort"@.len() != "OnlyLong"@.len());
    assert("LongShort"@.len() != "OnlyLong"@.len());
    assert("LongShort"@[0] != "OnlyShort"@[0]);
    assert("LongShortMTF"@.len() != "OnlyLong"@.len());
    assert("LongShortMTF"@.len() != "OnlyShort"@.len());
    assert("LongShortMTF"@.len() != "LongShort"@.len());
    assert("OnlyLongMTF"@.len() != "OnlyLong"@.len());
    assert("OnlyLongMTF"@.len() != "OnlyShort"@.len());
    assert("OnlyLongMTF"@.len() != "LongShort"@.len());
    assert("OnlyLongMTF"@.len() != "LongShortMTF"@.len());
    assert("OnlyShortMTF"@.len() != "OnlyLong"@.len());
    assert("OnlyShortMTF"@.len() != "OnlyShort"@.len());
    assert("OnlyShortMTF"@.len() != "LongShort"@.len());
    assert("OnlyShortMTF"@[0] != "LongShortMTF"@[0]);
    assert("OnlyShortMTF"@.len() != "OnlyLongMTF"@.len());
}

} // verus!
