use vstd::prelude::*;

verus! {

/// Direction of a divergence between price and an indicator.
#[derive(Debug, Clone, Copy, PartialEq, Eq, Structural)]
pub enum DivergenceType {
    Bullish,
    Bearish,
    /// No divergence (`None` when displayed).
    NoDivergence,
}

impl DivergenceType {
    /// The name under which the value is displayed.
    pub open spec fn spec_name(self) -> Seq<char> {
        match self {
            DivergenceType::Bullish => "Bullish"@,
            DivergenceType::Bearish => "Bearish"@,
            DivergenceType::NoDivergence => "None"@,
        }
    }

    /// The name under which the value is displayed.
    pub fn to_string(&self) -> (res: String)
        ensures
            res@ == self.spec_name(),
    {
        let name = match *self {
            DivergenceType::Bullish => "Bullish",
            DivergenceType::Bearish => "Bearish",
            DivergenceType::NoDivergence => "None",
        };
        name.to_owned()
    }
}

} // verus!
