use vstd::prelude::*;

verus! {

/// The swap rates of an instrument: whether swaps apply, and the long, short and weekend
/// rates. `P` is the type of rates.
#[derive(Debug, Clone)]
pub struct InstrumentSwap<P> {
    pub symbol: String,
    pub enabled: bool,
    pub swap_long: P,
    pub swap_short: P,
    pub swap_weekend: P,
}

impl<P> InstrumentSwap<P> {
    /// A builder with nothing set.
    pub fn new() -> (res: InstrumentSwapBuilder<P>)
        ensures
            res.spec_is_empty(),
    {
        InstrumentSwapBuilder::new()
    }
}

/// Builder of an `InstrumentSwap`: every field must be set.
#[derive(Debug, Clone)]
pub struct InstrumentSwapBuilder<P> {
    pub symbol: Option<String>,
    pub enabled: Option<bool>,
    pub swap_long: Option<P>,
    pub swap_short: Option<P>,
    pub swap_weekend: Option<P>,
}

impl<P> InstrumentSwapBuilder<P> {
    pub open spec fn spec_is_empty(self) -> bool {
        &&& self.symbol is None
        &&& self.enabled is None
        &&& self.swap_long is None
        &&& self.swap_short is None
        &&& self.swap_weekend is None
    }

    /// The message of the first missing field, in the order symbol, enabled, long, short,
    /// weekend; `None` when all are set.
    pub open spec fn spec_missing(self) -> Option<Seq<char>> {
        if self.symbol is None {
            Some("Symbol is required"@)
        } else if self.enabled is None {
            Some("Enabled is required"@)
        } else if self.swap_long is None {
            Some("Swap long is required"@)
        } else if self.swap_short is None {
            Some("Swap short is required"@)
        } else if self.swap_weekend is None {
            Some("Swap weekend is required"@)
        } else {
            None
        }
    }

    /// A builder with nothing set.
    pub fn new() -> (res: Self)
        ensures
            res.spec_is_empty(),
    {
        InstrumentSwapBuilder {
            symbol: None,
            enabled: None,
            swap_long: None,
            swap_short: None,
            swap_weekend: None,
        }
    }

    /// Sets the symbol.
    pub fn symbol(self, symbol: String) -> (res: Self)
        ensures
            res == (InstrumentSwapBuilder { symbol: Some(symbol), ..self }),
    {
        InstrumentSwapBuilder { symbol: Some(symbol), ..self }
    }

    /// Sets whether swaps apply.
    pub fn enabled(self, enabled: bool) -> (res: Self)
        ensures
            res == (InstrumentSwapBuilder { enabled: Some(enabled), ..self }),
    {
        InstrumentSwapBuilder { enabled: Some(enabled), ..self }
    }

    /// Sets the long rate.
    pub fn swap_long(self, swap_long: P) -> (res: Self)
        ensures
            res == (InstrumentSwapBuilder { swap_long: Some(swap_long), ..self }),
    {
        InstrumentSwapBuilder { swap_long: Some(swap_long), ..self }
    }

    /// Sets the short rate.
    pub fn swap_short(self, swap_short: P) -> (res: Self)
        ensures
            res == (InstrumentSwapBuilder { swap_short: Some(swap_short), ..self }),
    {
        InstrumentSwapBuilder { swap_short: Some(swap_short), ..self }
    }

    /// Sets the weekend rate.
    pub fn swap_weekend(self, swap_weekend: P) -> (res: Self)
        ensures
            res == (InstrumentSwapBuilder { swap_weekend: Some(swap_weekend), ..self }),
    {
        InstrumentSwapBuilder { swap_weekend: Some(swap_weekend), ..self }
    }

    /// The swap, or the message of the first missing field (see `spec_missing`).
    pub fn build(self) -> (res: Result<InstrumentSwap<P>, &'static str>)
        ensures
            match res {
                Ok(swap) => {
                    &&& self.spec_missing() is None
                    &&& self.symbol == Some(swap.symbol)
                    &&& self.enabled == Some(swap.enabled)
                    &&& self.swap_long == Some(swap.swap_long)
                    &&& self.swap_short == Some(swap.swap_short)
                    &&& self.swap_weekend == Some(swap.swap_weekend)
                },
                Err(message) => self.spec_missing() == Some(message@),
            },
    {
        let symbol = match self.symbol {
            Some(v) => v,
            None => return Err("Symbol is required"),
        };
        let enabled = match self.enabled {
            Some(v) => v,
            None => return Err("Enabled is required"),
        };
        let swap_long = match self.swap_long {
            Some(v) => v,
            None => return Err("Swap long is required"),
        };
        let swap_short = match self.swap_short {
            Some(v) => v,
            None => return Err("Swap short is required"),
        };
        let swap_weekend = match self.swap_weekend {
            Some(v) => v,
            None => return Err("Swap weekend is required"),
        };
        Ok(InstrumentSwap { symbol, enabled, swap_long, swap_short, swap_weekend })
    }
}

} // verus!
