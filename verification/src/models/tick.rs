use vstd::prelude::*;

verus! {

/// The latest quote of an instrument: ask, bid, high and low prices, spread, pip size and
/// time stamp. `P` is the type of prices.
#[derive(Debug, Clone)]
pub struct InstrumentTick<P> {
    pub symbol: String,
    pub ask: P,
    pub bid: P,
    pub high: P,
    pub low: P,
    pub spread: P,
    pub pip_size: P,
    pub time: i64,
}

impl<P: Copy> InstrumentTick<P> {
    /// A builder with nothing set.
    pub fn new() -> (res: InstrumentTickBuilder<P>)
        ensures
            res.spec_is_empty(),
    {
        InstrumentTickBuilder::new()
    }

    /// The instrument's symbol.
    pub fn symbol(&self) -> (res: String)
        ensures
            res@ == self.symbol@,
    {
        self.symbol.clone()
    }

    /// The ask price.
    pub fn ask(&self) -> (res: P)
        ensures
            res == self.ask,
    {
        self.ask
    }

    /// The bid price.
    pub fn bid(&self) -> (res: P)
        ensures
            res == self.bid,
    {
        self.bid
    }

    /// The high price.
    pub fn high(&self) -> (res: P)
        ensures
            res == self.high,
    {
        self.high
    }

    /// The low price.
    pub fn low(&self) -> (res: P)
        ensures
            res == self.low,
    {
        self.low
    }

    /// The spread.
    pub fn spread(&self) -> (res: P)
        ensures
            res == self.spread,
    {
        self.spread
    }

    /// The pip size.
    pub fn pip_size(&self) -> (res: P)
        ensures
            res == self.pip_size,
    {
        self.pip_size
    }

    /// The time stamp.
    pub fn time(&self) -> (res: i64)
        ensures
            res == self.time,
    {
        self.time
    }
}

/// Builder of an `InstrumentTick`: every field but the pip size must be set.
#[derive(Debug, Clone)]
pub struct InstrumentTickBuilder<P> {
    pub symbol: Option<String>,
    pub ask: Option<P>,
    pub bid: Option<P>,
    pub high: Option<P>,
    pub low: Option<P>,
    pub spread: Option<P>,
    pub pip_size: Option<P>,
    pub time: Option<i64>,
}

impl<P> InstrumentTickBuilder<P> {
    pub open spec fn spec_is_empty(self) -> bool {
        &&& self.symbol is None
        &&& self.ask is None
        &&& self.bid is None
        &&& self.high is None
        &&& self.low is None
        &&& self.spread is None
        &&& self.pip_size is None
        &&& self.time is None
    }

    /// The message of the first missing required field, in the order symbol, ask, bid,
    /// high, low, spread, time; `None` when all are set.
    pub open spec fn spec_missing(self) -> Option<Seq<char>> {
        if self.symbol is None {
            Some("Symbol is required"@)
        } else if self.ask is None {
            Some("Ask price is required"@)
        } else if self.bid is None {
            Some("Bid price is required"@)
        } else if self.high is None {
            Some("High price is required"@)
        } else if self.low is None {
            Some("Low price is required"@)
        } else if self.spread is None {
            Some("Spread is required"@)
        } else if self.time is None {
            Some("time is required"@)
        } else {
            None
        }
    }

    /// A builder with nothing set.
    pub fn new() -> (res: Self)
        ensures
            res.spec_is_empty(),
    {
        InstrumentTickBuilder {
            symbol: None,
            ask: None,
            bid: None,
            high: None,
            low: None,
            spread: None,
            pip_size: None,
            time: None,
        }
    }

    /// Sets the symbol.
    pub fn symbol(self, symbol: String) -> (res: Self)
        ensures
            res == (InstrumentTickBuilder { symbol: Some(symbol), ..self }),
    {
        InstrumentTickBuilder { symbol: Some(symbol), ..self }
    }

    /// Sets the ask price.
    pub fn ask(self, ask: P) -> (res: Self)
        ensures
            res == (InstrumentTickBuilder { ask: Some(ask), ..self }),
    {
        InstrumentTickBuilder { ask: Some(ask), ..self }
    }

    /// Sets the bid price.
    pub fn bid(self, bid: P) -> (res: Self)
        ensures
            res == (InstrumentTickBuilder { bid: Some(bid), ..self }),
    {
        InstrumentTickBuilder { bid: Some(bid), ..self }
    }

    /// Sets the high price.
    pub fn high(self, high: P) -> (res: Self)
        ensures
            res == (InstrumentTickBuilder { high: Some(high), ..self }),
    {
        InstrumentTickBuilder { high: Some(high), ..self }
    }

    /// Sets the low price.
    pub fn low(self, low: P) -> (res: Self)
        ensures
            res == (InstrumentTickBuilder { low: Some(low), ..self }),
    {
        InstrumentTickBuilder { low: Some(low), ..self }
    }

    /// Sets the spread.
    pub fn spread(self, spread: P) -> (res: Self)
        ensures
            res == (InstrumentTickBuilder { spread: Some(spread), ..self }),
    {
        InstrumentTickBuilder { spread: Some(spread), ..self }
    }

    /// Sets the pip size.
    pub fn pip_size(self, pip_size: P) -> (res: Self)
        ensures
            res == (InstrumentTickBuilder { pip_size: Some(pip_size), ..self }),
    {
        InstrumentTickBuilder { pip_size: Some(pip_size), ..self }
    }

    /// Sets the time stamp.
    pub fn time(self, time: i64) -> (res: Self)
        ensures
            res == (InstrumentTickBuilder { time: Some(time), ..self }),
    {
        InstrumentTickBuilder { time: Some(time), ..self }
    }

    /// The tick, or the message of the first missing required field (see `spec_missing`).
    /// A missing pip size is `P`'s default value.
    pub fn build(self) -> (res: Result<InstrumentTick<P>, &'static str>)
        where
            P: Default,
        ensures
            match res {
                Ok(tick) => {
                    &&& self.spec_missing() is None
                    &&& self.symbol == Some(tick.symbol)
                    &&& self.ask == Some(tick.ask)
                    &&& self.bid == Some(tick.bid)
                    &&& self.high == Some(tick.high)
                    &&& self.low == Some(tick.low)
                    &&& self.spread == Some(tick.spread)
                    &&& self.time == Some(tick.time)
                    &&& self.pip_size is Some ==> self.pip_size == Some(tick.pip_size)
                },
                Err(message) => self.spec_missing() == Some(message@),
            },
    {
        let symbol = match self.symbol {
            Some(v) => v,
            None => return Err("Symbol is required"),
        };
        let ask = match self.ask {
            Some(v) => v,
            None => return Err("Ask price is required"),
        };
        let bid = match self.bid {
            Some(v) => v,
            None => return Err("Bid price is required"),
        };
        let high = match self.high {
            Some(v) => v,
            None => return Err("High price is required"),
        };
        let low = match self.low {
            Some(v) => v,
            None => return Err("Low price is required"),
        };
        let spread = match self.spread {
            Some(v) => v,
            None => return Err("Spread is required"),
        };
        let pip_size = match self.pip_size {
            Some(v) => v,
            None => P::default(),
        };
        let time = match self.time {
            Some(v) => v,
            None => return Err("time is required"),
        };
        Ok(InstrumentTick { symbol, ask, bid, high, low, spread, pip_size, time })
    }
}

} // verus!
