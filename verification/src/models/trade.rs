use vstd::prelude::*;
use crate::models::mode::ExecutionMode;
use crate::models::order::{Order, OrderType};

verus! {

/// Direction in which a strategy trades.
#[derive(Debug, Clone, Copy, PartialEq, Eq, Structural)]
pub enum TradeDirection {
    Long,
    Short,
    /// No direction (`None` in the wire format).
    NoDirection,
}

impl TradeDirection {
    /// Whether the direction is long.
    pub fn is_long(&self) -> (res: bool)
        ensures
            res == (*self is Long),
    {
        match *self {
            TradeDirection::Long => true,
            _ => false,
        }
    }

    /// Whether the direction is short.
    pub fn is_short(&self) -> (res: bool)
        ensures
            res == (*self is Short),
    {
        match *self {
            TradeDirection::Short => true,
            _ => false,
        }
    }
}

/// The kind of a trade: market or order, entry or exit, long or short.
#[derive(Debug, Clone, Copy, PartialEq, Eq, Structural)]
pub enum TradeType {
    MarketInLong,
    MarketOutLong,
    MarketInShort,
    MarketOutShort,
    OrderInLong,
    OrderOutLong,
    OrderInShort,
    OrderOutShort,
    StopLossLong,
    StopLossShort,
    /// No trade (`None` in the wire format).
    NoType,
}

impl TradeType {
    pub open spec fn spec_is_entry(self) -> bool {
        ||| self is MarketInLong
        ||| self is MarketInShort
        ||| self is OrderInLong
        ||| self is OrderInShort
    }

    pub open spec fn spec_is_exit(self) -> bool {
        ||| self is MarketOutLong
        ||| self is MarketOutShort
        ||| self is OrderOutLong
        ||| self is StopLossLong
        ||| self is StopLossShort
        ||| self is OrderOutShort
    }

    pub open spec fn spec_is_long(self) -> bool {
        ||| self is MarketInLong
        ||| self is MarketOutLong
        ||| self is StopLossLong
        ||| self is OrderInLong
        ||| self is OrderOutLong
    }

    pub open spec fn spec_is_short(self) -> bool {
        ||| self is MarketInShort
        ||| self is MarketOutShort
        ||| self is OrderInShort
        ||| self is OrderOutShort
    }

    pub open spec fn spec_is_order(self) -> bool {
        ||| self is OrderInLong
        ||| self is OrderOutLong
        ||| self is OrderInShort
        ||| self is OrderOutShort
        ||| self is StopLossLong
        ||| self is StopLossShort
    }

    pub open spec fn spec_is_stop(self) -> bool {
        self is StopLossLong || self is StopLossShort
    }

    /// The name under which the trade type is written.
    pub open spec fn spec_name(self) -> Seq<char> {
        match self {
            TradeType::MarketInLong => "MarketInLong"@,
            TradeType::MarketOutLong => "MarketOutLong"@,
            TradeType::MarketInShort => "MarketInShort"@,
            TradeType::MarketOutShort => "MarketOutShort"@,
            TradeType::OrderInLong => "OrderInLong"@,
            TradeType::OrderOutLong => "OrderOutLong"@,
            TradeType::OrderInShort => "OrderInShort"@,
            TradeType::OrderOutShort => "OrderOutShort"@,
            TradeType::StopLossLong => "StopLossLong"@,
            TradeType::StopLossShort => "StopLossShort"@,
            TradeType::NoType => "None"@,
        }
    }

    /// Whether the trade opens a position.
    pub fn is_entry(&self) -> (res: bool)
        ensures
            res == self.spec_is_entry(),
    {
        match *self {
            TradeType::MarketInLong
            | TradeType::MarketInShort
            | TradeType::OrderInLong
            | TradeType::OrderInShort => true,
            _ => false,
        }
    }

    /// Whether the trade closes a position (stop losses included).
    pub fn is_exit(&self) -> (res: bool)
        ensures
            res == self.spec_is_exit(),
    {
        match *self {
            TradeType::MarketOutLong
            | TradeType::MarketOutShort
            | TradeType::OrderOutLong
            | TradeType::StopLossLong
            | TradeType::StopLossShort
            | TradeType::OrderOutShort => true,
            _ => false,
        }
    }

    /// Whether the trade belongs to a long position.
    pub fn is_long(&self) -> (res: bool)
        ensures
            res == self.spec_is_long(),
    {
        match *self {
            TradeType::MarketInLong
            | TradeType::MarketOutLong
            | TradeType::StopLossLong
            | TradeType::OrderInLong
            | TradeType::OrderOutLong => true,
            _ => false,
        }
    }

    /// Whether the trade opens a long position.
    pub fn is_long_entry(&self) -> (res: bool)
        ensures
            res == (*self is MarketInLong || *self is OrderInLong),
    {
        match *self {
            TradeType::MarketInLong | TradeType::OrderInLong => true,
            _ => false,
        }
    }

    /// Whether the trade belongs to a short position (a short stop loss is not counted).
    pub fn is_short(&self) -> (res: bool)
        ensures
            res == self.spec_is_short(),
    {
        match *self {
            TradeType::MarketInShort
            | TradeType::MarketOutShort
            | TradeType::OrderInShort
            | TradeType::OrderOutShort => true,
            _ => false,
        }
    }

    /// Whether the trade opens a short position.
    pub fn is_short_entry(&self) -> (res: bool)
        ensures
            res == (*self is MarketInShort || *self is OrderInShort),
    {
        match *self {
            TradeType::MarketInShort | TradeType::OrderInShort => true,
            _ => false,
        }
    }

    /// Whether the trade comes from a pending order (stop losses included).
    pub fn is_order(&self) -> (res: bool)
        ensures
            res == self.spec_is_order(),
    {
        match *self {
            TradeType::OrderInLong
            | TradeType::OrderOutLong
            | TradeType::OrderInShort
            | TradeType::OrderOutShort
            | TradeType::StopLossLong
            | TradeType::StopLossShort => true,
            _ => false,
        }
    }

    /// Whether the trade is a stop loss.
    pub fn is_stop(&self) -> (res: bool)
        ensures
            res == self.spec_is_stop(),
    {
        match *self {
            TradeType::StopLossLong | TradeType::StopLossShort => true,
            _ => false,
        }
    }

    /// The name under which the trade type is written.
    pub fn to_str(&self) -> (res: &'static str)
        ensures
            res@ == self.spec_name(),
    {
        match self {
            TradeType::MarketInLong => "MarketInLong",
            TradeType::MarketOutLong => "MarketOutLong",
            TradeType::MarketInShort => "MarketInShort",
            TradeType::MarketOutShort => "MarketOutShort",
            TradeType::OrderInLong => "OrderInLong",
            TradeType::OrderOutLong => "OrderOutLong",
            TradeType::OrderInShort => "OrderInShort",
            TradeType::OrderOutShort => "OrderOutShort",
            TradeType::StopLossLong => "StopLossLong",
            TradeType::StopLossShort => "StopLossShort",
            TradeType::NoType => "None",
        }
    }
}

/// The trade type written under `name`; any other text reads as no trade.
pub open spec fn spec_type_from_str(name: Seq<char>) -> TradeType {
    if name == "MarketInLong"@ {
        TradeType::MarketInLong
    } else if name == "MarketOutLong"@ {
        TradeType::MarketOutLong
    } else if name == "MarketInShort"@ {
        TradeType::MarketInShort
    } else if name == "MarketOutShort"@ {
        TradeType::MarketOutShort
    } else if name == "OrderInLong"@ {
        TradeType::OrderInLong
    } else if name == "OrderOutLong"@ {
        TradeType::OrderOutLong
    } else if name == "OrderInShort"@ {
        TradeType::OrderInShort
    } else if name == "OrderOutShort"@ {
        TradeType::OrderOutShort
    } else if name == "StopLossLong"@ {
        TradeType::StopLossLong
    } else if name == "StopLossShort"@ {
        TradeType::StopLossShort
    } else {
        TradeType::NoType
    }
}

/// Reads a trade type from its name.
pub fn type_from_str(trade_type: &str) -> (res: TradeType)
    ensures
        res == spec_type_from_str(trade_type@),
{
    let t = trade_type.to_owned();
    if t == "MarketInLong".to_owned() {
        TradeType::MarketInLong
    } else if t == "MarketOutLong".to_owned() {
        TradeType::MarketOutLong
    } else if t == "MarketInShort".to_owned() {
        TradeType::MarketInShort
    } else if t == "MarketOutShort".to_owned() {
        TradeType::MarketOutShort
    } else if t == "OrderInLong".to_owned() {
        TradeType::OrderInLong
    } else if t == "OrderOutLong".to_owned() {
        TradeType::OrderOutLong
    } else if t == "OrderInShort".to_owned() {
        TradeType::OrderInShort
    } else if t == "OrderOutShort".to_owned() {
        TradeType::OrderOutShort
    } else if t == "StopLossLong".to_owned() {
        TradeType::StopLossLong
    } else if t == "StopLossShort".to_owned() {
        TradeType::StopLossShort
    } else {
        TradeType::NoType
    }
}

/// Every trade type that is not "no trade" either opens or closes a position, never both.
pub proof fn lemma_entry_exit_partition(t: TradeType)
    ensures
        t !is NoType ==> (t.spec_is_entry() != t.spec_is_exit()),
        t is NoType ==> !t.spec_is_entry() && !t.spec_is_exit(),
{
}

/// Reading back the name of a trade type gives the same trade type.
pub proof fn lemma_type_name_round_trip(t: TradeType)
    ensures
        spec_type_from_str(t.spec_name()) == t,
{
    reveal_strlit("MarketInLong");
    reveal_strlit("MarketOutLong");
    reveal_strlit("MarketInShort");
    reveal_strlit("MarketOutShort");
    reveal_strlit("OrderInLong");
    reveal_strlit("OrderOutLong");
    reveal_strlit("OrderInShort");
    reveal_strlit("OrderOutShort");
    reveal_strlit("StopLossLong");
    reveal_strlit("StopLossShort");
    reveal_strlit("None");
    let n = t.spec_name();
    assert("MarketOutLong"@.len() != "MarketInLong"@.len());
    assert("MarketInShort"@.len() != "MarketInLong"@.len());
    assert("MarketInShort"@[6] != "MarketOutLong"@[6]);
    assert("MarketOutShort"@.len() != "MarketInLong"@.len());
    assert("MarketOutShort"@.len() != "MarketOutLong"@.len());
    assert("MarketOutShort"@.len() != "MarketInShort"@.len());
    assert("OrderInLong"@.len() != "MarketInLong"@.len());
    assert("OrderInLong"@.len() != "MarketOutLong"@.len());
    assert("OrderInLong"@.len() != "MarketInShort"@.len());
    assert("OrderInLong"@.len() != "MarketOutShort"@.len());
    assert("OrderOutLong"@[0] != "MarketInLong"@[0]);
    assert("OrderOutLong"@.len() != "MarketOutLong"@.len());
    assert("OrderOutLong"@.len() != "MarketInShort"@.len());
    assert("OrderOutLong"@.len() != "MarketOutShort"@.len());
    assert("OrderOutLong"@.len() != "OrderInLong"@.len());
    assert("OrderInShort"@[0] != "MarketInLong"@[0]);
    assert("OrderInShort"@.len() != "MarketOutLong"@.len());
    assert("OrderInShort"@.len() != "MarketInShort"@.len());
    assert("OrderInShort"@.len() != "MarketOutShort"@.len());
    assert("OrderInShort"@.len() != "OrderInLong"@.len());
    assert("OrderInShort"@[5] != "OrderOutLong"@[5]);
    assert("OrderOutShort"@.len() != "MarketInLong"@.len());
    assert("OrderOutShort"@[0] != "MarketOutLong"@[0]);
    assert("OrderOutShort"@[0] != "MarketInShort"@[0]);
    assert("OrderOutShort"@.len() != "MarketOutShort"@.len());
    assert("OrderOutShort"@.len() != "OrderInLong"@.len());
    assert("OrderOutShort"@.len() != "OrderOutLong"@.len());
    assert("OrderOutShort"@.len() != "OrderInShort"@.len());
    assert("StopLossLong"@[0] != "MarketInLong"@[0]);
    assert("StopLossLong"@.len() != "MarketOutLong"@.len());
    assert("StopLossLong"@.len() != "MarketInShort"@.len());
    assert("StopLossLong"@.len() != "MarketOutShort"@.len());
    assert("StopLossLong"@.len() != "OrderInLong"@.len());
    assert("StopLossLong"@[0] != "OrderOutLong"@[0]);
    assert("StopLossLong"@[0] != "OrderInShort"@[0]);
    assert("StopLossLong"@.len() != "OrderOutShort"@.len());
    assert("StopLossShort"@.len() != "MarketInLong"@.len());
    assert("StopLossShort"@[0] != "MarketOutLong"@[0]);
    assert("StopLossShort"@[0] != "MarketInShort"@[0]);
    assert("StopLossShort"@.len() != "MarketOutShort"@.len());
    assert("StopLossShort"@.len() != "OrderInLong"@.len());
    assert("StopLossShort"@.len() != "OrderOutLong"@.len());
    assert("StopLossShort"@.len() != "OrderInShort"@.len());
    assert("StopLossShort"@[0] != "OrderOutShort"@[0]);
    assert("StopLossShort"@.len() != "StopLossLong"@.len());
    assert("None"@.len() != "MarketInLong"@.len());
    assert("None"@.len() != "MarketOutLong"@.len());
    assert("None"@.len() != "MarketInShort"@.len());
    assert("None"@.len() != "MarketOutShort"@.len());
    assert("None"@.len() != "OrderInLong"@.len());
    assert("None"@.len() != "OrderOutLong"@.len());
    assert("None"@.len() != "OrderInShort"@.len());
    assert("None"@.len() != "OrderOutShort"@.len());
    assert("None"@.len() != "StopLossLong"@.len());
    assert("None"@.len() != "StopLossShort"@.len());
}

/// What every trade gives access to: its id, date, kind and prices. `P` is the type of
/// prices and `D` that of stored dates.
pub trait Trade<P, D> {
    spec fn spec_id(&self) -> usize;

    spec fn spec_type(&self) -> TradeType;

    fn get_id(&self) -> (res: &usize)
        ensures
            *res == self.spec_id(),
    ;

    fn get_date(&self) -> (res: &D);

    fn get_price_in(&self) -> (res: &P);

    fn get_type(&self) -> (res: &TradeType)
        ensures
            *res == self.spec_type(),
    ;

    fn get_price_out(&self) -> (res: &P);
}

/// An open trade: where and how it entered the market.
#[derive(Debug, Clone, Copy)]
pub struct TradeIn<P, D> {
    pub id: usize,
    pub index_in: usize,
    pub size: P,
    pub origin_price: P,
    pub price_in: P,
    pub ask: P,
    pub spread: P,
    pub date_in: D,
    pub trade_type: TradeType,
}

impl<P, D> Trade<P, D> for TradeIn<P, D> {
    open spec fn spec_id(&self) -> usize {
        self.id
    }

    open spec fn spec_type(&self) -> TradeType {
        self.trade_type
    }

    fn get_id(&self) -> (res: &usize) {
        &self.id
    }

    /// The entry date.
    fn get_date(&self) -> (res: &D)
        ensures
            *res == self.date_in,
    {
        &self.date_in
    }

    fn get_type(&self) -> (res: &TradeType) {
        &self.trade_type
    }

    /// The entry price.
    fn get_price_in(&self) -> (res: &P)
        ensures
            *res == self.price_in,
    {
        &self.price_in
    }

    /// An open trade has no exit price: its entry price stands for it.
    fn get_price_out(&self) -> (res: &P)
        ensures
            *res == self.price_in,
    {
        &self.price_in
    }
}

/// A closed trade: its entry, its exit and what it made.
#[derive(Debug, Clone, Copy)]
pub struct TradeOut<P, D> {
    pub id: usize,
    pub trade_type: TradeType,
    pub index_in: usize,
    pub price_in: P,
    pub size: P,
    pub ask: P,
    pub spread_in: P,
    pub date_in: D,
    pub index_out: usize,
    pub price_origin: P,
    pub price_out: P,
    pub bid: P,
    pub spread_out: P,
    pub date_out: D,
    pub profit: P,
    pub profit_per: P,
    pub run_up: P,
    pub run_up_per: P,
    pub draw_down: P,
    pub draw_down_per: P,
}

impl<P, D> Trade<P, D> for TradeOut<P, D> {
    open spec fn spec_id(&self) -> usize {
        self.id
    }

    open spec fn spec_type(&self) -> TradeType {
        self.trade_type
    }

    fn get_id(&self) -> (res: &usize) {
        &self.id
    }

    /// The exit date.
    fn get_date(&self) -> (res: &D)
        ensures
            *res == self.date_out,
    {
        &self.date_out
    }

    fn get_type(&self) -> (res: &TradeType) {
        &self.trade_type
    }

    /// The entry price.
    fn get_price_in(&self) -> (res: &P)
        ensures
            *res == self.price_in,
    {
        &self.price_in
    }

    /// The exit price.
    fn get_price_out(&self) -> (res: &P)
        ensures
            *res == self.price_out,
    {
        &self.price_out
    }
}

/// The outcome of resolving a trade: an entry, an exit, or nothing (`None` in the wire
/// format).
#[derive(Debug, Clone, Copy)]
pub enum TradeResult<P, D> {
    TradeIn(TradeIn<P, D>),
    TradeOut(TradeOut<P, D>),
    NoTrade,
}

/// What a strategy asks for: a market entry or exit (with the orders to place along),
/// a market entry or exit through an order, pending orders, or nothing (`None` in the
/// wire format).
#[derive(Debug, Clone)]
pub enum Position<P, D> {
    MarketIn(Option<Vec<OrderType<P>>>),
    MarketOut(Option<Vec<OrderType<P>>>),
    MarketInOrder(Order<P, D>),
    MarketOutOrder(Order<P, D>),
    Order(Vec<OrderType<P>>),
    NoPosition,
}

/// What a position led to: the trade made and the orders placed (`None` in the wire
/// format for nothing).
#[derive(Debug, Clone)]
pub enum PositionResult<P, D> {
    MarketIn(TradeResult<P, D>, Option<Vec<Order<P, D>>>),
    MarketOut(TradeResult<P, D>),
    PendingOrder(Vec<Order<P, D>>),
    MarketInOrder(TradeResult<P, D>, Order<P, D>),
    MarketOutOrder(TradeResult<P, D>, Order<P, D>),
    NoResult,
}

/// The bar at which a trade decided at bar `index` is made: the next bar in a back test
/// (the decision is taken on a closed bar), the same bar otherwise.
pub fn calculate_trade_index<P, D>(
    index: usize,
    _order: Option<&Order<P, D>>,
    execution_mode: &ExecutionMode,
) -> (res: usize)
    requires
        *execution_mode is BackTest ==> index < usize::MAX,
    ensures
        res == if *execution_mode is BackTest {
            index + 1
        } else {
            index as int
        },
{
    if execution_mode.is_back_test() {
        index + 1
    } else {
        index
    }
}

/// Whether some trade has the id `search_id`.
pub fn trade_exists<P, D, T: Trade<P, D>>(trades: &[T], search_id: usize) -> (res: bool)
    ensures
        res == exists|i: int| 0 <= i < trades@.len() && (#[trigger] trades@[i]).spec_id() == search_id,
{
    let mut i: usize = 0;
    while i < trades.len()
        invariant
            i <= trades@.len(),
            forall|j: int| 0 <= j < i ==> (#[trigger] trades@[j]).spec_id() != search_id,
        decreases trades.len() - i,
    {
        if *trades[i].get_id() == search_id {
            return true;
        }
        i = i + 1;
    }
    false
}

/// Replaces the first trade with the id of `new_trade` by it; says whether there was one.
pub fn update_trades<P, D, T: Trade<P, D>>(trades: &mut Vec<T>, new_trade: T) -> (res: bool)
    ensures
        res == exists|i: int|
            0 <= i < old(trades)@.len() && (#[trigger] old(trades)@[i]).spec_id()
                == new_trade.spec_id(),
        !res ==> final(trades)@ == old(trades)@,
        res ==> exists|p: int|
            0 <= p < old(trades)@.len() && (#[trigger] old(trades)@[p]).spec_id()
                == new_trade.spec_id() && (forall|j: int|
                0 <= j < p ==> (#[trigger] old(trades)@[j]).spec_id() != new_trade.spec_id())
                && final(trades)@ == old(trades)@.update(p, new_trade),
{
    let new_id = *new_trade.get_id();
    let mut i: usize = 0;
    while i < trades.len()
        invariant
            i <= trades@.len(),
            trades@ == old(trades)@,
            new_id == new_trade.spec_id(),
            forall|j: int| 0 <= j < i ==> (#[trigger] trades@[j]).spec_id() != new_id,
        decreases trades.len() - i,
    {
        if *trades[i].get_id() == new_id {
            trades.set(i, new_trade);
            return true;
        }
        i = i + 1;
    }
    false
}

} // verus!
