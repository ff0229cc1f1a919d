use vstd::prelude::*;
use crate::models::stop_loss::StopLossType;
use crate::models::trade::{Position, TradeIn, TradeType};

verus! {

/// The kind of an order with its parameters (size and target price; for a stop loss, how
/// its target is set and the price it was placed at). `P` is the type of prices.
#[derive(Debug, Clone, Copy)]
pub enum OrderType<P> {
    BuyOrderLong(P, P),
    BuyOrderShort(P, P),
    SellOrderLong(P, P),
    SellOrderShort(P, P),
    TakeProfitLong(P, P),
    TakeProfitShort(P, P),
    StopLossLong(StopLossType<P>, P),
    StopLossShort(StopLossType<P>, P),
}

/// Side of the market on which an order is triggered.
#[derive(Debug, Clone, Copy, PartialEq, Eq, Structural)]
pub enum OrderDirection {
    Up,
    Down,
}

/// Comparison that triggers an order.
#[derive(Debug, Clone, Copy, PartialEq, Eq, Structural)]
pub enum OrderCondition {
    Greater,
    Equal,
    Lower,
}

/// Life-cycle state of an order.
#[derive(Debug, Clone, Copy, PartialEq, Eq, Structural)]
pub enum OrderStatus {
    Pending,
    Fulfilled,
    Canceled,
}

/// The budget of pending orders that an order counts against: entries (buy orders),
/// exits (sell orders and take profits) or stop losses.
#[derive(Debug, Clone, Copy, PartialEq, Eq, Structural)]
pub enum OrderClass {
    Buy,
    Sell,
    Stop,
}

impl<P> OrderType<P> {
    pub open spec fn spec_is_long(self) -> bool {
        self is BuyOrderLong || self is SellOrderLong || self is TakeProfitLong
    }

    pub open spec fn spec_is_entry(self) -> bool {
        self is BuyOrderLong || self is BuyOrderShort
    }

    pub open spec fn spec_is_exit(self) -> bool {
        ||| self is SellOrderLong
        ||| self is SellOrderShort
        ||| self is TakeProfitLong
        ||| self is TakeProfitShort
    }

    pub open spec fn spec_is_stop(self) -> bool {
        self is StopLossLong || self is StopLossShort
    }

    /// Long orders, take profits of longs and stops of shorts trigger upwards; the others
    /// downwards.
    pub open spec fn spec_direction(self) -> OrderDirection {
        if self is BuyOrderLong || self is SellOrderLong || self is TakeProfitLong
            || self is StopLossShort {
            OrderDirection::Up
        } else {
            OrderDirection::Down
        }
    }

    pub open spec fn spec_class(self) -> OrderClass {
        if self.spec_is_entry() {
            OrderClass::Buy
        } else if self.spec_is_exit() {
            OrderClass::Sell
        } else {
            OrderClass::Stop
        }
    }

    /// Whether the order belongs to a long position (buy, sell or take profit of a long).
    pub fn is_long(&self) -> (res: bool)
        ensures
            res == self.spec_is_long(),
    {
        match self {
            OrderType::BuyOrderLong(_, _)
            | OrderType::SellOrderLong(_, _)
            | OrderType::TakeProfitLong(_, _) => true,
            _ => false,
        }
    }

    /// Whether the order opens a position.
    pub fn is_entry(&self) -> (res: bool)
        ensures
            res == self.spec_is_entry(),
    {
        match self {
            OrderType::BuyOrderLong(_, _) | OrderType::BuyOrderShort(_, _) => true,
            _ => false,
        }
    }

    /// The side on which the order triggers.
    pub fn get_direction(&self) -> (res: OrderDirection)
        ensures
            res == self.spec_direction(),
    {
        match self {
            OrderType::BuyOrderLong(_, _)
            | OrderType::SellOrderLong(_, _)
            | OrderType::TakeProfitLong(_, _)
            | OrderType::StopLossShort(_, _) => OrderDirection::Up,
            OrderType::BuyOrderShort(_, _)
            | OrderType::SellOrderShort(_, _)
            | OrderType::TakeProfitShort(_, _)
            | OrderType::StopLossLong(_, _) => OrderDirection::Down,
        }
    }

    /// Whether the order closes a position at a target (sell order or take profit).
    pub fn is_exit(&self) -> (res: bool)
        ensures
            res == self.spec_is_exit(),
    {
        match self {
            OrderType::SellOrderLong(_, _)
            | OrderType::SellOrderShort(_, _)
            | OrderType::TakeProfitLong(_, _)
            | OrderType::TakeProfitShort(_, _) => true,
            _ => false,
        }
    }

    /// Whether the order is a stop loss.
    pub fn is_stop(&self) -> (res: bool)
        ensures
            res == self.spec_is_stop(),
    {
        match self {
            OrderType::StopLossLong(_, _) | OrderType::StopLossShort(_, _) => true,
            _ => false,
        }
    }

    /// The pending-order budget the order counts against.
    pub fn class(&self) -> (res: OrderClass)
        ensures
            res == self.spec_class(),
    {
        match self {
            OrderType::BuyOrderLong(_, _) | OrderType::BuyOrderShort(_, _) => OrderClass::Buy,
            OrderType::SellOrderLong(_, _)
            | OrderType::SellOrderShort(_, _)
            | OrderType::TakeProfitLong(_, _)
            | OrderType::TakeProfitShort(_, _) => OrderClass::Sell,
            OrderType::StopLossLong(_, _) | OrderType::StopLossShort(_, _) => OrderClass::Stop,
        }
    }
}

/// Extra data of an order: the stop loss price. `P` is the type of prices.
#[derive(Debug, Clone, Copy)]
pub struct MetaData<P> {
    pub sl: P,
}

/// An order of a strategy. `P` is the type of prices and sizes, `D` that of stored dates.
#[derive(Debug, Clone, Copy)]
pub struct Order<P, D> {
    pub id: usize,
    pub trade_id: usize,
    pub index_created: usize,
    pub index_fulfilled: usize,
    pub size: P,
    pub order_type: OrderType<P>,
    pub status: OrderStatus,
    pub origin_price: P,
    pub target_price: P,
    pub created_at: D,
    pub updated_at: Option<D>,
    pub full_filled_at: Option<D>,
    pub valid_until: Option<D>,
    pub meta: Option<MetaData<P>>,
}

impl<P, D> Order<P, D> {
    pub open spec fn spec_is_pending(self) -> bool {
        self.status is Pending
    }

    /// The order fulfilled at bar `index` on `date`.
    pub open spec fn spec_fulfilled(self, index: usize, date: D) -> Self {
        Order {
            index_fulfilled: index,
            status: OrderStatus::Fulfilled,
            updated_at: Some(date),
            full_filled_at: Some(date),
            ..self
        }
    }

    /// The order canceled on `date`.
    pub open spec fn spec_canceled(self, date: D) -> Self {
        Order { status: OrderStatus::Canceled, updated_at: Some(date), ..self }
    }

    pub open spec fn spec_is_long(self) -> bool {
        ||| self.order_type is BuyOrderLong
        ||| self.order_type is SellOrderLong
        ||| self.order_type is TakeProfitLong
        ||| self.order_type is StopLossLong
    }

    pub open spec fn spec_is_short(self) -> bool {
        ||| self.order_type is BuyOrderShort
        ||| self.order_type is SellOrderShort
        ||| self.order_type is TakeProfitShort
        ||| self.order_type is StopLossShort
    }

    /// The kind of trade the order makes when it is filled.
    pub open spec fn spec_trade_type(self) -> TradeType {
        match self.order_type {
            OrderType::BuyOrderLong(_, _) => TradeType::MarketInLong,
            OrderType::SellOrderLong(_, _) => TradeType::MarketOutLong,
            OrderType::TakeProfitLong(_, _) => TradeType::MarketOutLong,
            OrderType::StopLossLong(_, _) => TradeType::StopLossLong,
            OrderType::BuyOrderShort(_, _) => TradeType::MarketInShort,
            OrderType::SellOrderShort(_, _) => TradeType::MarketOutShort,
            OrderType::TakeProfitShort(_, _) => TradeType::MarketOutShort,
            OrderType::StopLossShort(_, _) => TradeType::StopLossShort,
        }
    }

    /// Sets the status.
    pub fn set_status(&mut self, val: OrderStatus)
        ensures
            *final(self) == (Order { status: val, ..*old(self) }),
    {
        self.status = val
    }

    /// Records when the order was last updated.
    pub fn set_updated_at(&mut self, val: D)
        ensures
            *final(self) == (Order { updated_at: Some(val), ..*old(self) }),
    {
        self.updated_at = Some(val)
    }

    /// Records the bar at which the order was fulfilled.
    pub fn set_full_filled_index(&mut self, val: usize)
        ensures
            *final(self) == (Order { index_fulfilled: val, ..*old(self) }),
    {
        self.index_fulfilled = val
    }

    /// Records when the order was fulfilled.
    pub fn set_full_filled_at(&mut self, val: D)
        ensures
            *final(self) == (Order { full_filled_at: Some(val), ..*old(self) }),
    {
        self.full_filled_at = Some(val)
    }

    /// Attaches the order to a trade.
    pub fn set_trade_id(&mut self, val: usize)
        ensures
            *final(self) == (Order { trade_id: val, ..*old(self) }),
    {
        self.trade_id = val
    }

    /// The trade the order is attached to (0 for none).
    pub fn trade_id(&self) -> (res: usize)
        ensures
            res == self.trade_id,
    {
        self.trade_id
    }

    /// Sets the price the order was placed from.
    pub fn set_origin_price(&mut self, val: P)
        ensures
            *final(self) == (Order { origin_price: val, ..*old(self) }),
    {
        self.origin_price = val
    }

    /// Sets until when the order holds.
    pub fn set_valid_until(&mut self, val: D)
        ensures
            *final(self) == (Order { valid_until: Some(val), ..*old(self) }),
    {
        self.valid_until = Some(val)
    }

    /// Whether the order is attached to a trade.
    pub fn has_active_trade(&self) -> (res: bool)
        ensures
            res == (self.trade_id > 0),
    {
        self.trade_id() > 0
    }

    /// Moves the order to new origin and target prices.
    pub fn update_tick(&mut self, origin_price: P, target_price: P)
        ensures
            *final(self) == (Order { origin_price: origin_price, target_price: target_price, ..*old(self) }),
    {
        self.origin_price = origin_price;
        self.target_price = target_price;
    }

    /// Marks the order fulfilled at bar `index` on `date`.
    pub fn fulfill_order(&mut self, index: usize, date: D)
        where
            D: Copy,
        ensures
            *final(self) == old(self).spec_fulfilled(index, date),
    {
        self.set_full_filled_index(index);
        self.set_status(OrderStatus::Fulfilled);
        self.set_updated_at(date);
        self.set_full_filled_at(date);
    }

    /// Puts a fulfilled order back to pending on `date`: the fulfilling bar is reset to 0,
    /// and the update and fulfilment dates are set to `date`.
    pub fn unfulfill_order(&mut self, _index: usize, date: D)
        where
            D: Copy,
        ensures
            *final(self) == (Order {
                index_fulfilled: 0,
                status: OrderStatus::Pending,
                updated_at: Some(date),
                full_filled_at: Some(date),
                ..*old(self)
            }),
    {
        self.set_full_filled_index(0);
        self.set_status(OrderStatus::Pending);
        self.set_updated_at(date);
        self.set_full_filled_at(date);
    }

    /// Marks the order canceled on `date`.
    pub fn cancel_order(&mut self, date: D)
        ensures
            *final(self) == old(self).spec_canceled(date),
    {
        self.set_status(OrderStatus::Canceled);
        self.set_updated_at(date);
    }

    /// The size of the order.
    pub fn size(&self) -> (res: P)
        where
            P: Copy,
        ensures
            res == self.size,
    {
        self.size
    }

    /// Whether the order belongs to a long position.
    pub fn is_long(&self) -> (res: bool)
        ensures
            res == self.spec_is_long(),
    {
        match self.order_type {
            OrderType::BuyOrderLong(_, _)
            | OrderType::SellOrderLong(_, _)
            | OrderType::TakeProfitLong(_, _)
            | OrderType::StopLossLong(_, _) => true,
            _ => false,
        }
    }

    /// Whether the order belongs to a short position.
    pub fn is_short(&self) -> (res: bool)
        ensures
            res == self.spec_is_short(),
    {
        match self.order_type {
            OrderType::BuyOrderShort(_, _)
            | OrderType::SellOrderShort(_, _)
            | OrderType::TakeProfitShort(_, _)
            | OrderType::StopLossShort(_, _) => true,
            _ => false,
        }
    }

    /// Whether the order is a stop loss.
    pub fn is_stop(&self) -> (res: bool)
        ensures
            res == self.order_type.spec_is_stop(),
    {
        match self.order_type {
            OrderType::StopLossLong(_, _) | OrderType::StopLossShort(_, _) => true,
            _ => false,
        }
    }

    /// Whether the order opens a position.
    pub fn is_entry(&self) -> (res: bool)
        ensures
            res == self.order_type.spec_is_entry(),
    {
        self.order_type.is_entry()
    }

    /// Whether a fulfilment date is recorded.
    pub fn is_fulfilled(&self) -> (res: bool)
        ensures
            res == self.full_filled_at is Some,
    {
        match self.full_filled_at {
            Some(_) => true,
            None => false,
        }
    }

    /// Whether the order is still waiting to be filled.
    pub fn is_pending(&self) -> (res: bool)
        ensures
            res == self.spec_is_pending(),
    {
        match self.status {
            OrderStatus::Pending => true,
            _ => false,
        }
    }

    /// The kind of trade the order makes when it is filled.
    pub fn to_trade_type(&self) -> (res: TradeType)
        ensures
            res == self.spec_trade_type(),
    {
        match self.order_type {
            OrderType::BuyOrderLong(_, _) => TradeType::MarketInLong,
            OrderType::SellOrderLong(_, _) | OrderType::TakeProfitLong(_, _) => {
                TradeType::MarketOutLong
            },
            OrderType::StopLossLong(_, _) => TradeType::StopLossLong,
            OrderType::BuyOrderShort(_, _) => TradeType::MarketInShort,
            OrderType::SellOrderShort(_, _) | OrderType::TakeProfitShort(_, _) => {
                TradeType::MarketOutShort
            },
            OrderType::StopLossShort(_, _) => TradeType::StopLossShort,
        }
    }
}

/// The last `max` orders of `orders`, all of them where there are fewer.
pub open spec fn recent_orders<P, D>(orders: Seq<Order<P, D>>, max: int) -> Seq<Order<P, D>> {
    if orders.len() <= max {
        orders
    } else {
        orders.subrange(orders.len() - max, orders.len() as int)
    }
}

/// Holds of the pending orders.
pub open spec fn is_pending_order<P, D>() -> spec_fn(Order<P, D>) -> bool {
    |o: Order<P, D>| o.status is Pending
}

/// Holds of the pending orders that count against budget `class`.
pub open spec fn is_pending_in<P, D>(class: OrderClass) -> spec_fn(Order<P, D>) -> bool {
    |o: Order<P, D>| o.status is Pending && o.order_type.spec_class() == class
}

/// The numbers of pending buy orders, sell orders and stop losses among the last `max`
/// orders.
pub open spec fn spec_num_pending<P, D>(orders: Seq<Order<P, D>>, max: int) -> (int, int, int) {
    let recent = recent_orders(orders, max);
    (
        recent.filter(is_pending_in(OrderClass::Buy)).len() as int,
        recent.filter(is_pending_in(OrderClass::Sell)).len() as int,
        recent.filter(is_pending_in(OrderClass::Stop)).len() as int,
    )
}

/// Filtering `s[start..i + 1]` is filtering `s[start..i]` and then looking at `s[i]`.
proof fn lemma_filter_step<A>(s: Seq<A>, start: int, i: int, pred: spec_fn(A) -> bool)
    requires
        0 <= start <= i < s.len(),
    ensures
        s.subrange(start, i + 1).filter(pred) == (if pred(s[i]) {
            s.subrange(start, i).filter(pred).push(s[i])
        } else {
            s.subrange(start, i).filter(pred)
        }),
{
    reveal(Seq::filter);
    assert(s.subrange(start, i + 1).drop_last() =~= s.subrange(start, i));
}

/// Nothing is left of an empty sequence by a filter.
proof fn lemma_filter_empty<A>(s: Seq<A>, pred: spec_fn(A) -> bool)
    requires
        s.len() == 0,
    ensures
        s.filter(pred) == Seq::<A>::empty(),
{
    reveal(Seq::filter);
    assert(s.filter(pred) =~= Seq::<A>::empty());
}

/// Counts the pending buy orders, sell orders (with take profits) and stop losses among
/// the last `max_pending_orders` orders.
pub fn get_num_pending_orders<P, D>(orders: &Vec<Order<P, D>>, max_pending_orders: usize) -> (res: (
    usize,
    usize,
    usize,
))
    ensures
        (res.0 as int, res.1 as int, res.2 as int) == spec_num_pending(
            orders@,
            max_pending_orders as int,
        ),
{
    let len = orders.len();
    let start = if len > max_pending_orders {
        len - max_pending_orders
    } else {
        0
    };
    let mut buy_orders: usize = 0;
    let mut sell_orders: usize = 0;
    let mut stop_losses: usize = 0;
    let mut i = start;
    proof {
        lemma_filter_empty(orders@.subrange(start as int, start as int), is_pending_in(OrderClass::Buy));
        lemma_filter_empty(orders@.subrange(start as int, start as int), is_pending_in(OrderClass::Sell));
        lemma_filter_empty(orders@.subrange(start as int, start as int), is_pending_in(OrderClass::Stop));
    }
    while i < len
        invariant
            start <= i <= len,
            len == orders.len(),
            buy_orders + sell_orders + stop_losses <= i - start,
            buy_orders == orders@.subrange(start as int, i as int).filter(
                is_pending_in(OrderClass::Buy),
            ).len(),
            sell_orders == orders@.subrange(start as int, i as int).filter(
                is_pending_in(OrderClass::Sell),
            ).len(),
            stop_losses == orders@.subrange(start as int, i as int).filter(
                is_pending_in(OrderClass::Stop),
            ).len(),
        decreases len - i,
    {
        proof {
            lemma_filter_step(orders@, start as int, i as int, is_pending_in(OrderClass::Buy));
            lemma_filter_step(orders@, start as int, i as int, is_pending_in(OrderClass::Sell));
            lemma_filter_step(orders@, start as int, i as int, is_pending_in(OrderClass::Stop));
        }
        let order = &orders[i];
        if order.is_pending() {
            match order.order_type.class() {
                OrderClass::Buy => buy_orders = buy_orders + 1,
                OrderClass::Sell => sell_orders = sell_orders + 1,
                OrderClass::Stop => stop_losses = stop_losses + 1,
            }
        }
        i = i + 1;
    }
    proof {
        assert(recent_orders(orders@, max_pending_orders as int) =~= orders@.subrange(
            start as int,
            len as int,
        ));
    }
    (buy_orders, sell_orders, stop_losses)
}

/// The pending orders among the last `max_pending_orders` orders, in their order.
pub fn get_pending<P: Copy, D: Copy>(orders: &Vec<Order<P, D>>, max_pending_orders: usize) -> (res: Vec<
    Order<P, D>,
>)
    ensures
        res@ == recent_orders(orders@, max_pending_orders as int).filter(is_pending_order()),
{
    let len = orders.len();
    let start = if len > max_pending_orders {
        len - max_pending_orders
    } else {
        0
    };
    let mut pending: Vec<Order<P, D>> = Vec::new();
    let mut i = start;
    proof {
        lemma_filter_empty(orders@.subrange(start as int, start as int), is_pending_order());
    }
    while i < len
        invariant
            start <= i <= len,
            len == orders.len(),
            pending@ == orders@.subrange(start as int, i as int).filter(is_pending_order()),
        decreases len - i,
    {
        proof {
            lemma_filter_step(orders@, start as int, i as int, is_pending_order());
        }
        let order = orders[i];
        if order.is_pending() {
            pending.push(order);
        }
        i = i + 1;
    }
    proof {
        assert(recent_orders(orders@, max_pending_orders as int) =~= orders@.subrange(
            start as int,
            len as int,
        ));
    }
    pending
}

/// The limits on pending orders that a strategy runs with.
#[derive(Debug, Clone, Copy, PartialEq, Eq, Structural)]
pub struct PendingOrderLimits {
    pub max_buy_orders: usize,
    pub max_sell_orders: usize,
    pub max_stop_losses: usize,
    pub max_pending_orders: usize,
}

/// Holds of a pending order whose budget still has room, given the numbers `counts` of
/// pending buy orders, sell orders and stop losses: a buy order needs room among both
/// buy orders and stop losses.
pub open spec fn admits<P, D>(counts: (int, int, int), limits: PendingOrderLimits) -> spec_fn(
    Order<P, D>,
) -> bool {
    |o: Order<P, D>|
        o.status is Pending && match o.order_type.spec_class() {
            OrderClass::Buy => counts.0 < limits.max_buy_orders && counts.2
                < limits.max_stop_losses,
            OrderClass::Sell => counts.1 < limits.max_sell_orders,
            OrderClass::Stop => counts.2 < limits.max_stop_losses,
        }
}

/// `orders` with the admitted new orders appended, when at most
/// `limits.max_pending_orders` of them are admitted; `orders` unchanged otherwise. What is
/// admitted is judged on the pending orders among the last `max_pending_orders` orders.
pub open spec fn spec_add_pending<P, D>(
    orders: Seq<Order<P, D>>,
    new_orders: Seq<Order<P, D>>,
    limits: PendingOrderLimits,
) -> Seq<Order<P, D>> {
    let accepted = new_orders.filter(
        admits(spec_num_pending(orders, limits.max_pending_orders as int), limits),
    );
    if accepted.len() <= limits.max_pending_orders {
        orders + accepted
    } else {
        orders
    }
}

/// Adds the new orders that the pending-order limits admit (see `spec_add_pending`).
pub fn add_pending<P: Copy, D: Copy>(
    orders: Vec<Order<P, D>>,
    new_orders: Vec<Order<P, D>>,
    limits: &PendingOrderLimits,
) -> (res: Vec<Order<P, D>>)
    ensures
        res@ == spec_add_pending(orders@, new_orders@, *limits),
{
    let (buy_orders, sell_orders, stop_losses) = get_num_pending_orders(
        &orders,
        limits.max_pending_orders,
    );
    let ghost counts = (buy_orders as int, sell_orders as int, stop_losses as int);
    let mut accepted: Vec<Order<P, D>> = Vec::new();
    let mut i: usize = 0;
    proof {
        lemma_filter_empty(new_orders@.subrange(0, 0), admits::<P, D>(counts, *limits));
    }
    while i < new_orders.len()
        invariant
            i <= new_orders.len(),
            counts == (buy_orders as int, sell_orders as int, stop_losses as int),
            accepted@ == new_orders@.subrange(0, i as int).filter(admits(counts, *limits)),
        decreases new_orders.len() - i,
    {
        proof {
            lemma_filter_step(new_orders@, 0, i as int, admits::<P, D>(counts, *limits));
        }
        let order = new_orders[i];
        let admitted = order.is_pending() && match order.order_type.class() {
            OrderClass::Buy => buy_orders < limits.max_buy_orders && stop_losses
                < limits.max_stop_losses,
            OrderClass::Sell => sell_orders < limits.max_sell_orders,
            OrderClass::Stop => stop_losses < limits.max_stop_losses,
        };
        if admitted {
            accepted.push(order);
        }
        i = i + 1;
    }
    proof {
        assert(new_orders@.subrange(0, new_orders@.len() as int) =~= new_orders@);
    }
    if accepted.len() <= limits.max_pending_orders {
        let mut all = orders;
        all.append(&mut accepted);
        all
    } else {
        orders
    }
}

/// Whether some order has the id `search_id`.
pub fn order_exists<P, D>(orders: &[Order<P, D>], search_id: usize) -> (res: bool)
    ensures
        res == exists|i: int| 0 <= i < orders@.len() && (#[trigger] orders@[i]).id == search_id,
{
    let mut i: usize = 0;
    while i < orders.len()
        invariant
            i <= orders@.len(),
            forall|j: int| 0 <= j < i ==> (#[trigger] orders@[j]).id != search_id,
        decreases orders.len() - i,
    {
        if orders[i].id == search_id {
            return true;
        }
        i = i + 1;
    }
    false
}

/// The index of the last order in `news` with the id `id`; -1 where none has it.
pub open spec fn last_index_with_id<P, D>(news: Seq<Order<P, D>>, id: usize) -> int
    decreases news.len(),
{
    if news.len() == 0 {
        -1
    } else if news.last().id == id {
        news.len() - 1
    } else {
        last_index_with_id(news.drop_last(), id)
    }
}

/// Whether no order before position `i` has the id of order `i`.
pub open spec fn first_with_its_id<P, D>(orders: Seq<Order<P, D>>, i: int) -> bool {
    forall|j: int| 0 <= j < i ==> (#[trigger] orders[j]).id != orders[i].id
}

/// `orders` where the first order with each id that occurs in `news` is replaced by the
/// last order of `news` with that id.
pub open spec fn spec_updated_orders<P, D>(
    orders: Seq<Order<P, D>>,
    news: Seq<Order<P, D>>,
) -> Seq<Order<P, D>> {
    Seq::new(
        orders.len(),
        |i: int|
            {
                let k = last_index_with_id(news, orders[i].id);
                if first_with_its_id(orders, i) && k >= 0 {
                    news[k]
                } else {
                    orders[i]
                }
            },
    )
}

/// The last index of an id in `news` lies inside `news`, and its order has that id.
proof fn lemma_last_index_with_id<P, D>(news: Seq<Order<P, D>>, id: usize)
    ensures
        -1 <= last_index_with_id(news, id) < news.len(),
        last_index_with_id(news, id) >= 0 ==> news[last_index_with_id(news, id)].id == id,
        last_index_with_id(news, id) < 0 ==> forall|k: int|
            0 <= k < news.len() ==> (#[trigger] news[k]).id != id,
    decreases news.len(),
{
    if news.len() > 0 {
        lemma_last_index_with_id(news.drop_last(), id);
        if news.last().id != id {
            assert forall|k: int| 0 <= k < news.len() - 1 implies news[k] == news.drop_last()[k] by {}
        }
    }
}

/// The position of the first order with the id `id`, if any.
fn first_index_with_id<P, D>(orders: &Vec<Order<P, D>>, id: usize) -> (res: Option<usize>)
    ensures
        match res {
            Some(p) => p < orders@.len() && orders@[p as int].id == id && forall|j: int|
                0 <= j < p ==> (#[trigger] orders@[j]).id != id,
            None => forall|j: int| 0 <= j < orders@.len() ==> (#[trigger] orders@[j]).id != id,
        },
{
    let mut i: usize = 0;
    while i < orders.len()
        invariant
            i <= orders@.len(),
            forall|j: int| 0 <= j < i ==> (#[trigger] orders@[j]).id != id,
        decreases orders.len() - i,
    {
        if orders[i].id == id {
            return Some(i);
        }
        i = i + 1;
    }
    None
}

/// Replaces, for each new order in turn, the first order with the same id by it; says
/// whether any order was replaced (see `spec_updated_orders`).
pub fn update_orders<P: Copy, D: Copy>(orders: &mut Vec<Order<P, D>>, new_orders: &[Order<P, D>]) -> (res: bool)
    ensures
        final(orders)@ == spec_updated_orders(old(orders)@, new_orders@),
        res == exists|i: int|
            0 <= i < old(orders)@.len() && last_index_with_id(new_orders@, (
            #[trigger] old(orders)@[i]).id) >= 0,
{
    let ghost initial = orders@;
    let mut updated = false;
    let mut m: usize = 0;
    proof {
        assert(initial =~= spec_updated_orders(initial, new_orders@.subrange(0, 0)));
    }
    while m < new_orders.len()
        invariant
            m <= new_orders@.len(),
            initial == old(orders)@,
            orders@.len() == initial.len(),
            forall|i: int| 0 <= i < initial.len() ==> (#[trigger] orders@[i]).id == initial[i].id,
            orders@ == spec_updated_orders(initial, new_orders@.subrange(0, m as int)),
            updated == exists|i: int|
                0 <= i < initial.len() && last_index_with_id(
                    new_orders@.subrange(0, m as int),
                    (#[trigger] initial[i]).id,
                ) >= 0,
        decreases new_orders.len() - m,
    {
        let new_order = new_orders[m];
        let ghost before = new_orders@.subrange(0, m as int);
        let ghost after = new_orders@.subrange(0, m + 1);
        let ghost prev = orders@;
        proof {
            assert(after.drop_last() =~= before);
            assert(after.last() == new_order);
        }
        match first_index_with_id(orders, new_order.id) {
            Some(p) => {
                proof {
                    assert forall|j: int| 0 <= j < p implies (#[trigger] initial[j]).id
                        != initial[p as int].id by {
                        assert(orders@[j].id == initial[j].id);
                    }
                }
                orders.set(p, new_order);
                updated = true;
                proof {
                    assert(orders@ == prev.update(p as int, new_order));
                    assert(last_index_with_id(after, initial[p as int].id) == m);
                    assert forall|i: int| 0 <= i < initial.len() implies #[trigger] orders@[i]
                        == spec_updated_orders(initial, after)[i] by {
                        let id = initial[i].id;
                        lemma_last_index_with_id(before, id);
                        let kb = last_index_with_id(before, id);
                        if id == new_order.id {
                            assert(last_index_with_id(after, id) == m);
                            if i != p {
                                assert(initial[p as int].id == initial[i].id);
                                if i < p {
                                    assert(prev[i].id == initial[i].id);
                                }
                                assert(!first_with_its_id(initial, i));
                            }
                        } else {
                            assert(last_index_with_id(after, id) == kb);
                            if kb >= 0 {
                                assert(after[kb] == before[kb]);
                            }
                        }
                    }
                    assert(orders@ =~= spec_updated_orders(initial, after));
                }
            },
            None => {
                proof {
                    assert forall|i: int| 0 <= i < initial.len() implies #[trigger] orders@[i]
                        == spec_updated_orders(initial, after)[i] by {
                        let id = initial[i].id;
                        assert(prev[i].id == initial[i].id);
                        lemma_last_index_with_id(before, id);
                        let kb = last_index_with_id(before, id);
                        assert(last_index_with_id(after, id) == kb);
                        if kb >= 0 {
                            assert(after[kb] == before[kb]);
                        }
                    }
                    assert(orders@ =~= spec_updated_orders(initial, after));
                    assert forall|i: int| 0 <= i < initial.len() implies last_index_with_id(
                        after,
                        (#[trigger] initial[i]).id,
                    ) == last_index_with_id(before, initial[i].id) by {
                        assert(prev[i].id == initial[i].id);
                    }
                }
            },
        }
        m = m + 1;
    }
    proof {
        assert(new_orders@.subrange(0, new_orders@.len() as int) =~= new_orders@);
    }
    updated
}

/// The orders left when those at the positions that `remove` marks are taken out.
pub open spec fn orders_kept<P, D>(orders: Seq<Order<P, D>>, remove: spec_fn(int) -> bool, n: int) -> Seq<
    Order<P, D>,
>
    decreases n,
{
    if n <= 0 {
        Seq::empty()
    } else if remove(n - 1) {
        orders_kept(orders, remove, n - 1)
    } else {
        orders_kept(orders, remove, n - 1).push(orders[n - 1])
    }
}

/// Which orders are kept depends only on the marks at their own positions.
proof fn lemma_orders_kept_agree<P, D>(
    orders: Seq<Order<P, D>>,
    f: spec_fn(int) -> bool,
    g: spec_fn(int) -> bool,
    n: int,
)
    requires
        forall|i: int| 0 <= i < n ==> #[trigger] f(i) == g(i),
    ensures
        orders_kept(orders, f, n) == orders_kept(orders, g, n),
    decreases n,
{
    if n > 0 {
        lemma_orders_kept_agree(orders, f, g, n - 1);
    }
}

/// Takes out of `orders` those at the positions that `remove` marks.
fn remove_marked<P: Copy, D: Copy>(orders: &mut Vec<Order<P, D>>, remove: &Vec<bool>)
    requires
        remove@.len() == old(orders)@.len(),
    ensures
        final(orders)@ == orders_kept(old(orders)@, |i: int| remove@[i], old(orders)@.len() as int),
{
    let ghost marks = |i: int| remove@[i];
    let mut kept: Vec<Order<P, D>> = Vec::new();
    let mut i: usize = 0;
    while i < orders.len()
        invariant
            i <= orders@.len(),
            remove@.len() == orders@.len(),
            orders@ == old(orders)@,
            marks == (|i: int| remove@[i]),
            kept@ == orders_kept(orders@, marks, i as int),
        decreases orders.len() - i,
    {
        if !remove[i] {
            kept.push(orders[i]);
        }
        i = i + 1;
    }
    *orders = kept;
}

/// An order once a trade has happened outside a back test: a pending order is fulfilled at
/// bar `index_out` on `fulfilled_at` after a stop loss, and canceled on `canceled_at` after
/// any other trade; other orders stay as they are.
pub open spec fn spec_settled<P, D>(
    order: Order<P, D>,
    is_stop: bool,
    index_out: usize,
    fulfilled_at: D,
    canceled_at: D,
) -> Order<P, D> {
    if order.status is Pending {
        if is_stop {
            order.spec_fulfilled(index_out, fulfilled_at)
        } else {
            order.spec_canceled(canceled_at)
        }
    } else {
        order
    }
}

/// The orders once a trade of kind `trade_type` has happened: in a back test the pending
/// orders are dropped, otherwise each order is settled (see `spec_settled`).
pub open spec fn spec_state_after_trade<P, D>(
    orders: Seq<Order<P, D>>,
    trade_type: TradeType,
    index_out: usize,
    fulfilled_at: D,
    canceled_at: D,
    is_back_test: bool,
) -> Seq<Order<P, D>> {
    if is_back_test {
        orders_kept(orders, |i: int| orders[i].status is Pending, orders.len() as int)
    } else {
        Seq::new(
            orders.len(),
            |i: int|
                spec_settled(
                    orders[i],
                    trade_type.spec_is_stop(),
                    index_out,
                    fulfilled_at,
                    canceled_at,
                ),
        )
    }
}

/// The orders once those that `expired` marks have run out: in a test run the pending
/// expired orders are dropped, otherwise they are canceled on `canceled_at`.
pub open spec fn spec_after_expiry<P, D>(
    orders: Seq<Order<P, D>>,
    expired: Seq<bool>,
    canceled_at: D,
    is_test_run: bool,
) -> Seq<Order<P, D>> {
    if is_test_run {
        orders_kept(
            orders,
            |i: int| orders[i].status is Pending && expired[i],
            orders.len() as int,
        )
    } else {
        Seq::new(
            orders.len(),
            |i: int|
                if orders[i].status is Pending && expired[i] {
                    orders[i].spec_canceled(canceled_at)
                } else {
                    orders[i]
                },
        )
    }
}

/// Moves the pending orders on when a trade of kind `trade_type` has happened: in a back
/// test they are dropped; otherwise, after a stop loss they are fulfilled at bar `index_out`
/// on `fulfilled_at`, and after any other trade they are canceled on `canceled_at`.
pub fn update_state_pending_orders<P: Copy, D: Copy>(
    trade_type: &TradeType,
    index_out: usize,
    fulfilled_at: D,
    canceled_at: D,
    is_back_test: bool,
    orders: &mut Vec<Order<P, D>>,
)
    ensures
        final(orders)@ == spec_state_after_trade(
            old(orders)@,
            *trade_type,
            index_out,
            fulfilled_at,
            canceled_at,
            is_back_test,
        ),
{
    if is_back_test {
        let mut pending: Vec<bool> = Vec::new();
        let mut i: usize = 0;
        while i < orders.len()
            invariant
                i <= orders@.len(),
                pending@.len() == i,
                forall|j: int| 0 <= j < i ==> pending@[j] == (orders@[j].status is Pending),
            decreases orders.len() - i,
        {
            pending.push(orders[i].is_pending());
            i = i + 1;
        }
        let ghost before = orders@;
        remove_marked(orders, &pending);
        proof {
            lemma_orders_kept_agree(
                before,
                |i: int| pending@[i],
                |i: int| before[i].status is Pending,
                before.len() as int,
            );
        }
    } else {
        let is_stop = trade_type.is_stop();
        let mut i: usize = 0;
        while i < orders.len()
            invariant
                i <= orders@.len(),
                orders@.len() == old(orders)@.len(),
                is_stop == trade_type.spec_is_stop(),
                forall|j: int| i <= j < orders@.len() ==> #[trigger] orders@[j] == old(orders)@[j],
                forall|j: int|
                    0 <= j < i ==> #[trigger] orders@[j] == if old(orders)@[j].status is Pending {
                        if is_stop {
                            old(orders)@[j].spec_fulfilled(index_out, fulfilled_at)
                        } else {
                            old(orders)@[j].spec_canceled(canceled_at)
                        }
                    } else {
                        old(orders)@[j]
                    },
            decreases orders.len() - i,
        {
            let mut order = orders[i];
            if order.is_pending() {
                if is_stop {
                    order.fulfill_order(index_out, fulfilled_at);
                } else {
                    order.cancel_order(canceled_at);
                }
            }
            orders.set(i, order);
            i = i + 1;
        }
        proof {
            assert(orders@ =~= spec_state_after_trade(
                old(orders)@,
                *trade_type,
                index_out,
                fulfilled_at,
                canceled_at,
                is_back_test,
            ));
        }
    }
}

/// Deals with the pending orders that `expired` marks as past their validity: in a back
/// test or a bot test they are dropped, otherwise they are canceled on `canceled_at`.
/// Returns the orders that are left.
pub fn cancel_pending_expired_orders<P: Copy, D: Copy>(
    is_test_run: bool,
    expired: &Vec<bool>,
    canceled_at: D,
    orders: &mut Vec<Order<P, D>>,
) -> (res: Vec<Order<P, D>>)
    requires
        expired@.len() == old(orders)@.len(),
    ensures
        final(orders)@ == spec_after_expiry(old(orders)@, expired@, canceled_at, is_test_run),
        res@ == final(orders)@,
{
    if is_test_run {
        let mut drop: Vec<bool> = Vec::new();
        let mut i: usize = 0;
        while i < orders.len()
            invariant
                i <= orders@.len(),
                expired@.len() == orders@.len(),
                drop@.len() == i,
                forall|j: int|
                    0 <= j < i ==> drop@[j] == (orders@[j].status is Pending && expired@[j]),
            decreases orders.len() - i,
        {
            drop.push(orders[i].is_pending() && expired[i]);
            i = i + 1;
        }
        let ghost before = orders@;
        remove_marked(orders, &drop);
        proof {
            lemma_orders_kept_agree(
                before,
                |i: int| drop@[i],
                |i: int| before[i].status is Pending && expired@[i],
                before.len() as int,
            );
        }
    } else {
        let mut i: usize = 0;
        while i < orders.len()
            invariant
                i <= orders@.len(),
                orders@.len() == old(orders)@.len(),
                expired@.len() == orders@.len(),
                forall|j: int| i <= j < orders@.len() ==> #[trigger] orders@[j] == old(orders)@[j],
                forall|j: int|
                    0 <= j < i ==> #[trigger] orders@[j] == if old(orders)@[j].status is Pending
                        && expired@[j] {
                        old(orders)@[j].spec_canceled(canceled_at)
                    } else {
                        old(orders)@[j]
                    },
            decreases orders.len() - i,
        {
            let mut order = orders[i];
            if order.is_pending() && expired[i] {
                order.cancel_order(canceled_at);
            }
            orders.set(i, order);
            i = i + 1;
        }
        proof {
            assert(orders@ =~= spec_after_expiry(old(orders)@, expired@, canceled_at, is_test_run));
        }
    }
    let mut copy: Vec<Order<P, D>> = Vec::new();
    let mut k: usize = 0;
    while k < orders.len()
        invariant
            k <= orders@.len(),
            copy@ == orders@.subrange(0, k as int),
        decreases orders.len() - k,
    {
        copy.push(orders[k]);
        k = k + 1;
        proof {
            assert(copy@ =~= orders@.subrange(0, k as int));
        }
    }
    proof {
        assert(copy@ =~= orders@);
    }
    copy
}

/// Attaches the pending orders to the trade `trade_in` once it is open: each pending order
/// takes the trade's id, its entry price as origin price, and `extended_valid_until[i]`
/// (its validity pushed ten years further) as its new validity.
pub fn update_trade_pending_orders<P: Copy, D: Copy>(
    orders: &mut Vec<Order<P, D>>,
    trade_in: &TradeIn<P, D>,
    extended_valid_until: &Vec<D>,
)
    requires
        extended_valid_until@.len() == old(orders)@.len(),
    ensures
        final(orders)@.len() == old(orders)@.len(),
        forall|i: int|
            0 <= i < old(orders)@.len() ==> #[trigger] final(orders)@[i] == if old(orders)@[i].status is Pending {
                Order {
                    trade_id: trade_in.id,
                    origin_price: trade_in.price_in,
                    valid_until: Some(extended_valid_until@[i]),
                    ..old(orders)@[i]
                }
            } else {
                old(orders)@[i]
            },
{
    let mut i: usize = 0;
    while i < orders.len()
        invariant
            i <= orders@.len(),
            orders@.len() == old(orders)@.len(),
            extended_valid_until@.len() == orders@.len(),
            forall|j: int| i <= j < orders@.len() ==> #[trigger] orders@[j] == old(orders)@[j],
            forall|j: int|
                0 <= j < i ==> #[trigger] orders@[j] == if old(orders)@[j].status is Pending {
                    Order {
                        trade_id: trade_in.id,
                        origin_price: trade_in.price_in,
                        valid_until: Some(extended_valid_until@[j]),
                        ..old(orders)@[j]
                    }
                } else {
                    old(orders)@[j]
                },
        decreases orders.len() - i,
    {
        let mut order = orders[i];
        if order.is_pending() {
            order.set_trade_id(trade_in.id);
            order.set_origin_price(trade_in.price_in);
            order.set_valid_until(extended_valid_until[i]);
        }
        orders.set(i, order);
        i = i + 1;
    }
}

/// Fulfills, at bar `index` on `date`, the first pending order that `same_type` marks as
/// being of the kind of the order that triggered the trade; the other orders stay as
/// they are. Returns the position of the fulfilled order.
pub fn fulfill_trade_order<P: Copy, D: Copy>(
    index: usize,
    date: D,
    same_type: &Vec<bool>,
    orders: &mut Vec<Order<P, D>>,
) -> (res: Option<usize>)
    requires
        same_type@.len() == old(orders)@.len(),
    ensures
        match res {
            Some(p) => {
                &&& p < old(orders)@.len()
                &&& old(orders)@[p as int].status is Pending && same_type@[p as int]
                &&& forall|j: int|
                    0 <= j < p ==> !((#[trigger] old(orders)@[j]).status is Pending
                        && same_type@[j])
                &&& final(orders)@ == old(orders)@.update(
                    p as int,
                    old(orders)@[p as int].spec_fulfilled(index, date),
                )
            },
            None => {
                &&& forall|j: int|
                    0 <= j < old(orders)@.len() ==> !((#[trigger] old(orders)@[j]).status
                        is Pending && same_type@[j])
                &&& final(orders)@ == old(orders)@
            },
        },
{
    let mut i: usize = 0;
    while i < orders.len()
        invariant
            i <= orders@.len(),
            orders@ == old(orders)@,
            same_type@.len() == orders@.len(),
            forall|j: int|
                0 <= j < i ==> !((#[trigger] orders@[j]).status is Pending && same_type@[j]),
        decreases orders.len() - i,
    {
        if orders[i].is_pending() && same_type[i] {
            let mut order = orders[i];
            order.fulfill_order(index, date);
            orders.set(i, order);
            return Some(i);
        }
        i = i + 1;
    }
    None
}

/// Each order kept comes from an unmarked position among the first `n`.
proof fn lemma_orders_kept_from<P, D>(orders: Seq<Order<P, D>>, remove: spec_fn(int) -> bool, n: int)
    requires
        n <= orders.len(),
    ensures
        orders_kept(orders, remove, n).len() <= if n < 0 { 0 } else { n },
        forall|k: int|
            0 <= k < orders_kept(orders, remove, n).len() ==> exists|j: int|
                0 <= j < n && !remove(j) && #[trigger] orders_kept(orders, remove, n)[k]
                    == orders[j],
    decreases n,
{
    if n > 0 {
        lemma_orders_kept_from(orders, remove, n - 1);
        let prev = orders_kept(orders, remove, n - 1);
        let kept = orders_kept(orders, remove, n);
        assert forall|k: int| 0 <= k < kept.len() implies exists|j: int|
            0 <= j < n && !remove(j) && #[trigger] kept[k] == orders[j] by {
            if k < prev.len() {
                assert(kept[k] == prev[k]);
                let j = choose|j: int| 0 <= j < n - 1 && !remove(j) && prev[k] == orders[j];
                assert(0 <= j < n && !remove(j) && kept[k] == orders[j]);
            } else {
                assert(!remove(n - 1) && kept[k] == orders[n - 1]);
            }
        }
    }
}

/// The pending orders among the last `max` orders are exactly the pending buy orders,
/// sell orders and stop losses counted there, and there are at most `max` of them.
pub proof fn lemma_pending_counts_add_up<P, D>(orders: Seq<Order<P, D>>, max: int)
    requires
        max >= 0,
    ensures
        spec_num_pending(orders, max).0 + spec_num_pending(orders, max).1
            + spec_num_pending(orders, max).2 == recent_orders(orders, max).filter(
            is_pending_order(),
        ).len(),
        recent_orders(orders, max).filter(is_pending_order()).len() <= max,
{
    let recent = recent_orders(orders, max);
    lemma_class_counts_add_up(recent);
    recent.lemma_filter_len(is_pending_order());
}

/// In any run of orders, the pending ones split into buy orders, sell orders and stop
/// losses.
proof fn lemma_class_counts_add_up<P, D>(s: Seq<Order<P, D>>)
    ensures
        s.filter(is_pending_in(OrderClass::Buy)).len() + s.filter(is_pending_in(OrderClass::Sell)).len()
            + s.filter(is_pending_in(OrderClass::Stop)).len() == s.filter(is_pending_order()).len(),
    decreases s.len(),
{
    reveal(Seq::filter);
    if s.len() > 0 {
        lemma_class_counts_add_up(s.drop_last());
    }
}

/// Adding new orders never changes or drops the orders already there, adds at most
/// `max_pending_orders` of them, and adds only pending ones.
pub proof fn lemma_add_pending_extends<P, D>(
    orders: Seq<Order<P, D>>,
    new_orders: Seq<Order<P, D>>,
    limits: PendingOrderLimits,
)
    ensures
        spec_add_pending(orders, new_orders, limits).len() <= orders.len()
            + limits.max_pending_orders,
        spec_add_pending(orders, new_orders, limits).subrange(0, orders.len() as int) == orders,
        forall|k: int|
            orders.len() <= k < spec_add_pending(orders, new_orders, limits).len() ==> (
            #[trigger] spec_add_pending(orders, new_orders, limits)[k]).status is Pending,
{
    let pred = admits::<P, D>(spec_num_pending(orders, limits.max_pending_orders as int), limits);
    let accepted = new_orders.filter(pred);
    let res = spec_add_pending(orders, new_orders, limits);
    assert(res.subrange(0, orders.len() as int) =~= orders);
    assert forall|k: int| orders.len() <= k < res.len() implies (#[trigger] res[k]).status is Pending by {
        if accepted.len() <= limits.max_pending_orders {
            new_orders.lemma_filter_pred(pred, k - orders.len());
        }
    }
}

/// After a trade no order is left pending, whether the pending orders were dropped (back
/// test) or fulfilled or canceled.
pub proof fn lemma_no_pending_after_trade<P, D>(
    orders: Seq<Order<P, D>>,
    trade_type: TradeType,
    index_out: usize,
    fulfilled_at: D,
    canceled_at: D,
    is_back_test: bool,
)
    ensures
        forall|k: int|
            0 <= k < spec_state_after_trade(
                orders,
                trade_type,
                index_out,
                fulfilled_at,
                canceled_at,
                is_back_test,
            ).len() ==> !(#[trigger] spec_state_after_trade(
                orders,
                trade_type,
                index_out,
                fulfilled_at,
                canceled_at,
                is_back_test,
            )[k]).spec_is_pending(),
{
    if is_back_test {
        lemma_orders_kept_from(orders, |i: int| orders[i].status is Pending, orders.len() as int);
    }
}

/// After the expired orders are dealt with, every order still pending was not marked
/// expired: in a test run the orders left are the unexpired or non-pending ones, in their
/// order; otherwise the orders keep their places.
pub proof fn lemma_no_expired_pending_left<P, D>(
    orders: Seq<Order<P, D>>,
    expired: Seq<bool>,
    canceled_at: D,
    is_test_run: bool,
)
    requires
        expired.len() == orders.len(),
    ensures
        forall|k: int|
            0 <= k < spec_after_expiry(orders, expired, canceled_at, is_test_run).len() && (
            #[trigger] spec_after_expiry(orders, expired, canceled_at, is_test_run)[k]).status
                is Pending ==> exists|j: int|
                0 <= j < orders.len() && !expired[j] && orders[j] == spec_after_expiry(
                    orders,
                    expired,
                    canceled_at,
                    is_test_run,
                )[k],
{
    let res = spec_after_expiry(orders, expired, canceled_at, is_test_run);
    let marks = |i: int| orders[i].status is Pending && expired[i];
    if is_test_run {
        lemma_orders_kept_from(orders, marks, orders.len() as int);
    }
    assert forall|k: int| 0 <= k < res.len() && (#[trigger] res[k]).status is Pending implies exists|j: int|
        0 <= j < orders.len() && !expired[j] && orders[j] == res[k] by {
        if is_test_run {
            let j = choose|j: int| 0 <= j < orders.len() && !marks(j) && res[k] == orders[j];
            assert(!expired[j]);
        } else {
            assert(orders[k] == res[k]);
        }
    }
}

/// Updating orders keeps their number and the id at every position, so which ids exist
/// does not change.
pub proof fn lemma_update_orders_keeps_ids<P, D>(orders: Seq<Order<P, D>>, news: Seq<Order<P, D>>)
    ensures
        spec_updated_orders(orders, news).len() == orders.len(),
        forall|i: int|
            0 <= i < orders.len() ==> (#[trigger] spec_updated_orders(orders, news)[i]).id
                == orders[i].id,
{
    assert forall|i: int| 0 <= i < orders.len() implies (#[trigger] spec_updated_orders(
        orders,
        news,
    )[i]).id == orders[i].id by {
        lemma_last_index_with_id(news, orders[i].id);
    }
}

/// Whether a pending order can be triggered: it belongs to an open trade or opens one.
pub open spec fn spec_is_live<P, D>(order: Order<P, D>) -> bool {
    order.status is Pending && (order.trade_id > 0 || order.order_type.spec_is_entry())
}

/// The position of the last order among the first `n` that is live and that `activated`
/// marks as triggered, if any.
pub open spec fn last_triggered<P, D>(orders: Seq<Order<P, D>>, activated: Seq<bool>, n: int) -> Option<int>
    decreases n,
{
    if n <= 0 {
        None
    } else if spec_is_live(orders[n - 1]) && activated[n - 1] {
        Some(n - 1)
    } else {
        last_triggered(orders, activated, n - 1)
    }
}

/// What the triggered orders ask for: the last live order that `activated` marks gives a
/// market entry (buy orders) or exit (the others) through it; nothing when no order
/// triggered or when no stop loss is pending among the last `max_pending_orders` orders
/// (no trade is open).
pub open spec fn spec_resolve_active_orders<P, D>(
    orders: Seq<Order<P, D>>,
    activated: Seq<bool>,
    max_pending_orders: int,
) -> Position<P, D> {
    if spec_num_pending(orders, max_pending_orders).2 > 0 {
        match last_triggered(orders, activated, orders.len() as int) {
            Some(k) => if orders[k].order_type.spec_is_entry() {
                Position::MarketInOrder(orders[k])
            } else {
                Position::MarketOutOrder(orders[k])
            },
            None => Position::NoPosition,
        }
    } else {
        Position::NoPosition
    }
}

/// The position that the triggered orders ask for (see `spec_resolve_active_orders`);
/// `activated[i]` says whether the price reached the target of order `i`.
pub fn resolve_active_orders<P: Copy, D: Copy>(
    orders: &Vec<Order<P, D>>,
    activated: &Vec<bool>,
    max_pending_orders: usize,
) -> (res: Position<P, D>)
    requires
        activated@.len() == orders@.len(),
    ensures
        res == spec_resolve_active_orders(orders@, activated@, max_pending_orders as int),
{
    let mut order_position: Position<P, D> = Position::NoPosition;
    let mut i: usize = 0;
    while i < orders.len()
        invariant
            i <= orders@.len(),
            activated@.len() == orders@.len(),
            order_position == match last_triggered(orders@, activated@, i as int) {
                Some(k) => if orders@[k].order_type.spec_is_entry() {
                    Position::MarketInOrder(orders@[k])
                } else {
                    Position::MarketOutOrder(orders@[k])
                },
                None => Position::<P, D>::NoPosition,
            },
        decreases orders.len() - i,
    {
        let order = orders[i];
        if order.is_pending() && (order.has_active_trade() || order.is_entry()) && activated[i] {
            if order.order_type.is_entry() {
                order_position = Position::MarketInOrder(order);
            } else {
                order_position = Position::MarketOutOrder(order);
            }
        }
        i = i + 1;
    }
    let (_, _, pending_stop_losses) = get_num_pending_orders(orders, max_pending_orders);
    if pending_stop_losses > 0 {
        order_position
    } else {
        Position::NoPosition
    }
}

/// The orders kept when the pending ones among the first `n` are dropped are the
/// non-pending ones among them, in their order.
proof fn lemma_kept_is_filter<P, D>(orders: Seq<Order<P, D>>, n: int)
    requires
        0 <= n <= orders.len(),
    ensures
        orders_kept(orders, |i: int| orders[i].status is Pending, n) == orders.take(n).filter(
            |o: Order<P, D>| !(o.status is Pending),
        ),
    decreases n,
{
    reveal(Seq::filter);
    if n > 0 {
        lemma_kept_is_filter(orders, n - 1);
        assert(orders.take(n).drop_last() =~= orders.take(n - 1));
    } else {
        assert(orders.take(n).len() == 0);
    }
}

/// After a trade outside a back test, every pending order is fulfilled at bar `index_out` on
/// `fulfilled_at` when the trade is a stop loss (long or short) and canceled on
/// `canceled_at` otherwise, everything else about it unchanged; orders that are not pending
/// stay as they are. In a back test the pending orders are dropped and the others kept in
/// their order.
pub proof fn lemma_settling_after_a_trade<P, D>(
    orders: Seq<Order<P, D>>,
    trade_type: TradeType,
    index_out: usize,
    fulfilled_at: D,
    canceled_at: D,
    is_back_test: bool,
)
    ensures
        ({
            let res = spec_state_after_trade(
                orders,
                trade_type,
                index_out,
                fulfilled_at,
                canceled_at,
                is_back_test,
            );
            let stop_trade = trade_type is StopLossLong || trade_type is StopLossShort;
            &&& is_back_test ==> res == orders.filter(|o: Order<P, D>| !(o.status is Pending))
            &&& !is_back_test ==> res.len() == orders.len()
            &&& !is_back_test ==> forall|i: int|
                0 <= i < orders.len() ==> #[trigger] res[i] == if !(orders[i].status is Pending) {
                    orders[i]
                } else if stop_trade {
                    Order {
                        status: OrderStatus::Fulfilled,
                        index_fulfilled: index_out,
                        updated_at: Some(fulfilled_at),
                        full_filled_at: Some(fulfilled_at),
                        ..orders[i]
                    }
                } else {
                    Order {
                        status: OrderStatus::Canceled,
                        updated_at: Some(canceled_at),
                        ..orders[i]
                    }
                }
        }),
{
    if is_back_test {
        lemma_kept_is_filter(orders, orders.len() as int);
        assert(orders.take(orders.len() as int) =~= orders);
    }
}

/// Outside a test run, the pending orders marked expired are canceled on `canceled_at`,
/// everything else about them unchanged, and all other orders stay as they are.
pub proof fn lemma_canceling_expired_orders<P, D>(
    orders: Seq<Order<P, D>>,
    expired: Seq<bool>,
    canceled_at: D,
)
    requires
        expired.len() == orders.len(),
    ensures
        ({
            let res = spec_after_expiry(orders, expired, canceled_at, false);
            &&& res.len() == orders.len()
            &&& forall|i: int|
                0 <= i < orders.len() ==> #[trigger] res[i] == if orders[i].status is Pending
                    && expired[i] {
                    Order {
                        status: OrderStatus::Canceled,
                        updated_at: Some(canceled_at),
                        ..orders[i]
                    }
                } else {
                    orders[i]
                }
        }),
{
}

/// The last `max` orders of `orders` (all of them where there are fewer).
pub open spec fn last_orders<P, D>(orders: Seq<Order<P, D>>, max: int) -> Seq<Order<P, D>> {
    orders.subrange(if orders.len() > max { orders.len() - max } else { 0 }, orders.len() as int)
}

/// Holds of the pending buy orders.
pub open spec fn pending_buy<P, D>() -> spec_fn(Order<P, D>) -> bool {
    |o: Order<P, D>|
        o.status is Pending && (o.order_type is BuyOrderLong || o.order_type is BuyOrderShort)
}

/// Holds of the pending sell orders and take profits.
pub open spec fn pending_sell<P, D>() -> spec_fn(Order<P, D>) -> bool {
    |o: Order<P, D>|
        o.status is Pending && (o.order_type is SellOrderLong || o.order_type is SellOrderShort
            || o.order_type is TakeProfitLong || o.order_type is TakeProfitShort)
}

/// Holds of the pending stop losses.
pub open spec fn pending_stop<P, D>() -> spec_fn(Order<P, D>) -> bool {
    |o: Order<P, D>|
        o.status is Pending && (o.order_type is StopLossLong || o.order_type is StopLossShort)
}

/// The counts of `spec_num_pending` are those of pending buy orders, of pending sell orders
/// and take profits, and of pending stop losses among the last `max` orders.
proof fn lemma_num_pending_by_kind<P, D>(orders: Seq<Order<P, D>>, max: int)
    requires
        max >= 0,
    ensures
        spec_num_pending(orders, max) == (
            last_orders(orders, max).filter(pending_buy()).len() as int,
            last_orders(orders, max).filter(pending_sell()).len() as int,
            last_orders(orders, max).filter(pending_stop()).len() as int,
        ),
{
    assert(recent_orders(orders, max) =~= last_orders(orders, max));
    assert(is_pending_in::<P, D>(OrderClass::Buy) =~= pending_buy::<P, D>());
    assert(is_pending_in::<P, D>(OrderClass::Sell) =~= pending_sell::<P, D>());
    assert(is_pending_in::<P, D>(OrderClass::Stop) =~= pending_stop::<P, D>());
}

/// The orders that `add_pending` appends are pending, and each respects its budget among
/// the last `max_pending_orders` existing orders: a buy order is appended only while fewer
/// than `max_buy_orders` buy orders and fewer than `max_stop_losses` stop losses are
/// pending, a sell order or take profit only while fewer than `max_sell_orders` of them
/// are, a stop loss only while fewer than `max_stop_losses` are. When every budget has room
/// and there are at most `max_pending_orders` new orders, all the pending new orders are
/// appended, in their order.
pub proof fn lemma_add_pending_respects_limits<P, D>(
    orders: Seq<Order<P, D>>,
    new_orders: Seq<Order<P, D>>,
    limits: PendingOrderLimits,
)
    ensures
        ({
            let recent = last_orders(orders, limits.max_pending_orders as int);
            let buys = recent.filter(pending_buy()).len();
            let sells = recent.filter(pending_sell()).len();
            let stops = recent.filter(pending_stop()).len();
            let res = spec_add_pending(orders, new_orders, limits);
            &&& res.subrange(0, orders.len() as int) == orders
            &&& res.len() <= orders.len() + limits.max_pending_orders
            &&& forall|k: int|
                orders.len() <= k < res.len() ==> {
                    let o = #[trigger] res[k];
                    &&& o.status is Pending
                    &&& (o.order_type is BuyOrderLong || o.order_type is BuyOrderShort) ==> (buys
                        < limits.max_buy_orders && stops < limits.max_stop_losses)
                    &&& (o.order_type is SellOrderLong || o.order_type is SellOrderShort
                        || o.order_type is TakeProfitLong || o.order_type is TakeProfitShort) ==> sells
                        < limits.max_sell_orders
                    &&& (o.order_type is StopLossLong || o.order_type is StopLossShort) ==> stops
                        < limits.max_stop_losses
                }
            &&& (buys < limits.max_buy_orders && sells < limits.max_sell_orders && stops
                < limits.max_stop_losses && new_orders.len() <= limits.max_pending_orders) ==> res
                == orders + new_orders.filter(|o: Order<P, D>| o.status is Pending)
        }),
{
    let max = limits.max_pending_orders as int;
    lemma_num_pending_by_kind(orders, max);
    lemma_add_pending_extends(orders, new_orders, limits);
    let counts = spec_num_pending(orders, max);
    let pred = admits::<P, D>(counts, limits);
    let accepted = new_orders.filter(pred);
    let res = spec_add_pending(orders, new_orders, limits);
    assert forall|k: int| orders.len() <= k < res.len() implies pred(#[trigger] res[k]) by {
        if accepted.len() <= limits.max_pending_orders {
            new_orders.lemma_filter_pred(pred, k - orders.len());
            assert(res[k] == accepted[k - orders.len()]);
        }
    }
    let recent = last_orders(orders, max);
    let buys = recent.filter(pending_buy()).len();
    let sells = recent.filter(pending_sell()).len();
    let stops = recent.filter(pending_stop()).len();
    if buys < limits.max_buy_orders && sells < limits.max_sell_orders && stops
        < limits.max_stop_losses && new_orders.len() <= limits.max_pending_orders {
        let pending = |o: Order<P, D>| o.status is Pending;
        assert(pred =~= pending);
        new_orders.lemma_filter_len(pred);
    }
}

/// Whether order `i` can be triggered and was: it is pending, belongs to an open trade or
/// is a buy order, and `activated` marks it.
pub open spec fn triggered_at<P, D>(orders: Seq<Order<P, D>>, activated: Seq<bool>, i: int) -> bool {
    &&& orders[i].status is Pending
    &&& (orders[i].trade_id > 0 || orders[i].order_type is BuyOrderLong
        || orders[i].order_type is BuyOrderShort)
    &&& activated[i]
}

/// What `last_triggered` finds: the last triggered order among the first `n`.
proof fn lemma_last_triggered<P, D>(orders: Seq<Order<P, D>>, activated: Seq<bool>, n: int)
    requires
        0 <= n <= orders.len(),
        activated.len() == orders.len(),
    ensures
        match last_triggered(orders, activated, n) {
            Some(k) => 0 <= k < n && triggered_at(orders, activated, k) && forall|j: int|
                k < j < n ==> !#[trigger] triggered_at(orders, activated, j),
            None => forall|j: int| 0 <= j < n ==> !#[trigger] triggered_at(orders, activated, j),
        },
    decreases n,
{
    if n > 0 {
        lemma_last_triggered(orders, activated, n - 1);
    }
}

/// The position that triggered orders ask for is made of the last triggered order (pending,
/// belonging to an open trade or a buy order, and marked activated): a market entry
/// through it when it is a buy order, a market exit through it when it is a sell order, a
/// take profit or a stop loss. There is a position exactly when some order triggered and a
/// stop loss is pending among the last `max_pending_orders` orders.
pub proof fn lemma_resolved_position<P, D>(
    orders: Seq<Order<P, D>>,
    activated: Seq<bool>,
    max_pending_orders: int,
)
    requires
        activated.len() == orders.len(),
        max_pending_orders >= 0,
    ensures
        ({
            let res = spec_resolve_active_orders(orders, activated, max_pending_orders);
            let any_triggered = exists|i: int|
                0 <= i < orders.len() && #[trigger] triggered_at(orders, activated, i);
            let trade_open = last_orders(orders, max_pending_orders).filter(pending_stop()).len()
                > 0;
            let decisive = |o: Order<P, D>|
                exists|i: int|
                    0 <= i < orders.len() && orders[i] == o && #[trigger] triggered_at(
                        orders,
                        activated,
                        i,
                    ) && forall|j: int|
                        i < j < orders.len() ==> !#[trigger] triggered_at(orders, activated, j);
            &&& (res is NoPosition) <==> !(any_triggered && trade_open)
            &&& (res is NoPosition || res is MarketInOrder || res is MarketOutOrder)
            &&& res matches Position::MarketInOrder(o) ==> decisive(o) && (o.order_type is BuyOrderLong
                || o.order_type is BuyOrderShort)
            &&& res matches Position::MarketOutOrder(o) ==> decisive(o) && !(o.order_type
                is BuyOrderLong || o.order_type is BuyOrderShort)
        }),
{
    lemma_num_pending_by_kind(orders, max_pending_orders);
    lemma_last_triggered(orders, activated, orders.len() as int);
    let res = spec_resolve_active_orders(orders, activated, max_pending_orders);
    match last_triggered(orders, activated, orders.len() as int) {
        Some(k) => {
            assert(triggered_at(orders, activated, k));
        },
        None => {},
    }
}

} // verus!
