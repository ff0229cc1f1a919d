use crate::broker::models::{TransactionCommand, TransactionState};
use crate::models::order::{Order, OrderType};
use crate::models::trade::TradeType;
use vstd::prelude::*;

verus! {

/// How many times a trade transaction is sent to the broker before giving up.
pub const MAX_TRANSACTION_RETRIES: usize = 3;

/// Where sending a trade transaction stands: the failed attempts so far and whether the
/// broker accepted it.
#[derive(Debug, Clone, Copy, PartialEq, Eq, Structural)]
pub struct TransactionAttempts {
    pub attempts: usize,
    pub accepted: bool,
}

/// What the broker answered to one sending: the transaction was not executed, it was
/// executed but its status is not accepted (`status`), or it was executed and accepted.
#[derive(Debug, Clone, Copy, PartialEq, Eq, Structural)]
pub enum TransactionReply {
    NotExecuted,
    Executed(TransactionState),
}

/// Nothing sent yet.
pub fn start_transaction() -> (res: TransactionAttempts)
    ensures
        res == (TransactionAttempts { attempts: 0, accepted: false }),
{
    TransactionAttempts { attempts: 0, accepted: false }
}

/// Whether to send the transaction (again): not accepted yet and fewer than
/// `MAX_TRANSACTION_RETRIES` failed attempts.
pub fn should_send(state: &TransactionAttempts) -> (res: bool)
    ensures
        res == (!state.accepted && state.attempts < MAX_TRANSACTION_RETRIES),
{
    !state.accepted && state.attempts < MAX_TRANSACTION_RETRIES
}

/// The state after the broker's reply to one sending: accepted when the transaction was
/// executed with an accepted status, one more failed attempt otherwise.
pub fn after_reply(state: &TransactionAttempts, reply: &TransactionReply) -> (res:
    TransactionAttempts)
    requires
        should_send_spec(*state),
    ensures
        res == spec_after_reply(*state, *reply),
{
    match reply {
        TransactionReply::Executed(status) => {
            if status.is_accepted() {
                TransactionAttempts { attempts: state.attempts, accepted: true }
            } else {
                TransactionAttempts { attempts: state.attempts + 1, accepted: false }
            }
        },
        TransactionReply::NotExecuted => TransactionAttempts {
            attempts: state.attempts + 1,
            accepted: false,
        },
    }
}

/// The state after the broker's reply to one sending.
pub open spec fn spec_after_reply(state: TransactionAttempts, reply: TransactionReply) -> TransactionAttempts {
    match reply {
        TransactionReply::Executed(TransactionState::Accepted) => TransactionAttempts {
            attempts: state.attempts,
            accepted: true,
        },
        _ => TransactionAttempts { attempts: (state.attempts + 1) as usize, accepted: false },
    }
}

/// Whether a transaction in state `state` is still to be sent.
pub open spec fn should_send_spec(state: TransactionAttempts) -> bool {
    !state.accepted && state.attempts < MAX_TRANSACTION_RETRIES
}

/// The command that opens a trade: buying for long trades, selling for the others.
pub fn open_command(trade_type: &TradeType) -> (res: TransactionCommand)
    ensures
        res == if trade_type.spec_is_long() {
            TransactionCommand::BuyMarket
        } else {
            TransactionCommand::SellMarket
        },
{
    if trade_type.is_long() {
        TransactionCommand::BuyMarket
    } else {
        TransactionCommand::SellMarket
    }
}

/// The command that closes a trade: selling for long trades, buying for the others.
pub fn close_command(trade_type: &TradeType) -> (res: TransactionCommand)
    ensures
        res == if trade_type.spec_is_long() {
            TransactionCommand::SellMarket
        } else {
            TransactionCommand::BuyMarket
        },
{
    if trade_type.is_long() {
        TransactionCommand::SellMarket
    } else {
        TransactionCommand::BuyMarket
    }
}

/// The target price of the last sell order and of the last stop loss among `orders`, as
/// sent along with an opening trade.
pub open spec fn spec_order_prices<P, D>(orders: Seq<Order<P, D>>) -> (Option<P>, Option<P>)
    decreases orders.len(),
{
    if orders.len() == 0 {
        (None, None)
    } else {
        let (sell, stop) = spec_order_prices(orders.drop_last());
        let last = orders.last();
        if last.order_type is SellOrderLong || last.order_type is SellOrderShort {
            (Some(last.target_price), stop)
        } else if last.order_type.spec_is_stop() {
            (sell, Some(last.target_price))
        } else {
            (sell, stop)
        }
    }
}

/// The target price of the last sell order and of the last stop loss among `orders`.
pub fn order_prices<P: Copy, D>(orders: &Vec<Order<P, D>>) -> (res: (Option<P>, Option<P>))
    ensures
        res == spec_order_prices(orders@),
{
    let mut sell: Option<P> = None;
    let mut stop: Option<P> = None;
    let mut i: usize = 0;
    while i < orders.len()
        invariant
            i <= orders@.len(),
            (sell, stop) == spec_order_prices(orders@.subrange(0, i as int)),
        decreases orders.len() - i,
    {
        proof {
            assert(orders@.subrange(0, i + 1).drop_last() =~= orders@.subrange(0, i as int));
        }
        match orders[i].order_type {
            OrderType::SellOrderLong(_, _) | OrderType::SellOrderShort(_, _) => {
                sell = Some(orders[i].target_price);
            },
            OrderType::StopLossLong(_, _) | OrderType::StopLossShort(_, _) => {
                stop = Some(orders[i].target_price);
            },
            _ => {},
        }
        i = i + 1;
    }
    proof {
        assert(orders@.subrange(0, orders@.len() as int) =~= orders@);
    }
    (sell, stop)
}

/// The number of times a transaction in state `state` is sent when the broker's replies
/// come in the order `replies` (sending stops when it is accepted, after
/// `MAX_TRANSACTION_RETRIES` failed attempts, or when no reply is left).
pub open spec fn sendings(state: TransactionAttempts, replies: Seq<TransactionReply>) -> nat
    decreases replies.len(),
{
    if !should_send_spec(state) || replies.len() == 0 {
        0
    } else {
        1 + sendings(spec_after_reply(state, replies[0]), replies.drop_first())
    }
}

/// A transaction is sent at most `MAX_TRANSACTION_RETRIES` times in all, whatever the
/// broker replies.
pub proof fn lemma_sendings_bounded(state: TransactionAttempts, replies: Seq<TransactionReply>)
    requires
        state.attempts <= MAX_TRANSACTION_RETRIES,
    ensures
        sendings(state, replies) <= MAX_TRANSACTION_RETRIES - state.attempts,
    decreases replies.len(),
{
    if should_send_spec(state) && replies.len() > 0 {
        lemma_sendings_bounded(spec_after_reply(state, replies[0]), replies.drop_first());
    }
}

} // verus!
