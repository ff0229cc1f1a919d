use crate::broker::xtb_models::Symbol;
use crate::models::time_frame::TimeFrameType;
use vstd::prelude::*;

verus! {

/// Kind of a trade transaction sent to a broker.
#[derive(Debug, Clone, Copy, PartialEq, Eq, Structural)]
pub enum TransactionCommand {
    BuyMarket,
    SellMarket,
    BuyLimit,
    SellLimit,
    BuyStop,
    SellStop,
    Balance,
    Credit,
}

impl TransactionCommand {
    /// The number of the command on the wire, from 0 (`BuyMarket`) to 7 (`Credit`).
    pub open spec fn spec_value(self) -> int {
        match self {
            TransactionCommand::BuyMarket => 0,
            TransactionCommand::SellMarket => 1,
            TransactionCommand::BuyLimit => 2,
            TransactionCommand::SellLimit => 3,
            TransactionCommand::BuyStop => 4,
            TransactionCommand::SellStop => 5,
            TransactionCommand::Balance => 6,
            TransactionCommand::Credit => 7,
        }
    }

    /// The command numbered `value`, if any.
    pub open spec fn spec_from_value(value: int) -> Option<TransactionCommand> {
        if value == 0 {
            Some(TransactionCommand::BuyMarket)
        } else if value == 1 {
            Some(TransactionCommand::SellMarket)
        } else if value == 2 {
            Some(TransactionCommand::BuyLimit)
        } else if value == 3 {
            Some(TransactionCommand::SellLimit)
        } else if value == 4 {
            Some(TransactionCommand::BuyStop)
        } else if value == 5 {
            Some(TransactionCommand::SellStop)
        } else if value == 6 {
            Some(TransactionCommand::Balance)
        } else if value == 7 {
            Some(TransactionCommand::Credit)
        } else {
            None
        }
    }

    /// The number of the command on the wire.
    pub fn value(&self) -> (res: isize)
        ensures
            res == self.spec_value(),
    {
        match self {
            TransactionCommand::BuyMarket => 0,
            TransactionCommand::SellMarket => 1,
            TransactionCommand::BuyLimit => 2,
            TransactionCommand::SellLimit => 3,
            TransactionCommand::BuyStop => 4,
            TransactionCommand::SellStop => 5,
            TransactionCommand::Balance => 6,
            TransactionCommand::Credit => 7,
        }
    }

    /// The command numbered `value`, if any.
    pub fn from_value(value: i64) -> (res: Option<Self>)
        ensures
            res == Self::spec_from_value(value as int),
    {
        match value {
            0 => Some(TransactionCommand::BuyMarket),
            1 => Some(TransactionCommand::SellMarket),
            2 => Some(TransactionCommand::BuyLimit),
            3 => Some(TransactionCommand::SellLimit),
            4 => Some(TransactionCommand::BuyStop),
            5 => Some(TransactionCommand::SellStop),
            6 => Some(TransactionCommand::Balance),
            7 => Some(TransactionCommand::Credit),
            _ => None,
        }
    }

    /// Whether the command opens a position: any buy or sell.
    pub fn is_entry(&self) -> (res: bool)
        ensures
            res == !(*self is Balance || *self is Credit),
    {
        match self {
            TransactionCommand::BuyMarket
            | TransactionCommand::SellMarket
            | TransactionCommand::BuyLimit
            | TransactionCommand::SellLimit
            | TransactionCommand::BuyStop
            | TransactionCommand::SellStop => true,
            _ => false,
        }
    }

    /// Whether the command is a stop order.
    pub fn is_stop(&self) -> (res: bool)
        ensures
            res == (*self is BuyStop || *self is SellStop),
    {
        match self {
            TransactionCommand::BuyStop | TransactionCommand::SellStop => true,
            _ => false,
        }
    }
}

/// Reading back the number of a command gives the same command, and only the numbers 0 to
/// 7 name a command.
pub proof fn lemma_command_value_round_trip(c: TransactionCommand, value: int)
    ensures
        TransactionCommand::spec_from_value(c.spec_value()) == Some(c),
        TransactionCommand::spec_from_value(value) is Some <==> 0 <= value <= 7,
        TransactionCommand::spec_from_value(value) matches Some(d) ==> d.spec_value() == value,
{
}

/// What a transaction does to a position.
#[derive(Debug, Clone, Copy, PartialEq, Eq, Structural)]
pub enum TransactionAction {
    Open,
    Pending,
    Close,
    Modify,
    Delete,
}

impl TransactionAction {
    /// The number of the action on the wire, from 0 (`Open`) to 4 (`Delete`).
    pub fn value(&self) -> (res: isize)
        ensures
            res == match *self {
                TransactionAction::Open => 0isize,
                TransactionAction::Pending => 1isize,
                TransactionAction::Close => 2isize,
                TransactionAction::Modify => 3isize,
                TransactionAction::Delete => 4isize,
            },
    {
        match self {
            TransactionAction::Open => 0,
            TransactionAction::Pending => 1,
            TransactionAction::Close => 2,
            TransactionAction::Modify => 3,
            TransactionAction::Delete => 4,
        }
    }
}

/// State of a transaction as reported by a broker.
#[derive(Debug, Clone, Copy, PartialEq, Eq, Structural)]
pub enum TransactionState {
    Error,
    Pending,
    Accepted,
    Rejected,
}

impl TransactionState {
    /// The number of the state on the wire: 0, 1, 3 and 4 (2 is unused).
    pub open spec fn spec_value(self) -> int {
        match self {
            TransactionState::Error => 0,
            TransactionState::Pending => 1,
            TransactionState::Accepted => 3,
            TransactionState::Rejected => 4,
        }
    }

    /// The state numbered `value`; unknown numbers read as an error.
    pub open spec fn spec_from_value(value: int) -> TransactionState {
        if value == 1 {
            TransactionState::Pending
        } else if value == 3 {
            TransactionState::Accepted
        } else if value == 4 {
            TransactionState::Rejected
        } else {
            TransactionState::Error
        }
    }

    /// The state numbered `value`; unknown numbers read as an error.
    pub fn from_value(value: u64) -> (res: Self)
        ensures
            res == Self::spec_from_value(value as int),
    {
        match value {
            0 => TransactionState::Error,
            1 => TransactionState::Pending,
            3 => TransactionState::Accepted,
            4 => TransactionState::Rejected,
            _ => TransactionState::Error,
        }
    }

    /// Whether the broker accepted the transaction.
    pub fn is_accepted(&self) -> (res: bool)
        ensures
            res == (*self is Accepted),
    {
        match self {
            TransactionState::Accepted => true,
            _ => false,
        }
    }

    /// Whether the transaction is still pending.
    pub fn is_pending(&self) -> (res: bool)
        ensures
            res == (*self is Pending),
    {
        match self {
            TransactionState::Pending => true,
            _ => false,
        }
    }

    /// The number of the state on the wire.
    pub fn value(&self) -> (res: u64)
        ensures
            res == self.spec_value(),
    {
        match self {
            TransactionState::Error => 0,
            TransactionState::Pending => 1,
            TransactionState::Accepted => 3,
            TransactionState::Rejected => 4,
        }
    }
}

/// Reading back the number of a transaction state gives the same state.
pub proof fn lemma_state_value_round_trip(s: TransactionState)
    ensures
        TransactionState::spec_from_value(s.spec_value()) == s,
{
}

/// Kind of a message of the legacy broker protocol.
#[derive(Debug, Clone, Copy, PartialEq, Eq, Structural)]
pub enum MessageType {
    Login,
    GetSymbols,
    GetInstrumentPrice,
    Other,
}

/// An answer of the legacy broker protocol: its kind, the symbol and time frame it is
/// about, its data and the symbols it lists.
#[derive(Debug, Clone)]
pub struct Response<R> {
    pub msg_type: MessageType,
    pub symbol: String,
    pub time_frame: TimeFrameType,
    pub data: R,
    pub symbols: Vec<Symbol>,
}

} // verus!
