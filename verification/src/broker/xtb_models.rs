use vstd::prelude::*;

verus! {

/// A command with its arguments.
#[allow(non_snake_case)]
#[derive(Debug, Clone)]
pub struct Command<T> {
    pub command: String,
    pub arguments: T,
}

/// Arguments of the login command.
#[allow(non_snake_case)]
#[derive(Debug, Clone)]
pub struct LoginParams {
    pub userId: String,
    pub password: String,
    pub appName: String,
}

/// Answer to the login command.
#[allow(non_snake_case)]
#[derive(Debug, Clone)]
pub struct LoginResponse {
    pub status: bool,
    pub streamSessionId: String,
}

/// Keep-alive command.
#[allow(non_snake_case)]
#[derive(Debug, Clone)]
pub struct Ping {
    pub command: String,
}

/// Command asking for all symbols.
#[allow(non_snake_case)]
#[derive(Debug, Clone)]
pub struct CommandAllSymbols {
    pub command: String,
}

/// Command on the streaming socket.
#[allow(non_snake_case)]
#[derive(Debug, Clone)]
pub struct CommandStreaming {
    pub command: String,
    pub streamSessionId: String,
}

/// Command subscribing to the candles of a symbol.
#[allow(non_snake_case)]
#[derive(Debug, Clone)]
pub struct CommandGetCandles {
    pub command: String,
    pub streamSessionId: String,
    pub symbol: String,
}

/// Command subscribing to the tick prices of a symbol.
#[allow(non_snake_case)]
#[derive(Debug, Clone)]
pub struct CommandTickStreamParams {
    pub command: String,
    pub streamSessionId: String,
    pub symbol: String,
    pub minArrivalTime: usize,
    pub maxLevel: i64,
}

/// Command subscribing to the status of trades.
#[allow(non_snake_case)]
#[derive(Debug, Clone)]
pub struct CommandTradeStatusParams {
    pub command: String,
    pub streamSessionId: String,
}

/// Command asking for the tick prices of a symbol.
#[allow(non_snake_case)]
#[derive(Debug, Clone)]
pub struct CommandGetTickPrices {
    pub command: String,
    pub streamSessionId: String,
    pub symbol: String,
    pub minArrivalTime: usize,
    pub maxLevel: usize,
}

/// Argument naming a symbol.
#[allow(non_snake_case)]
#[derive(Debug, Clone)]
pub struct SymbolArg {
    pub symbol: String,
}

/// Arguments of a request for the latest candles.
#[allow(non_snake_case)]
#[derive(Debug, Clone)]
pub struct Instrument {
    pub info: InstrumentCandles,
}

/// Period, start and symbol of a request for the latest candles.
#[allow(non_snake_case)]
#[derive(Debug, Clone)]
pub struct InstrumentCandles {
    pub period: usize,
    pub start: i64,
    pub symbol: String,
}

/// Arguments of a request for historic candles.
#[allow(non_snake_case)]
#[derive(Debug, Clone)]
pub struct HistoricInstrument {
    pub info: HistoricInstrumentCandles,
}

/// Period, range, number of ticks and symbol of a request for historic candles.
#[allow(non_snake_case)]
#[derive(Debug, Clone)]
pub struct HistoricInstrumentCandles {
    pub period: usize,
    pub start: i64,
    pub end: i64,
    pub ticks: i64,
    pub symbol: String,
}

/// Arguments of a request for trading hours.
#[allow(non_snake_case)]
#[derive(Debug, Clone)]
pub struct TradingHoursCommand {
    pub symbols: Vec<String>,
}

/// Arguments of a request for tick prices.
#[allow(non_snake_case)]
#[derive(Debug, Clone)]
pub struct TickParams {
    pub level: usize,
    pub symbols: Vec<String>,
    pub timestamp: i64,
}

/// Command subscribing to ticker prices.
#[allow(non_snake_case)]
#[derive(Debug, Clone)]
pub struct TickerPriceParams {
    pub command: String,
    pub streamSessionId: String,
    pub symbol: String,
    pub minArrivalTime: usize,
}

/// Arguments of a request for the status of an order.
#[allow(non_snake_case)]
#[derive(Debug, Clone, Copy, PartialEq, Eq, Structural)]
pub struct TransactionStatus {
    pub order: u64,
}

/// Arguments of a request for trades.
#[allow(non_snake_case)]
#[derive(Debug, Clone, Copy, PartialEq, Eq, Structural)]
pub struct GetTrades {
    pub openedOnly: bool,
}

/// Arguments of a request for the trades of a period.
#[allow(non_snake_case)]
#[derive(Debug, Clone, Copy, PartialEq, Eq, Structural)]
pub struct GetTradesHistory {
    pub start: i64,
    pub end: i64,
}

/// Arguments of a request for given orders.
#[allow(non_snake_case)]
#[derive(Debug, Clone)]
pub struct GetTrade {
    pub orders: Vec<usize>,
}

/// A symbol as the broker lists it.
#[allow(non_snake_case)]
#[derive(Debug, Clone)]
pub struct Symbol {
    pub symbol: String,
    pub category: String,
    pub currency: String,
    pub description: String,
}

} // verus!
