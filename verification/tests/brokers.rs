use rs_algo_shared::broker::forex::is_in_forex;
use rs_algo_shared::broker::ibkr::{
    ibeam_health_url, is_forex, period_to_ibkr, symbol_to_exchange, symbol_to_sec_type,
};
use rs_algo_shared::broker::models::{TransactionAction, TransactionCommand, TransactionState};
use rs_algo_shared::broker::oanda::{period_to_granularity, to_oanda_symbol};
use rs_algo_shared::broker::xtb::parse_symbol;

#[test]
fn forex_symbols_by_base() {
    let forex = vec!["EURUSD".to_string(), "USDJPY".to_string()];
    assert!(is_in_forex("EURUSD_4", &forex));
    assert!(is_in_forex("USDJPY", &forex));
    assert!(!is_in_forex("AAPL.US_9", &forex));
}

#[test]
fn gateway_health_url() {
    assert_eq!(ibeam_health_url("https://localhost:5000"), "http://localhost:5001");
    assert_eq!(ibeam_health_url("http://gateway:5000"), "http://gateway:5001");
    assert_eq!(ibeam_health_url("gateway"), "http://gateway:5001");
}

#[test]
fn currency_pairs_route_to_the_cash_exchange() {
    assert!(is_forex("EURUSD"));
    assert!(!is_forex("AAPL"));
    assert!(!is_forex("EUR1SD"));
    assert!(!is_forex("EURUSDX"));
    assert_eq!(symbol_to_exchange("EURUSD"), "IDEALPRO");
    assert_eq!(symbol_to_exchange("MSFT"), "SMART");
    assert_eq!(symbol_to_sec_type("GBPJPY"), "CASH");
    assert_eq!(symbol_to_sec_type("MSFT"), "STK");
}

#[test]
fn candle_periods_in_broker_terms() {
    assert_eq!(period_to_ibkr(5), ("5min", "3d"));
    assert_eq!(period_to_ibkr(1440), ("1d", "2y"));
    assert_eq!(period_to_ibkr(7), ("1h", "1m"));
    assert_eq!(period_to_granularity(120), "H2");
    assert_eq!(period_to_granularity(43200), "M");
    assert_eq!(period_to_granularity(3), "H1");
}

#[test]
fn oanda_symbols() {
    assert_eq!(to_oanda_symbol("eurusd"), "EUR_USD");
    assert_eq!(to_oanda_symbol("EURUSD"), "EUR_USD");
    assert_eq!(to_oanda_symbol("EUR_USD"), "EUR_USD");
    assert_eq!(to_oanda_symbol("abc"), "ABC");
}

#[test]
fn xtb_symbol_base() {
    assert_eq!(parse_symbol(&"EURUSD_4".to_string()).unwrap(), "EURUSD");
    assert_eq!(parse_symbol(&"EURUSD".to_string()).unwrap(), "EURUSD");
    assert_eq!(parse_symbol(&"_X".to_string()).unwrap(), "");
}

#[test]
fn transaction_numbers() {
    let all = [
        TransactionCommand::BuyMarket,
        TransactionCommand::SellMarket,
        TransactionCommand::BuyLimit,
        TransactionCommand::SellLimit,
        TransactionCommand::BuyStop,
        TransactionCommand::SellStop,
        TransactionCommand::Balance,
        TransactionCommand::Credit,
    ];
    for (i, c) in all.iter().enumerate() {
        assert_eq!(c.value(), i as isize);
        assert_eq!(TransactionCommand::from_value(i as i64), Some(*c));
    }
    assert_eq!(TransactionCommand::from_value(8), None);
    assert_eq!(TransactionCommand::from_value(-1), None);
    assert!(TransactionCommand::SellLimit.is_entry());
    assert!(!TransactionCommand::Credit.is_entry());
    assert!(TransactionCommand::BuyStop.is_stop());
    assert!(!TransactionCommand::BuyLimit.is_stop());
    assert_eq!(TransactionAction::Delete.value(), 4);
    assert_eq!(TransactionAction::Open.value(), 0);
}

#[test]
fn transaction_states() {
    assert_eq!(TransactionState::from_value(3), TransactionState::Accepted);
    assert_eq!(TransactionState::from_value(2), TransactionState::Error);
    assert_eq!(TransactionState::from_value(4).value(), 4);
    assert!(TransactionState::from_value(1).is_pending());
    assert!(TransactionState::Accepted.is_accepted());
    assert!(!TransactionState::Rejected.is_accepted());
}

use rs_algo_shared::broker::transaction::{
    after_reply, close_command, open_command, order_prices, should_send, start_transaction,
    TransactionReply, MAX_TRANSACTION_RETRIES,
};
use rs_algo_shared::models::order::{Order, OrderStatus, OrderType};
use rs_algo_shared::models::stop_loss::StopLossType;
use rs_algo_shared::models::trade::TradeType;

#[test]
fn transactions_are_retried_at_most_three_times() {
    let mut state = start_transaction();
    let mut sent = 0;
    while should_send(&state) {
        state = after_reply(&state, &TransactionReply::Executed(TransactionState::Rejected));
        sent += 1;
    }
    assert_eq!(sent, MAX_TRANSACTION_RETRIES);
    assert!(!state.accepted);

    let state = start_transaction();
    let state = after_reply(&state, &TransactionReply::NotExecuted);
    assert_eq!(state.attempts, 1);
    let state = after_reply(&state, &TransactionReply::Executed(TransactionState::Accepted));
    assert!(state.accepted);
    assert_eq!(state.attempts, 1);
    assert!(!should_send(&state));
}

#[test]
fn trade_commands_by_direction() {
    assert_eq!(open_command(&TradeType::MarketInLong), TransactionCommand::BuyMarket);
    assert_eq!(open_command(&TradeType::MarketInShort), TransactionCommand::SellMarket);
    assert_eq!(close_command(&TradeType::MarketOutLong), TransactionCommand::SellMarket);
    assert_eq!(close_command(&TradeType::StopLossShort), TransactionCommand::BuyMarket);
}

fn order(order_type: OrderType<f64>, target_price: f64) -> Order<f64, i64> {
    Order {
        id: 1,
        trade_id: 0,
        index_created: 0,
        index_fulfilled: 0,
        size: 1.0,
        order_type,
        status: OrderStatus::Pending,
        origin_price: 1.0,
        target_price,
        created_at: 0,
        updated_at: None,
        full_filled_at: None,
        valid_until: None,
        meta: None,
    }
}

#[test]
fn prices_sent_along_an_opening_trade() {
    let orders = vec![
        order(OrderType::SellOrderLong(1.0, 2.0), 2.0),
        order(OrderType::StopLossLong(StopLossType::Pips(5.0), 1.0), 0.9),
        order(OrderType::BuyOrderLong(1.0, 1.5), 1.5),
        order(OrderType::SellOrderShort(1.0, 2.5), 2.5),
    ];
    assert_eq!(order_prices(&orders), (Some(2.5), Some(0.9)));
    assert_eq!(order_prices(&Vec::<Order<f64, i64>>::new()), (None, None));
    let take_profit_only = vec![order(OrderType::TakeProfitLong(1.0, 3.0), 3.0)];
    assert_eq!(order_prices(&take_profit_only), (None, None));
}

use rs_algo_shared::broker::selection::{broker_kind, BrokerKind};

#[test]
fn broker_selection_defaults_to_oanda() {
    assert_eq!(broker_kind(Some("darwinex")), BrokerKind::Darwinex);
    assert_eq!(broker_kind(Some("ibkr")), BrokerKind::Ibkr);
    assert_eq!(broker_kind(Some("xtb")), BrokerKind::Xtb);
    assert_eq!(broker_kind(Some("oanda")), BrokerKind::Oanda);
    assert_eq!(broker_kind(Some("Darwinex")), BrokerKind::Oanda);
    assert_eq!(broker_kind(None), BrokerKind::Oanda);
}
