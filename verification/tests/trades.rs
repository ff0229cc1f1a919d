use rs_algo_shared::models::mode::ExecutionMode;
use rs_algo_shared::models::order::Order;
use rs_algo_shared::models::trade::{
    calculate_trade_index, trade_exists, type_from_str, update_trades, Trade, TradeDirection,
    TradeIn, TradeOut, TradeType,
};

fn trade_in(id: usize, price_in: f64) -> TradeIn<f64, i64> {
    TradeIn {
        id,
        index_in: 1,
        size: 1.0,
        origin_price: price_in,
        price_in,
        ask: price_in,
        spread: 0.1,
        date_in: 1_000,
        trade_type: TradeType::MarketInLong,
    }
}

fn trade_out(id: usize) -> TradeOut<f64, i64> {
    TradeOut {
        id,
        trade_type: TradeType::MarketOutLong,
        index_in: 1,
        price_in: 100.0,
        size: 1.0,
        ask: 100.0,
        spread_in: 0.1,
        date_in: 1_000,
        index_out: 4,
        price_origin: 100.0,
        price_out: 105.0,
        bid: 105.0,
        spread_out: 0.1,
        date_out: 2_000,
        profit: 5.0,
        profit_per: 5.0,
        run_up: 6.0,
        run_up_per: 6.0,
        draw_down: 1.0,
        draw_down_per: 1.0,
    }
}

#[test]
fn trade_type_names_round_trip() {
    let all = [
        TradeType::MarketInLong,
        TradeType::MarketOutLong,
        TradeType::MarketInShort,
        TradeType::MarketOutShort,
        TradeType::OrderInLong,
        TradeType::OrderOutLong,
        TradeType::OrderInShort,
        TradeType::OrderOutShort,
        TradeType::StopLossLong,
        TradeType::StopLossShort,
        TradeType::NoType,
    ];
    for t in all.iter() {
        assert_eq!(type_from_str(t.to_str()), *t);
    }
    assert_eq!(TradeType::NoType.to_str(), "None");
    assert_eq!(type_from_str("whatever"), TradeType::NoType);
}

#[test]
fn trade_type_predicates() {
    assert!(TradeType::OrderInShort.is_entry() && TradeType::OrderInShort.is_short());
    assert!(TradeType::OrderInShort.is_short_entry() && !TradeType::OrderInShort.is_long_entry());
    assert!(TradeType::StopLossLong.is_exit() && TradeType::StopLossLong.is_stop());
    assert!(TradeType::StopLossLong.is_order() && TradeType::StopLossLong.is_long());
    assert!(!TradeType::StopLossShort.is_short());
    assert!(!TradeType::MarketInLong.is_order());
    assert!(!TradeType::NoType.is_entry() && !TradeType::NoType.is_exit());
    assert!(TradeDirection::Long.is_long() && !TradeDirection::Long.is_short());
    assert!(TradeDirection::Short.is_short());
    assert!(!TradeDirection::NoDirection.is_long() && !TradeDirection::NoDirection.is_short());
}

#[test]
fn entries_and_exits_partition_trade_types() {
    let all = [
        TradeType::MarketInLong,
        TradeType::MarketOutLong,
        TradeType::MarketInShort,
        TradeType::MarketOutShort,
        TradeType::OrderInLong,
        TradeType::OrderOutLong,
        TradeType::OrderInShort,
        TradeType::OrderOutShort,
        TradeType::StopLossLong,
        TradeType::StopLossShort,
    ];
    for t in all.iter() {
        assert!(t.is_entry() != t.is_exit());
    }
}

#[test]
fn trades_give_their_prices_and_dates() {
    let t_in = trade_in(3, 100.5);
    assert_eq!(*t_in.get_id(), 3);
    assert_eq!(*t_in.get_date(), 1_000);
    assert_eq!(*t_in.get_price_in(), 100.5);
    assert_eq!(*t_in.get_price_out(), 100.5);
    assert_eq!(*t_in.get_type(), TradeType::MarketInLong);
    let t_out = trade_out(3);
    assert_eq!(*t_out.get_date(), 2_000);
    assert_eq!(*t_out.get_price_out(), 105.0);
    assert_eq!(*t_out.get_type(), TradeType::MarketOutLong);
}

#[test]
fn trade_index_is_the_next_bar_in_back_tests() {
    let no_order: Option<&Order<f64, i64>> = None;
    assert_eq!(calculate_trade_index(7, no_order, &ExecutionMode::BackTest), 8);
    assert_eq!(calculate_trade_index(7, no_order, &ExecutionMode::Bot), 7);
    assert_eq!(calculate_trade_index(7, no_order, &ExecutionMode::BotBackTest), 7);
}

#[test]
fn trades_exist_and_update_by_id() {
    let mut trades = vec![trade_in(1, 10.0), trade_in(2, 20.0), trade_in(2, 30.0)];
    assert!(trade_exists(&trades, 2));
    assert!(!trade_exists(&trades, 5));
    assert!(update_trades(&mut trades, trade_in(2, 99.0)));
    assert_eq!(trades[1].price_in, 99.0);
    assert_eq!(trades[2].price_in, 30.0);
    assert!(!update_trades(&mut trades, trade_in(5, 1.0)));
    assert_eq!(trades.len(), 3);
    let outs = vec![trade_out(4)];
    assert!(trade_exists(&outs, 4));
}
