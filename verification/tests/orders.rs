use rs_algo_shared::models::order::{
    add_pending, cancel_pending_expired_orders, fulfill_trade_order, get_num_pending_orders,
    get_pending, order_exists, update_orders, update_state_pending_orders,
    update_trade_pending_orders, OrderClass, OrderDirection, OrderStatus, OrderType, Order,
    PendingOrderLimits,
};
use rs_algo_shared::models::stop_loss::StopLossType;
use rs_algo_shared::models::trade::{TradeIn, TradeType};

fn order(id: usize, order_type: OrderType<f64>, status: OrderStatus) -> Order<f64, i64> {
    Order {
        id,
        trade_id: 0,
        index_created: 0,
        index_fulfilled: 0,
        size: 1.0,
        order_type,
        status,
        origin_price: 100.0,
        target_price: 110.0,
        created_at: 1_000,
        updated_at: None,
        full_filled_at: None,
        valid_until: Some(5_000),
        meta: None,
    }
}

fn buy(id: usize) -> Order<f64, i64> {
    order(id, OrderType::BuyOrderLong(1.0, 110.0), OrderStatus::Pending)
}

fn sell(id: usize) -> Order<f64, i64> {
    order(id, OrderType::TakeProfitShort(1.0, 90.0), OrderStatus::Pending)
}

fn stop(id: usize) -> Order<f64, i64> {
    order(id, OrderType::StopLossLong(StopLossType::Atr(2.0), 95.0), OrderStatus::Pending)
}

fn ids(orders: &[Order<f64, i64>]) -> Vec<usize> {
    orders.iter().map(|o| o.id).collect()
}

fn limits(buy: usize, sell: usize, stop: usize, pending: usize) -> PendingOrderLimits {
    PendingOrderLimits {
        max_buy_orders: buy,
        max_sell_orders: sell,
        max_stop_losses: stop,
        max_pending_orders: pending,
    }
}

#[test]
fn order_types_classify() {
    let buy_long: OrderType<f64> = OrderType::BuyOrderLong(1.0, 2.0);
    let stop_short: OrderType<f64> = OrderType::StopLossShort(StopLossType::NoStop, 2.0);
    let take_short: OrderType<f64> = OrderType::TakeProfitShort(1.0, 2.0);
    assert!(buy_long.is_long() && buy_long.is_entry() && !buy_long.is_exit());
    assert_eq!(buy_long.get_direction(), OrderDirection::Up);
    assert_eq!(stop_short.get_direction(), OrderDirection::Up);
    assert_eq!(take_short.get_direction(), OrderDirection::Down);
    assert!(stop_short.is_stop() && !stop_short.is_long());
    assert!(take_short.is_exit());
    assert_eq!(buy_long.class(), OrderClass::Buy);
    assert_eq!(take_short.class(), OrderClass::Sell);
    assert_eq!(stop_short.class(), OrderClass::Stop);
}

#[test]
fn orders_map_to_trade_types() {
    assert_eq!(buy(1).to_trade_type(), TradeType::MarketInLong);
    assert_eq!(sell(1).to_trade_type(), TradeType::MarketOutShort);
    assert_eq!(stop(1).to_trade_type(), TradeType::StopLossLong);
    assert!(stop(1).is_long() && !stop(1).is_short() && stop(1).is_stop());
    assert!(sell(1).is_short());
    assert!(buy(1).is_entry() && buy(1).is_pending() && !buy(1).is_fulfilled());
}

#[test]
fn fulfilling_and_canceling_an_order() {
    let mut o = buy(7);
    o.fulfill_order(12, 2_000);
    assert_eq!(o.status, OrderStatus::Fulfilled);
    assert_eq!(o.index_fulfilled, 12);
    assert_eq!(o.updated_at, Some(2_000));
    assert_eq!(o.full_filled_at, Some(2_000));
    assert!(o.is_fulfilled() && !o.is_pending());
    o.unfulfill_order(12, 3_000);
    assert_eq!(o.status, OrderStatus::Pending);
    assert_eq!(o.index_fulfilled, 0);
    assert_eq!(o.full_filled_at, Some(3_000));
    o.cancel_order(4_000);
    assert_eq!(o.status, OrderStatus::Canceled);
    assert_eq!(o.updated_at, Some(4_000));
    assert_eq!(o.id, 7);
}

#[test]
fn order_setters() {
    let mut o = buy(1);
    assert!(!o.has_active_trade());
    o.set_trade_id(9);
    assert_eq!(o.trade_id(), 9);
    assert!(o.has_active_trade());
    o.update_tick(101.0, 120.0);
    assert_eq!((o.origin_price, o.target_price), (101.0, 120.0));
    o.set_origin_price(99.0);
    assert_eq!(o.origin_price, 99.0);
    o.set_valid_until(8_000);
    assert_eq!(o.valid_until, Some(8_000));
    o.set_full_filled_index(3);
    assert_eq!(o.index_fulfilled, 3);
    o.set_status(OrderStatus::Canceled);
    assert_eq!(o.status, OrderStatus::Canceled);
    assert_eq!(o.size(), 1.0);
}

#[test]
fn pending_counts_look_at_the_last_orders_only() {
    let mut done = buy(2);
    done.status = OrderStatus::Fulfilled;
    let orders = vec![buy(1), done, sell(3), stop(4), buy(5)];
    assert_eq!(get_num_pending_orders(&orders, 10), (2, 1, 1));
    assert_eq!(get_num_pending_orders(&orders, 3), (1, 1, 1));
    assert_eq!(get_num_pending_orders(&orders, 0), (0, 0, 0));
    let none: Vec<Order<f64, i64>> = vec![];
    assert_eq!(get_num_pending_orders(&none, 4), (0, 0, 0));
}

#[test]
fn pending_orders_are_the_recent_pending_ones() {
    let mut done = sell(3);
    done.status = OrderStatus::Canceled;
    let orders = vec![buy(1), buy(2), done, stop(4)];
    assert_eq!(ids(&get_pending(&orders, 10)), vec![1, 2, 4]);
    assert_eq!(ids(&get_pending(&orders, 2)), vec![4]);
    let none: Vec<Order<f64, i64>> = vec![];
    assert!(get_pending(&none, 3).is_empty());
}

#[test]
fn pending_counts_add_up_to_the_pending_orders() {
    let mut done = sell(3);
    done.status = OrderStatus::Fulfilled;
    let orders = vec![buy(1), stop(2), done, sell(4), buy(5), stop(6)];
    for max in 0..8 {
        let (b, s, st) = get_num_pending_orders(&orders, max);
        assert_eq!(b + s + st, get_pending(&orders, max).len());
        assert!(b + s + st <= max);
    }
}

#[test]
fn add_pending_admits_within_the_limits() {
    let orders = vec![buy(1)];
    let mut not_pending = sell(12);
    not_pending.status = OrderStatus::Canceled;
    let new_orders = vec![buy(10), sell(11), not_pending, stop(13)];
    // One buy order pending already, at most one allowed: new buy orders are refused.
    let res = add_pending(orders.clone(), new_orders.clone(), &limits(1, 5, 5, 5));
    assert_eq!(ids(&res), vec![1, 11, 13]);
    // Room for everything.
    let res = add_pending(orders.clone(), new_orders.clone(), &limits(5, 5, 5, 5));
    assert_eq!(ids(&res), vec![1, 10, 11, 13]);
    // Buy orders need room among stop losses too.
    let res = add_pending(vec![stop(1)], vec![buy(10), stop(11)], &limits(5, 5, 1, 5));
    assert_eq!(ids(&res), vec![1]);
}

#[test]
fn add_pending_refuses_all_when_too_many_are_admitted() {
    let orders = vec![buy(1)];
    let new_orders = vec![sell(10), sell(11), stop(12)];
    let res = add_pending(orders.clone(), new_orders.clone(), &limits(5, 5, 5, 2));
    assert_eq!(ids(&res), vec![1]);
    let res = add_pending(orders, new_orders, &limits(5, 5, 5, 3));
    assert_eq!(ids(&res), vec![1, 10, 11, 12]);
}

#[test]
fn add_pending_keeps_the_existing_orders() {
    let orders = vec![buy(1), sell(2), stop(3)];
    let res = add_pending(orders.clone(), vec![buy(4), sell(5)], &limits(9, 9, 9, 9));
    assert_eq!(ids(&res[..3]), ids(&orders));
    assert!(res[3..].iter().all(|o| o.status == OrderStatus::Pending));
}

#[test]
fn orders_exist_by_id() {
    let orders = vec![buy(1), sell(2)];
    assert!(order_exists(&orders, 2));
    assert!(!order_exists(&orders, 3));
    assert!(!order_exists(&[] as &[Order<f64, i64>], 1));
}

#[test]
fn update_orders_replaces_by_id() {
    let mut orders = vec![buy(1), sell(2), stop(3)];
    let mut changed = sell(2);
    changed.target_price = 80.0;
    let mut unknown = sell(9);
    unknown.target_price = 1.0;
    assert!(update_orders(&mut orders, &[changed, unknown]));
    assert_eq!(ids(&orders), vec![1, 2, 3]);
    assert_eq!(orders[1].target_price, 80.0);
    assert_eq!(orders[0].target_price, 110.0);
    assert!(!update_orders(&mut orders, &[unknown]));
    assert_eq!(ids(&orders), vec![1, 2, 3]);
}

#[test]
fn update_orders_last_new_order_wins_on_the_first_match() {
    let mut first = sell(2);
    first.target_price = 70.0;
    let mut second = sell(2);
    second.target_price = 60.0;
    let mut orders = vec![sell(2), sell(2)];
    assert!(update_orders(&mut orders, &[first, second]));
    assert_eq!(orders[0].target_price, 60.0);
    assert_eq!(orders[1].target_price, 110.0);
}

#[test]
fn back_test_drops_pending_orders_after_a_trade() {
    let mut done = sell(2);
    done.status = OrderStatus::Fulfilled;
    let mut orders = vec![buy(1), done, stop(3)];
    update_state_pending_orders(&TradeType::MarketOutLong, 5, 10, 20, true, &mut orders);
    assert_eq!(ids(&orders), vec![2]);
}

#[test]
fn live_trade_settles_pending_orders() {
    let mut done = sell(2);
    done.status = OrderStatus::Canceled;
    let mut orders = vec![buy(1), done, stop(3)];
    update_state_pending_orders(&TradeType::StopLossLong, 5, 10, 20, false, &mut orders);
    assert_eq!(orders[0].status, OrderStatus::Fulfilled);
    assert_eq!(orders[0].index_fulfilled, 5);
    assert_eq!(orders[0].full_filled_at, Some(10));
    assert_eq!(orders[1].status, OrderStatus::Canceled);
    assert_eq!(orders[1].updated_at, None);
    let mut orders = vec![buy(1), stop(3)];
    update_state_pending_orders(&TradeType::MarketOutLong, 5, 10, 20, false, &mut orders);
    assert!(orders.iter().all(|o| o.status == OrderStatus::Canceled));
    assert_eq!(orders[1].updated_at, Some(20));
    assert!(orders.iter().all(|o| !o.is_pending()));
}

#[test]
fn expired_orders_are_dropped_in_tests_and_canceled_live() {
    let mut done = sell(2);
    done.status = OrderStatus::Fulfilled;
    let expired = vec![true, true, false];
    let mut orders = vec![buy(1), done, stop(3)];
    let left = cancel_pending_expired_orders(true, &expired, 30, &mut orders);
    assert_eq!(ids(&orders), vec![2, 3]);
    assert_eq!(ids(&left), vec![2, 3]);

    let mut orders = vec![buy(1), done, stop(3)];
    let left = cancel_pending_expired_orders(false, &expired, 30, &mut orders);
    assert_eq!(orders[0].status, OrderStatus::Canceled);
    assert_eq!(orders[0].updated_at, Some(30));
    assert_eq!(orders[1].status, OrderStatus::Fulfilled);
    assert_eq!(orders[2].status, OrderStatus::Pending);
    assert_eq!(ids(&left), vec![1, 2, 3]);
}

#[test]
fn open_trade_takes_over_the_pending_orders() {
    let trade_in: TradeIn<f64, i64> = TradeIn {
        id: 42,
        index_in: 3,
        size: 1.0,
        origin_price: 100.0,
        price_in: 101.5,
        ask: 101.5,
        spread: 0.5,
        date_in: 7_000,
        trade_type: TradeType::MarketInLong,
    };
    let mut done = sell(2);
    done.status = OrderStatus::Fulfilled;
    let mut orders = vec![stop(1), done];
    update_trade_pending_orders(&mut orders, &trade_in, &vec![9_000, 9_500]);
    assert_eq!(orders[0].trade_id, 42);
    assert_eq!(orders[0].origin_price, 101.5);
    assert_eq!(orders[0].valid_until, Some(9_000));
    assert_eq!(orders[1].trade_id, 0);
    assert_eq!(orders[1].valid_until, Some(5_000));
}

#[test]
fn trade_fulfils_the_first_matching_pending_order() {
    let mut done = stop(1);
    done.status = OrderStatus::Fulfilled;
    let mut orders = vec![done, stop(2), stop(3)];
    let same = vec![true, true, true];
    assert_eq!(fulfill_trade_order(8, 50, &same, &mut orders), Some(1));
    assert_eq!(orders[1].status, OrderStatus::Fulfilled);
    assert_eq!(orders[1].index_fulfilled, 8);
    assert_eq!(orders[2].status, OrderStatus::Pending);
    let none = vec![false, false, false];
    assert_eq!(fulfill_trade_order(8, 50, &none, &mut orders), None);
}

use rs_algo_shared::models::order::resolve_active_orders;
use rs_algo_shared::models::trade::Position;

fn position_id(p: &Position<f64, i64>) -> Option<(bool, usize)> {
    match p {
        Position::MarketInOrder(o) => Some((true, o.id)),
        Position::MarketOutOrder(o) => Some((false, o.id)),
        _ => None,
    }
}

#[test]
fn the_last_triggered_live_order_decides_the_position() {
    let mut attached = sell(2);
    attached.trade_id = 9;
    let orders = vec![buy(1), attached, stop(3), sell(4)];
    // sell(4) is not attached to a trade and is no entry, so it never triggers.
    let res = resolve_active_orders(&orders, &vec![true, true, false, true], 10);
    assert_eq!(position_id(&res), Some((false, 2)));
    let res = resolve_active_orders(&orders, &vec![true, false, false, true], 10);
    assert_eq!(position_id(&res), Some((true, 1)));
    let res = resolve_active_orders(&orders, &vec![false, false, false, true], 10);
    assert_eq!(position_id(&res), None);
}

#[test]
fn no_position_without_a_pending_stop_loss() {
    let orders = vec![buy(1), sell(2)];
    let res = resolve_active_orders(&orders, &vec![true, true], 10);
    assert_eq!(position_id(&res), None);
    // The stop loss must lie among the last `max_pending_orders` orders.
    let orders = vec![stop(1), buy(2), buy(3)];
    assert_eq!(position_id(&resolve_active_orders(&orders, &vec![false, true, false], 2)), None);
    assert_eq!(position_id(&resolve_active_orders(&orders, &vec![false, true, false], 3)), Some((true, 2)));
}
