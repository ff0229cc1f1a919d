use rs_algo_shared::helpers::date::LocalTime;
use rs_algo_shared::models::environment::{self, Environment};
use rs_algo_shared::models::market::{Market, MarketHour, MarketHours, MarketSessions};
use rs_algo_shared::models::mode::{self, ExecutionMode};
use rs_algo_shared::models::strategy::{self, StrategyType};
use rs_algo_shared::models::swap::InstrumentSwap;
use rs_algo_shared::models::tick::InstrumentTick;

fn at(week_day: u32, hour: u32) -> LocalTime {
    LocalTime { week_day, hour, minute: 30, second: 0, dst: false }
}

#[test]
fn environments_read_in_any_case() {
    assert_eq!(environment::from_str("Production"), Environment::Production);
    assert_eq!(environment::from_str("BACKTESTING"), Environment::Backtesting);
    assert_eq!(environment::try_from_str("staging"), None);
    assert_eq!(environment::try_from_str("development"), Some(Environment::Development));
    assert!(Environment::Production.is_prod());
    assert!(Environment::Development.is_dev());
    assert!(Environment::Backtesting.is_backtest());
    assert_eq!(Environment::Backtesting.value(), "Backtesting");
    assert_eq!(Environment::default(), Environment::Development);
}

#[test]
fn execution_modes_read_in_any_case() {
    assert_eq!(mode::from_str("BackTest"), ExecutionMode::BackTest);
    assert_eq!(mode::from_str("botbacktest"), ExecutionMode::BotBackTest);
    assert_eq!(mode::try_from_str("live"), None);
    assert!(ExecutionMode::Bot.is_bot());
    assert!(ExecutionMode::BotBackTest.is_bot());
    assert!(!ExecutionMode::Scanner.is_bot());
    assert!(ExecutionMode::BackTest.is_back_test());
    assert!(!ExecutionMode::BotBackTest.is_back_test());
}

#[test]
fn strategy_names() {
    assert_eq!(strategy::from_str("OnlyShortMTF"), StrategyType::OnlyShortMTF);
    assert_eq!(strategy::from_str("unknown"), StrategyType::OnlyLong);
    assert_eq!(StrategyType::LongShortMTF.to_string(), "LongShortMTF");
    assert!(strategy::is_mtf_strategy(&StrategyType::OnlyLongMTF));
    assert!(!strategy::is_mtf_strategy(&StrategyType::LongShort));
    assert!(strategy::is_long_only(&StrategyType::OnlyLongMTF));
    assert!(StrategyType::OnlyLong.is_long_only());
    assert!(!StrategyType::OnlyShort.is_multi_timeframe());
}

#[test]
fn markets_by_name() {
    assert_eq!(Market::from_str("Forex"), Market::Forex);
    assert_eq!(Market::from_str("Stock"), Market::Stock);
}

#[test]
fn forex_trades_around_the_clock_on_weekdays() {
    let hours = MarketHours::for_market(&Market::Forex, "EURUSD", false);
    assert_eq!(hours.symbol(), "EURUSD");
    assert_eq!(hours.data().len(), 6);
    assert!(hours.is_trading_time(&at(2, 3)));
    assert!(!hours.is_trading_time(&at(2, 23)));
    assert!(!hours.is_trading_time(&at(6, 12)));
    assert!(hours.is_trading_time(&at(7, 22)));
    assert!(!hours.is_trading_time(&at(7, 21)));
    assert!(hours.is_week_close(&at(5, 21)));
    assert!(!hours.is_week_close(&at(4, 21)));
}

#[test]
fn stock_markets_trade_in_office_hours() {
    let hours = MarketHours::for_market(&Market::Stock, "AAPL", false);
    assert!(hours.is_trading_time(&at(1, 9)));
    assert!(!hours.is_trading_time(&at(1, 17)));
    assert!(!hours.is_trading_time(&at(7, 10)));
}

#[test]
fn no_market_trades_on_saturday() {
    let data = vec![MarketHour { day: 6, from: 0, to: 24 }];
    let hours = MarketHours::new("X".to_string(), data, false);
    assert!(!hours.is_trading_time(&at(6, 10)));
    assert!(!hours.is_week_close(&at(6, 10)));
}

#[test]
fn sessions_by_hour_and_daylight_saving() {
    let winter = MarketHours::for_market(&Market::Forex, "EURUSD", false);
    let summer = MarketHours::for_market(&Market::Forex, "EURUSD", true);
    assert_eq!(winter.current_session(&at(3, 14)), Some(MarketSessions::NewYork));
    assert_eq!(summer.current_session(&at(3, 14)), Some(MarketSessions::London));
    assert_eq!(winter.current_session(&at(3, 9)), Some(MarketSessions::London));
    assert_eq!(winter.current_session(&at(3, 3)), Some(MarketSessions::Tokyo));
    assert_eq!(winter.current_session(&at(3, 23)), Some(MarketSessions::Sydney));
    assert_eq!(winter.current_session(&at(3, 0)), Some(MarketSessions::Sydney));
    assert_eq!(MarketHours::default().current_session(&at(3, 12)), None);
}

#[test]
fn tick_builder_reports_the_first_missing_field() {
    let tick = InstrumentTick::<f64>::new()
        .symbol("EURUSD".to_string())
        .ask(1.1)
        .bid(1.0)
        .high(1.2)
        .low(0.9)
        .spread(0.1)
        .time(77)
        .build()
        .unwrap();
    assert_eq!(tick.symbol(), "EURUSD");
    assert_eq!(tick.ask(), 1.1);
    assert_eq!(tick.bid(), 1.0);
    assert_eq!(tick.high(), 1.2);
    assert_eq!(tick.low(), 0.9);
    assert_eq!(tick.spread(), 0.1);
    assert_eq!(tick.pip_size(), 0.0);
    assert_eq!(tick.time(), 77);
    let missing = InstrumentTick::<f64>::new().symbol("X".to_string()).ask(1.0).build();
    assert_eq!(missing.unwrap_err(), "Bid price is required");
    let no_time = InstrumentTick::<f64>::new()
        .symbol("X".to_string())
        .ask(1.0)
        .bid(1.0)
        .high(1.0)
        .low(1.0)
        .spread(0.0)
        .pip_size(0.01)
        .build();
    assert_eq!(no_time.unwrap_err(), "time is required");
    assert_eq!(InstrumentTick::<f64>::new().build().unwrap_err(), "Symbol is required");
}

#[test]
fn swap_builder_reports_the_first_missing_field() {
    let swap = InstrumentSwap::<f64>::new()
        .symbol("EURUSD".to_string())
        .enabled(true)
        .swap_long(-1.5)
        .swap_short(0.5)
        .swap_weekend(3.0)
        .build()
        .unwrap();
    assert!(swap.enabled);
    assert_eq!(swap.swap_long, -1.5);
    let missing = InstrumentSwap::<f64>::new().symbol("X".to_string()).enabled(false).build();
    assert_eq!(missing.unwrap_err(), "Swap long is required");
}

#[test]
fn closed_markets_are_tried_again_on_sunday() {
    let hours = MarketHours::for_market(&Market::Forex, "EURUSD", false);
    let r = hours.wait_until(5, 30, 7).unwrap();
    assert_eq!((r.days_ahead, r.hour, r.minute, r.second), (2, 22, 5, 37));
    let r = hours.wait_until(7, 0, 0).unwrap();
    assert_eq!(r.days_ahead, 0);
    assert_eq!(MarketHours::default().wait_until(3, 10, 1), None);
}
