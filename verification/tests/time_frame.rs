use rs_algo_shared::helpers::date::LocalTime;
use rs_algo_shared::models::mode::ExecutionMode;
use rs_algo_shared::models::time_frame::{
    adapted_open_until_shift, get_open_until_tick, open_until_shift, LookbackUnit, TimeFrame,
    TimeFrameType,
};

#[test]
fn time_frame_names_read_with_their_quirks() {
    assert_eq!(TimeFrame::new("M1"), TimeFrameType::M1);
    assert_eq!(TimeFrame::new("M15"), TimeFrameType::M5);
    assert_eq!(TimeFrame::new("H1"), TimeFrameType::M30);
    assert_eq!(TimeFrame::new("H4"), TimeFrameType::H4);
    assert_eq!(TimeFrame::new("D"), TimeFrameType::D);
    assert_eq!(TimeFrame::new("W"), TimeFrameType::W);
    assert_eq!(TimeFrame::new("MN"), TimeFrameType::MN);
    assert_eq!(TimeFrame::new("M30"), TimeFrameType::ERR);
    assert_eq!(TimeFrame::new(""), TimeFrameType::ERR);
    assert_eq!(TimeFrameType::from_str("M15"), TimeFrameType::M5);
    assert_eq!(TimeFrameType::from_str("h4"), TimeFrameType::ERR);
}

#[test]
fn time_frame_numbers_round_trip() {
    let all = [
        TimeFrameType::M1,
        TimeFrameType::M5,
        TimeFrameType::M15,
        TimeFrameType::M30,
        TimeFrameType::H1,
        TimeFrameType::H4,
        TimeFrameType::D,
        TimeFrameType::W,
        TimeFrameType::MN,
    ];
    for t in all.iter() {
        assert_eq!(TimeFrameType::from_number(t.to_number() as usize), *t);
    }
    assert_eq!(TimeFrameType::from_number(60), TimeFrameType::H1);
    assert_eq!(TimeFrameType::from_number(43200), TimeFrameType::MN);
    assert_eq!(TimeFrameType::from_number(7), TimeFrameType::ERR);
    assert_eq!(TimeFrameType::ERR.to_number(), 0);
}

#[test]
fn time_frame_lengths() {
    assert_eq!(TimeFrameType::H4.to_minutes(), 240);
    assert_eq!(TimeFrameType::H4.to_hours(), 4);
    assert_eq!(TimeFrameType::W.to_hours(), 168);
    assert_eq!(TimeFrameType::MN.to_hours(), 672);
    assert_eq!(TimeFrameType::M15.to_hours(), 0);
    assert_eq!(TimeFrameType::D.prev_candles(), 1440);
    assert!(TimeFrameType::M1.is_base_time_frame());
    assert!(!TimeFrameType::M5.is_base_time_frame());
    assert!(TimeFrameType::M30.is_minutely_time_frame());
    assert!(TimeFrameType::H1.is_hourly_time_frame());
    assert!(!TimeFrameType::D.is_hourly_time_frame());
    assert!(TimeFrameType::D.is_daily_time_frame());
}

#[test]
fn closing_minutes_and_hours() {
    assert_eq!(TimeFrameType::M15.closing_minutes(), vec![0, 15, 30, 45]);
    assert_eq!(TimeFrameType::M5.closing_minutes().len(), 12);
    assert_eq!(TimeFrameType::M1.closing_minutes().len(), 60);
    assert_eq!(TimeFrameType::M30.closing_minutes(), vec![0, 30]);
    assert_eq!(TimeFrameType::H4.closing_minutes(), vec![0]);
    assert_eq!(TimeFrameType::ERR.closing_minutes(), vec![0]);
    assert_eq!(TimeFrameType::H4.closing_hours(), vec![0, 4, 8, 12, 16, 20]);
    assert_eq!(TimeFrameType::H1.closing_hours().len(), 24);
    assert_eq!(TimeFrameType::D.closing_hours(), vec![0]);
    assert_eq!(TimeFrameType::W.closing_hours(), vec![1]);
    assert_eq!(TimeFrameType::MN.closing_hours(), vec![1]);
    assert!(TimeFrameType::M5.closing_hours().is_empty());
    assert!(TimeFrameType::ERR.closing_hours().is_empty());
}

#[test]
fn time_frame_display_names() {
    assert_eq!(TimeFrameType::M15.to_string(), "M15");
    assert_eq!(TimeFrameType::ERR.to_string(), "ERR");
    assert_eq!(TimeFrame {}.to_string(), "TimeFrame");
}

#[test]
fn open_until_shift_without_next_is_one_candle() {
    assert_eq!(open_until_shift(10, 7, &TimeFrameType::M15, false), (0, 15));
    assert_eq!(open_until_shift(10, 7, &TimeFrameType::H4, false), (4, 0));
}

#[test]
fn open_until_shift_with_next_goes_to_the_next_close() {
    // 10:07 on a 15 minute grid: candle minute 8, next close at 15, so 15 - 8 + 1 = 8.
    assert_eq!(open_until_shift(10, 7, &TimeFrameType::M15, true), (0, 8));
    // 10:59: candle minute 60, past the last close 45, so the next close is 0 + 60.
    assert_eq!(open_until_shift(10, 59, &TimeFrameType::M15, true), (0, 1));
    // 10:30 on a four hour grid: candle hour 11, next close 12, minus the 30 minutes.
    assert_eq!(open_until_shift(10, 30, &TimeFrameType::H4, true), (2, -30));
    // 22:00 on a four hour grid: the next close is 0 + 24.
    assert_eq!(open_until_shift(22, 0, &TimeFrameType::H4, true), (2, 0));
}

#[test]
fn adapted_shift_is_one_candle_shorter_on_a_close() {
    // 10:15 is itself a close of the 15 minute grid: 15 minutes less than the plain shift.
    assert_eq!(open_until_shift(10, 15, &TimeFrameType::M15, true), (0, 15));
    assert_eq!(adapted_open_until_shift(10, 15, &TimeFrameType::M15, true), (0, 0));
    assert_eq!(adapted_open_until_shift(10, 16, &TimeFrameType::M15, true), (0, 14));
    assert_eq!(open_until_shift(8, 0, &TimeFrameType::H4, true), (4, 0));
    assert_eq!(adapted_open_until_shift(8, 0, &TimeFrameType::H4, true), (0, 0));
    assert_eq!(adapted_open_until_shift(9, 0, &TimeFrameType::H4, true), (3, 0));
    assert_eq!(adapted_open_until_shift(10, 15, &TimeFrameType::M15, false), (0, 15));
}

#[test]
fn open_until_tick_moves_to_the_next_grid_minute() {
    let open = LocalTime { week_day: 3, hour: 10, minute: 7, second: 42, dst: false };
    let tick = get_open_until_tick(open, 5);
    assert_eq!(tick, LocalTime { week_day: 3, hour: 10, minute: 10, second: 0, dst: false });
    let on_grid = LocalTime { week_day: 3, hour: 10, minute: 15, second: 3, dst: true };
    assert_eq!(get_open_until_tick(on_grid, 15).minute, 15);
    assert_eq!(get_open_until_tick(on_grid, 15).second, 0);
}

#[test]
fn starting_bar_counts_days_or_minutes() {
    let mode = ExecutionMode::BackTest;
    assert_eq!(TimeFrame::get_starting_bar(300, &TimeFrameType::D, &mode), (LookbackUnit::Days, 300));
    assert_eq!(TimeFrame::get_starting_bar(300, &TimeFrameType::MN, &mode), (LookbackUnit::Days, 300));
    assert_eq!(TimeFrame::get_starting_bar(300, &TimeFrameType::H4, &mode), (LookbackUnit::Minutes, 300));
    assert_eq!(TimeFrame::get_starting_bar(10, &TimeFrameType::M1, &mode), (LookbackUnit::Minutes, 10));
}

use rs_algo_shared::models::time_frame::get_htf_indexes;

#[test]
fn higher_time_frame_candle_of_a_date() {
    let htf = vec![(100, 0), (200, 0), (300, 0), (400, 0)];
    assert_eq!(get_htf_indexes((250, 0), Some(&htf)), (1, 0));
    assert_eq!(get_htf_indexes((300, 0), Some(&htf)), (2, 1));
    assert_eq!(get_htf_indexes((300, 5), Some(&htf)), (2, 1));
    assert_eq!(get_htf_indexes((299, 999), Some(&htf)), (1, 0));
    assert_eq!(get_htf_indexes((50, 0), Some(&htf)), (0, 0));
    assert_eq!(get_htf_indexes((1_000, 0), Some(&htf)), (3, 2));
    assert_eq!(get_htf_indexes((250, 0), None), (0, 0));
}
