use vstd::prelude::*;
use crate::helpers::calc::get_prev_index;
use crate::helpers::date::LocalTime;
use crate::models::mode::ExecutionMode;

verus! {

/// Candle period of an instrument, from monthly down to one minute.
#[derive(Debug, Clone, Copy, PartialEq, Eq, Structural)]
pub enum TimeFrameType {
    MN,
    W,
    D,
    H4,
    H1,
    M30,
    M15,
    M5,
    M1,
    ERR,
}

/// Builder of time frames from their names.
#[derive(Debug, Clone, Copy, PartialEq, Eq, Structural)]
pub struct TimeFrame {}

/// The time frame read from `name`: `M1`, `H4`, `D`, `W` and `MN` read as themselves,
/// `M15` reads as `M5`, `H1` reads as `M30`, anything else as `ERR`.
pub open spec fn spec_time_frame_from_str(name: Seq<char>) -> TimeFrameType {
    if name == "M1"@ {
        TimeFrameType::M1
    } else if name == "M15"@ {
        TimeFrameType::M5
    } else if name == "H1"@ {
        TimeFrameType::M30
    } else if name == "H4"@ {
        TimeFrameType::H4
    } else if name == "D"@ {
        TimeFrameType::D
    } else if name == "W"@ {
        TimeFrameType::W
    } else if name == "MN"@ {
        TimeFrameType::MN
    } else {
        TimeFrameType::ERR
    }
}

fn time_frame_from_text(time_frame: &str) -> (res: TimeFrameType)
    ensures
        res == spec_time_frame_from_str(time_frame@),
{
    let t = time_frame.to_owned();
    if t == "M1".to_owned() {
        TimeFrameType::M1
    } else if t == "M15".to_owned() {
        TimeFrameType::M5
    } else if t == "H1".to_owned() {
        TimeFrameType::M30
    } else if t == "H4".to_owned() {
        TimeFrameType::H4
    } else if t == "D".to_owned() {
        TimeFrameType::D
    } else if t == "W".to_owned() {
        TimeFrameType::W
    } else if t == "MN".to_owned() {
        TimeFrameType::MN
    } else {
        TimeFrameType::ERR
    }
}

impl TimeFrame {
    /// Reads a time frame from its name (see `spec_time_frame_from_str`).
    pub fn new(time_frame: &str) -> (res: TimeFrameType)
        ensures
            res == spec_time_frame_from_str(time_frame@),
    {
        time_frame_from_text(time_frame)
    }

    /// The name under which the builder is displayed.
    pub fn to_string(&self) -> (res: String)
        ensures
            res@ == "TimeFrame"@,
    {
        "TimeFrame".to_owned()
    }
}

/// Which unit a lookback of bars is counted in: whole days or minutes.
#[derive(Debug, Clone, Copy, PartialEq, Eq, Structural)]
pub enum LookbackUnit {
    Days,
    Minutes,
}

impl TimeFrameType {
    /// Length of one candle in minutes (0 for `ERR`).
    pub open spec fn spec_to_number(self) -> int {
        match self {
            TimeFrameType::ERR => 0,
            TimeFrameType::M1 => 1,
            TimeFrameType::M5 => 5,
            TimeFrameType::M15 => 15,
            TimeFrameType::M30 => 30,
            TimeFrameType::H1 => 60,
            TimeFrameType::H4 => 240,
            TimeFrameType::D => 1440,
            TimeFrameType::W => 10080,
            TimeFrameType::MN => 43200,
        }
    }

    /// Length of one candle in hours for hourly and longer frames, 0 otherwise.
    pub open spec fn spec_to_hours(self) -> int {
        match self {
            TimeFrameType::H1 => 1,
            TimeFrameType::H4 => 4,
            TimeFrameType::D => 24,
            TimeFrameType::W => 168,
            TimeFrameType::MN => 672,
            _ => 0,
        }
    }

    pub open spec fn spec_is_minutely(self) -> bool {
        self is M1 || self is M5 || self is M15 || self is M30
    }

    pub open spec fn spec_is_hourly(self) -> bool {
        self is H1 || self is H4
    }

    /// The time frame whose candles last `minutes` minutes, `ERR` if there is none.
    pub open spec fn spec_from_number(minutes: int) -> TimeFrameType {
        if minutes == 1 {
            TimeFrameType::M1
        } else if minutes == 5 {
            TimeFrameType::M5
        } else if minutes == 15 {
            TimeFrameType::M15
        } else if minutes == 30 {
            TimeFrameType::M30
        } else if minutes == 60 {
            TimeFrameType::H1
        } else if minutes == 240 {
            TimeFrameType::H4
        } else if minutes == 1440 {
            TimeFrameType::D
        } else if minutes == 10080 {
            TimeFrameType::W
        } else if minutes == 43200 {
            TimeFrameType::MN
        } else {
            TimeFrameType::ERR
        }
    }

    /// The name under which the time frame is displayed.
    pub open spec fn spec_name(self) -> Seq<char> {
        match self {
            TimeFrameType::MN => "MN"@,
            TimeFrameType::W => "W"@,
            TimeFrameType::D => "D"@,
            TimeFrameType::H4 => "H4"@,
            TimeFrameType::H1 => "H1"@,
            TimeFrameType::M30 => "M30"@,
            TimeFrameType::M15 => "M15"@,
            TimeFrameType::M5 => "M5"@,
            TimeFrameType::M1 => "M1"@,
            TimeFrameType::ERR => "ERR"@,
        }
    }

    /// The minutes of the hour at which a candle closes: the multiples of the candle
    /// length below 60 for minutely frames, `[0]` otherwise.
    pub open spec fn spec_closing_minutes(self) -> Seq<i64> {
        if self.spec_is_minutely() {
            Seq::new((60int / self.spec_to_number()) as nat, |i: int| (i * self.spec_to_number()) as i64)
        } else {
            seq![0i64]
        }
    }

    /// The hours of the day at which a candle closes: every hour for `H1`, every fourth
    /// for `H4`, `[0]` for `D`, `[1]` for `W` and `MN`, none otherwise.
    pub open spec fn spec_closing_hours(self) -> Seq<i64> {
        if self.spec_is_hourly() {
            Seq::new((24int / self.spec_to_hours()) as nat, |i: int| (i * self.spec_to_hours()) as i64)
        } else if self is D {
            seq![0i64]
        } else if self is W || self is MN {
            seq![1i64]
        } else {
            Seq::empty()
        }
    }

    /// Reads a time frame from its length in minutes.
    pub fn from_number(time_frame: usize) -> (res: TimeFrameType)
        ensures
            res == Self::spec_from_number(time_frame as int),
    {
        match time_frame {
            1 => TimeFrameType::M1,
            5 => TimeFrameType::M5,
            15 => TimeFrameType::M15,
            30 => TimeFrameType::M30,
            60 => TimeFrameType::H1,
            240 => TimeFrameType::H4,
            1440 => TimeFrameType::D,
            10080 => TimeFrameType::W,
            43200 => TimeFrameType::MN,
            _ => TimeFrameType::ERR,
        }
    }

    /// Reads a time frame from its name (see `spec_time_frame_from_str`).
    pub fn from_str(time_frame: &str) -> (res: TimeFrameType)
        ensures
            res == spec_time_frame_from_str(time_frame@),
    {
        time_frame_from_text(time_frame)
    }

    /// Length of one candle in minutes (0 for `ERR`).
    pub fn to_number(&self) -> (res: i64)
        ensures
            res == self.spec_to_number(),
    {
        match *self {
            TimeFrameType::ERR => 0,
            TimeFrameType::M1 => 1,
            TimeFrameType::M5 => 5,
            TimeFrameType::M15 => 15,
            TimeFrameType::M30 => 30,
            TimeFrameType::H1 => 60,
            TimeFrameType::H4 => 240,
            TimeFrameType::D => 1440,
            TimeFrameType::W => 10080,
            TimeFrameType::MN => 43200,
        }
    }

    /// Whether this is the one-minute frame.
    pub fn is_base_time_frame(&self) -> (res: bool)
        ensures
            res == (*self is M1),
    {
        *self == TimeFrameType::M1
    }

    /// Whether candles last less than an hour.
    pub fn is_minutely_time_frame(&self) -> (res: bool)
        ensures
            res == self.spec_is_minutely(),
    {
        *self == TimeFrameType::M1 || *self == TimeFrameType::M5 || *self == TimeFrameType::M15
            || *self == TimeFrameType::M30
    }

    /// Whether candles last one or four hours.
    pub fn is_hourly_time_frame(&self) -> (res: bool)
        ensures
            res == self.spec_is_hourly(),
    {
        *self == TimeFrameType::H1 || *self == TimeFrameType::H4
    }

    /// Whether candles last a day.
    pub fn is_daily_time_frame(&self) -> (res: bool)
        ensures
            res == (*self is D),
    {
        *self == TimeFrameType::D
    }

    /// Length of one candle in minutes (0 for `ERR`).
    pub fn to_minutes(&self) -> (res: i64)
        ensures
            res == self.spec_to_number(),
    {
        match *self {
            TimeFrameType::ERR => 0,
            TimeFrameType::M1 => 1,
            TimeFrameType::M5 => 5,
            TimeFrameType::M15 => 15,
            TimeFrameType::M30 => 30,
            TimeFrameType::H1 => 60,
            TimeFrameType::H4 => 240,
            TimeFrameType::D => 1440,
            TimeFrameType::W => 10080,
            TimeFrameType::MN => 43200,
        }
    }

    /// Length of one candle in hours for hourly and longer frames, 0 otherwise.
    pub fn to_hours(&self) -> (res: i64)
        ensures
            res == self.spec_to_hours(),
    {
        match *self {
            TimeFrameType::ERR => 0,
            TimeFrameType::H1 => 1,
            TimeFrameType::H4 => 4,
            TimeFrameType::D => 24,
            TimeFrameType::W => 168,
            TimeFrameType::MN => 672,
            _ => 0,
        }
    }

    /// Number of previous candles to look at: the candle length in minutes.
    pub fn prev_candles(&self) -> (res: i64)
        ensures
            res == self.spec_to_number(),
    {
        self.to_number()
    }

    /// The minutes of the hour at which a candle of this frame closes.
    pub fn closing_minutes(&self) -> (res: Vec<i64>)
        ensures
            res@ == self.spec_closing_minutes(),
    {
        if self.is_minutely_time_frame() {
            let step = self.to_minutes();
            let mut out: Vec<i64> = Vec::new();
            let mut minute: i64 = 0;
            while minute < 60
                invariant
                    self.spec_is_minutely(),
                    step == self.spec_to_number(),
                    0 <= minute <= 60,
                    minute == out.len() * step,
                    forall|i: int| 0 <= i < out.len() ==> #[trigger] out@[i] == i * step,
                decreases 60 - minute,
            {
                out.push(minute);
                minute = minute + step;
            }
            assert(out.len() == 60int / step as int) by (nonlinear_arith)
                requires out.len() * step == 60, step > 0;
            assert(out@ =~= self.spec_closing_minutes());
            out
        } else {
            let mut out: Vec<i64> = Vec::new();
            out.push(0);
            assert(out@ =~= seq![0i64]);
            out
        }
    }

    /// The hours of the day at which a candle of this frame closes.
    pub fn closing_hours(&self) -> (res: Vec<i64>)
        ensures
            res@ == self.spec_closing_hours(),
    {
        let mut out: Vec<i64> = Vec::new();
        if self.is_hourly_time_frame() {
            let step = self.to_hours();
            let mut hour: i64 = 0;
            assert(out.len() == 0);
            assert(out.len() * step == 0) by (nonlinear_arith)
                requires out.len() == 0;
            while hour < 24
                invariant
                    self.spec_is_hourly(),
                    step == self.spec_to_hours(),
                    0 <= hour <= 24,
                    hour == out.len() * step,
                    forall|i: int| 0 <= i < out.len() ==> #[trigger] out@[i] == i * step,
                decreases 24 - hour,
            {
                out.push(hour);
                hour = hour + step;
            }
            assert(out.len() == 24int / step as int) by (nonlinear_arith)
                requires out.len() * step == 24, step > 0;
            assert(out@ =~= self.spec_closing_hours());
        } else if *self == TimeFrameType::D {
            out.push(0);
            assert(out@ =~= seq![0i64]);
        } else if *self == TimeFrameType::W || *self == TimeFrameType::MN {
            out.push(1);
            assert(out@ =~= seq![1i64]);
        } else {
            assert(out@ =~= Seq::<i64>::empty());
        }
        out
    }

    /// The name under which the time frame is displayed.
    pub fn to_string(&self) -> (res: String)
        ensures
            res@ == self.spec_name(),
    {
        let name = match *self {
            TimeFrameType::MN => "MN",
            TimeFrameType::W => "W",
            TimeFrameType::D => "D",
            TimeFrameType::H4 => "H4",
            TimeFrameType::H1 => "H1",
            TimeFrameType::M30 => "M30",
            TimeFrameType::M15 => "M15",
            TimeFrameType::M5 => "M5",
            TimeFrameType::M1 => "M1",
            TimeFrameType::ERR => "ERR",
        };
        name.to_owned()
    }
}

/// For a step that divides the period, a value inside the period falls in one of its
/// `period / step` slots.
proof fn lemma_slot_bounds(value: int, step: int, period: int)
    requires
        0 <= value < period,
        step > 0,
        period % step == 0,
    ensures
        0 <= value / step < period / step,
        (period / step) * step == period,
{
    assert(0 <= value / step < period / step) by (nonlinear_arith)
        requires 0 <= value < period, step > 0, period % step == 0;
    assert((period / step) * step == period) by (nonlinear_arith)
        requires step > 0, period % step == 0;
}

/// `i * step <= m` exactly when `i <= m / step`.
proof fn lemma_multiple_below(i: int, step: int, m: int)
    requires
        step > 0,
        i >= 0,
        m >= 0,
    ensures
        (i * step <= m) <==> (i <= m / step),
{
    assert((i * step <= m) ==> (i <= m / step)) by (nonlinear_arith)
        requires step > 0, i >= 0, m >= 0;
    assert((i <= m / step) ==> (i * step <= m)) by (nonlinear_arith)
        requires step > 0, i >= 0, m >= 0;
}

/// How far the close of the candle open at `hour:minute` lies ahead, as (hours, minutes).
/// With `next`, minutely candles close at the next multiple of their length after
/// `minute`, hourly candles at the next multiple of their length after `hour` (minus the
/// minutes already gone), daily candles at midnight and weekly and monthly ones at 01:00
/// of the next day; without `next` the candle simply lasts its length.
pub open spec fn spec_open_until_shift(hour: int, minute: int, tf: TimeFrameType, next: bool) -> (int, int) {
    if !next {
        if tf.spec_is_minutely() {
            (0, tf.spec_to_number())
        } else {
            (tf.spec_to_hours(), 0)
        }
    } else if tf.spec_is_minutely() {
        (0, (minute / tf.spec_to_number() + 1) * tf.spec_to_number() - minute)
    } else if tf.spec_is_hourly() {
        ((hour / tf.spec_to_hours() + 1) * tf.spec_to_hours() - hour, -minute)
    } else if tf is D {
        (24 - hour, -minute)
    } else {
        (25 - hour, -minute)
    }
}

/// The inputs on which looking up the next close finds a close at or before the candle.
pub open spec fn open_until_defined(hour: int, tf: TimeFrameType, next: bool) -> bool {
    next && !tf.spec_is_minutely() ==> (tf !is ERR && ((tf is W || tf is MN) ==> hour >= 1))
}

/// The index of the last closing time strictly before `limit`, if any.
fn last_close_before(closes: &Vec<i64>, limit: i64) -> (res: Option<usize>)
    ensures
        match res {
            Some(i) => i < closes.len() && closes@[i as int] < limit && forall|j: int|
                i < j < closes.len() ==> closes@[j] >= limit,
            None => forall|j: int| 0 <= j < closes.len() ==> closes@[j] >= limit,
        },
{
    let mut found: Option<usize> = None;
    let mut i: usize = 0;
    while i < closes.len()
        invariant
            i <= closes.len(),
            match found {
                Some(k) => k < i && closes@[k as int] < limit && forall|j: int|
                    k < j < i ==> closes@[j] >= limit,
                None => forall|j: int| 0 <= j < i ==> closes@[j] >= limit,
            },
        decreases closes.len() - i,
    {
        if closes[i] < limit {
            found = Some(i);
        }
        i = i + 1;
    }
    found
}

/// How many minutes after `minute` a minutely candle closes: the lookup of the first
/// closing minute after `minute` among `closing_minutes`, wrapping to the next hour.
fn minutes_to_close(minute: u32, time_frame: &TimeFrameType) -> (res: i64)
    requires
        minute < 60,
        time_frame.spec_is_minutely(),
    ensures
        res == (minute as int / time_frame.spec_to_number() + 1) * time_frame.spec_to_number() - minute,
{
    let candle_minute: i64 = minute as i64 + 1;
    let closes = time_frame.closing_minutes();
    let step = time_frame.to_minutes();
    let ghost k = minute as int / step as int;
    proof {
        assert(step == 1 || step == 5 || step == 15 || step == 30);
        assert(closes.len() == 60int / step as int);
        lemma_slot_bounds(minute as int, step as int, 60);
        assert(k < closes.len());
        assert(closes@[0] == 0);
        assert forall|j: int| 0 <= j < closes.len() implies (closes@[j] < candle_minute <==> j <= k) by {
            lemma_multiple_below(j, step as int, minute as int);
        }
    }
    let idx = last_close_before(&closes, candle_minute);
    let i = match idx {
        Some(i) => i,
        None => {
            proof {
                assert(closes@[0] < candle_minute);
            }
            0
        },
    };
    assert(closes@[k] < candle_minute);
    assert(i == k);
    let next_close: i64 = if i + 1 < closes.len() {
        closes[i + 1]
    } else {
        assert((k + 1) * step == 60) by (nonlinear_arith)
            requires
                k + 1 >= 60int / step as int,
                k == minute as int / step as int,
                minute < 60,
                step == 1 || step == 5 || step == 15 || step == 30;
        closes[0] + 60
    };
    assert(next_close == (k + 1) * step);
    next_close - candle_minute + 1
}

/// How many hours after `hour` a candle of an hourly or longer frame closes: the lookup of
/// the first closing hour after `hour` among `closing_hours`, wrapping to the next day.
fn hours_to_close(hour: u32, time_frame: &TimeFrameType) -> (res: i64)
    requires
        hour < 24,
        !time_frame.spec_is_minutely(),
        open_until_defined(hour as int, *time_frame, true),
    ensures
        time_frame.spec_is_hourly() ==> res == (hour as int / time_frame.spec_to_hours() + 1)
            * time_frame.spec_to_hours() - hour,
        *time_frame is D ==> res == 24 - hour,
        (*time_frame is W || *time_frame is MN) ==> res == 25 - hour,
{
    let candle_hour: i64 = hour as i64 + 1;
    let closes = time_frame.closing_hours();
    let ghost step = time_frame.spec_to_hours();
    proof {
        if time_frame.spec_is_hourly() {
            assert(step == 1 || step == 4);
            assert(closes.len() == 24int / step);
            lemma_slot_bounds(hour as int, step, 24);
            assert(hour as int / step < closes.len());
            assert(closes@[0] == 0);
            assert forall|j: int| 0 <= j < closes.len() implies (closes@[j] < candle_hour <==> j
                <= hour as int / step) by {
                lemma_multiple_below(j, step, hour as int);
            }
        }
    }
    let idx = last_close_before(&closes, candle_hour);
    let i = match idx {
        Some(i) => i,
        None => {
            proof {
                assert(closes@[0] < candle_hour);
            }
            0
        },
    };
    proof {
        if time_frame.spec_is_hourly() {
            assert(closes@[hour as int / step] < candle_hour);
            assert(i == hour as int / step);
        }
    }
    let next_close: i64 = if i + 1 < closes.len() {
        closes[i + 1]
    } else {
        proof {
            if time_frame.spec_is_hourly() {
                assert((i + 1) * step == 24) by (nonlinear_arith)
                    requires
                        i + 1 >= 24int / step,
                        i == hour as int / step,
                        hour < 24,
                        step == 1 || step == 4;
            }
        }
        closes[0] + 24
    };
    next_close - candle_hour + 1
}

/// How far ahead the candle open at `hour:minute` closes, as (hours, minutes): the lookup
/// of the next closing minute or hour among `closing_minutes` / `closing_hours`.
pub fn open_until_shift(hour: u32, minute: u32, time_frame: &TimeFrameType, next: bool) -> (res: (i64, i64))
    requires
        hour < 24,
        minute < 60,
        open_until_defined(hour as int, *time_frame, next),
    ensures
        (res.0 as int, res.1 as int) == spec_open_until_shift(hour as int, minute as int, *time_frame, next),
{
    if !next {
        if time_frame.is_minutely_time_frame() {
            (0, time_frame.to_minutes())
        } else {
            (time_frame.to_hours(), 0)
        }
    } else if time_frame.is_minutely_time_frame() {
        (0, minutes_to_close(minute, time_frame))
    } else {
        (hours_to_close(hour, time_frame), -(minute as i64))
    }
}

/// The position of the candle's close after `hour:minute`, as adapted to the candle
/// grid: as `spec_open_until_shift`, except that with `next` a time that is itself a
/// closing minute (minutely frames) or a closing hour on the hour (hourly frames) is the
/// open of its own candle, so the shift is one candle shorter.
pub open spec fn spec_adapted_open_until_shift(hour: int, minute: int, tf: TimeFrameType, next: bool) -> (int, int) {
    let (h, m) = spec_open_until_shift(hour, minute, tf, next);
    if next && tf.spec_is_minutely() && minute % tf.spec_to_number() == 0 {
        (h, m - tf.spec_to_number())
    } else if next && tf.spec_is_hourly() && hour % tf.spec_to_hours() == 0 && minute == 0 {
        (h - tf.spec_to_hours(), m)
    } else {
        (h, m)
    }
}

fn contains_value(values: &Vec<i64>, value: i64) -> (res: bool)
    ensures
        res == values@.contains(value),
{
    let mut i: usize = 0;
    while i < values.len()
        invariant
            i <= values.len(),
            forall|j: int| 0 <= j < i ==> values@[j] != value,
        decreases values.len() - i,
    {
        if values[i] == value {
            return true;
        }
        i = i + 1;
    }
    false
}

/// The close of the candle open at `hour:minute`, adapted to the candle grid (see
/// `spec_adapted_open_until_shift`).
pub fn adapted_open_until_shift(hour: u32, minute: u32, time_frame: &TimeFrameType, next: bool) -> (res: (i64, i64))
    requires
        hour < 24,
        minute < 60,
        open_until_defined(hour as int, *time_frame, next),
    ensures
        (res.0 as int, res.1 as int) == spec_adapted_open_until_shift(hour as int, minute as int, *time_frame, next),
{
    let (h, m) = open_until_shift(hour, minute, time_frame, next);
    if next {
        if time_frame.is_minutely_time_frame() {
            let closes = time_frame.closing_minutes();
            let step = time_frame.to_minutes();
            let on_close = contains_value(&closes, minute as i64);
            proof {
                assert(step == 1 || step == 5 || step == 15 || step == 30);
                lemma_slot_bounds(minute as int, step as int, 60);
                let k = minute as int / step as int;
                if minute as int % step as int == 0 {
                    assert(k * step == minute) by (nonlinear_arith)
                        requires k == minute as int / step as int, minute as int % step as int == 0, step > 0;
                    assert(closes@[k] == minute);
                    assert(closes@.contains(minute as i64));
                } else {
                    assert forall|j: int| 0 <= j < closes.len() implies closes@[j] != minute by {
                        assert(closes@[j] == j * step);
                        if j * step == minute {
                            assert((j * (step as int)) % (step as int) == 0) by (nonlinear_arith)
                                requires step as int > 0;
                        }
                    }
                    assert(!closes@.contains(minute as i64));
                }
            }
            if on_close {
                return (h, m - step);
            }
        } else if time_frame.is_hourly_time_frame() {
            let hours = time_frame.closing_hours();
            let minutes = time_frame.closing_minutes();
            let step = time_frame.to_hours();
            let on_hour = contains_value(&hours, hour as i64);
            let on_minute = contains_value(&minutes, minute as i64);
            proof {
                assert(minutes@ =~= seq![0i64]);
                assert(step == 1 || step == 4);
                lemma_slot_bounds(hour as int, step as int, 24);
                let k = hour as int / step as int;
                if hour as int % step as int == 0 {
                    assert(k * step == hour) by (nonlinear_arith)
                        requires k == hour as int / step as int, hour as int % step as int == 0, step > 0;
                    assert(hours@[k] == hour);
                    assert(hours@.contains(hour as i64));
                } else {
                    assert forall|j: int| 0 <= j < hours.len() implies hours@[j] != hour by {
                        assert(hours@[j] == j * step);
                        if j * step == hour {
                            assert((j * (step as int)) % (step as int) == 0) by (nonlinear_arith)
                                requires step as int > 0;
                        }
                    }
                    assert(!hours@.contains(hour as i64));
                }
                if minute == 0 {
                    assert(minutes@[0] == 0);
                }
                assert(minutes@.contains(minute as i64) <==> minute == 0);
            }
            if on_hour && on_minute {
                return (h - step, m);
            }
        }
    }
    (h, m)
}

/// The minute at which the candle open at `current_minute` closes on a grid of
/// `timeframe` minutes: the first multiple of the grid at or after `current_minute`.
pub open spec fn spec_open_until_tick_minute(current_minute: int, step: int) -> int {
    if current_minute % step == 0 {
        current_minute
    } else {
        current_minute + (step - current_minute % step)
    }
}

/// The candle open at `candle_open`, moved to the close of its tick candle: seconds set to
/// zero and the minute moved to the first multiple of `timeframe` (taken as a `u32`) at or
/// after it, the hour and the day unchanged. The closing minute must stay inside the hour.
pub fn get_open_until_tick(candle_open: LocalTime, timeframe: i64) -> (res: LocalTime)
    requires
        candle_open.wf(),
        timeframe as u32 > 0,
        spec_open_until_tick_minute(candle_open.minute as int, (timeframe as u32) as int) < 60,
    ensures
        res == (LocalTime {
            minute: spec_open_until_tick_minute(candle_open.minute as int, (timeframe as u32) as int) as u32,
            second: 0,
            ..candle_open
        }),
{
    let step = timeframe as u32;
    let current_minute = candle_open.minute;
    let minute_remainder = current_minute % step;
    let closing_minute = if minute_remainder == 0 {
        current_minute
    } else {
        current_minute + (step - minute_remainder)
    };
    LocalTime { minute: closing_minute, second: 0, ..candle_open }
}

/// The tick close is the first multiple of the grid at or after the minute.
pub proof fn lemma_open_until_tick_minute(current_minute: int, step: int)
    requires
        current_minute >= 0,
        step > 0,
    ensures
        spec_open_until_tick_minute(current_minute, step) % step == 0,
        current_minute <= spec_open_until_tick_minute(current_minute, step) < current_minute + step,
{
    let r = current_minute % step;
    assert(0 <= r < step) by (nonlinear_arith)
        requires step > 0, r == current_minute % step;
    if r != 0 {
        assert((current_minute + (step - r)) % step == 0) by (nonlinear_arith)
            requires step > 0, r == current_minute % step;
    }
}

/// A lookback of `num_bars` bars for a time frame: counted in days for daily, weekly,
/// monthly and unknown frames, in minutes for the others.
pub open spec fn spec_starting_bar_lookback(num_bars: i64, time_frame: TimeFrameType) -> (LookbackUnit, i64) {
    if time_frame is D || time_frame is W || time_frame is MN || time_frame is ERR {
        (LookbackUnit::Days, num_bars)
    } else {
        (LookbackUnit::Minutes, num_bars)
    }
}

impl TimeFrame {
    /// How far before now the first bar of a run of `num_bars` bars lies: whole days for
    /// daily, weekly, monthly and unknown frames, minutes for the others. The execution
    /// mode does not change it.
    pub fn get_starting_bar(
        num_bars: i64,
        time_frame: &TimeFrameType,
        _execution_mode: &ExecutionMode,
    ) -> (res: (LookbackUnit, i64))
        ensures
            res == spec_starting_bar_lookback(num_bars, *time_frame),
    {
        match time_frame {
            TimeFrameType::D | TimeFrameType::W => (LookbackUnit::Days, num_bars),
            TimeFrameType::H4 => (LookbackUnit::Minutes, num_bars),
            TimeFrameType::H1 => (LookbackUnit::Minutes, num_bars),
            TimeFrameType::M30 => (LookbackUnit::Minutes, num_bars),
            TimeFrameType::M15 => (LookbackUnit::Minutes, num_bars),
            TimeFrameType::M5 => (LookbackUnit::Minutes, num_bars),
            TimeFrameType::M1 => (LookbackUnit::Minutes, num_bars),
            _ => (LookbackUnit::Days, num_bars),
        }
    }
}

/// Reading a time frame back from its length in minutes gives the same time frame.
pub proof fn lemma_time_frame_number_round_trip(t: TimeFrameType)
    ensures
        TimeFrameType::spec_from_number(t.spec_to_number()) == t,
{
}

/// A length in minutes that names a time frame is that time frame's length.
pub proof fn lemma_number_time_frame_round_trip(minutes: int)
    requires
        TimeFrameType::spec_from_number(minutes) !is ERR,
    ensures
        TimeFrameType::spec_from_number(minutes).spec_to_number() == minutes,
{
}

/// Reading back the displayed name of `MN`, `W`, `D`, `H4`, `M1` or `ERR` gives the same
/// time frame (the names of `H1`, `M30`, `M15` and `M5` do not read back as themselves).
pub proof fn lemma_time_frame_name_round_trip(t: TimeFrameType)
    requires
        !(t is H1 || t is M30 || t is M15 || t is M5),
    ensures
        spec_time_frame_from_str(t.spec_name()) == t,
{
    reveal_strlit("D");
    reveal_strlit("W");
    reveal_strlit("H1");
    reveal_strlit("H4");
    reveal_strlit("M1");
    reveal_strlit("M5");
    reveal_strlit("MN");
    reveal_strlit("ERR");
    reveal_strlit("M15");
    reveal_strlit("M30");
    assert("W"@[0] != "D"@[0]);
    assert("H1"@.len() != "D"@.len());
    assert("H1"@.len() != "W"@.len());
    assert("H4"@.len() != "D"@.len());
    assert("H4"@.len() != "W"@.len());
    assert("H4"@[1] != "H1"@[1]);
    assert("M1"@.len() != "D"@.len());
    assert("M1"@.len() != "W"@.len());
    assert("M1"@[0] != "H1"@[0]);
    assert("M1"@[0] != "H4"@[0]);
    assert("M5"@.len() != "D"@.len());
    assert("M5"@.len() != "W"@.len());
    assert("M5"@[0] != "H1"@[0]);
    assert("M5"@[0] != "H4"@[0]);
    assert("M5"@[1] != "M1"@[1]);
    assert("MN"@.len() != "D"@.len());
    assert("MN"@.len() != "W"@.len());
    assert("MN"@[0] != "H1"@[0]);
    assert("MN"@[0] != "H4"@[0]);
    assert("MN"@[1] != "M1"@[1]);
    assert("MN"@[1] != "M5"@[1]);
    assert("ERR"@.len() != "D"@.len());
    assert("ERR"@.len() != "W"@.len());
    assert("ERR"@.len() != "H1"@.len());
    assert("ERR"@.len() != "H4"@.len());
    assert("ERR"@.len() != "M1"@.len());
    assert("ERR"@.len() != "M5"@.len());
    assert("ERR"@.len() != "MN"@.len());
    assert("M15"@.len() != "D"@.len());
    assert("M15"@.len() != "W"@.len());
    assert("M15"@.len() != "H1"@.len());
    assert("M15"@.len() != "H4"@.len());
    assert("M15"@.len() != "M1"@.len());
    assert("M15"@.len() != "M5"@.len());
    assert("M15"@.len() != "MN"@.len());
    assert("M15"@[0] != "ERR"@[0]);
    assert("M30"@.len() != "D"@.len());
    assert("M30"@.len() != "W"@.len());
    assert("M30"@.len() != "H1"@.len());
    assert("M30"@.len() != "H4"@.len());
    assert("M30"@.len() != "M1"@.len());
    assert("M30"@.len() != "M5"@.len());
    assert("M30"@.len() != "MN"@.len());
    assert("M30"@[0] != "ERR"@[0]);
    assert("M30"@[1] != "M15"@[1]);
}

/// Whether the moment `a` is at or before the moment `b`, each given as whole seconds since
/// the epoch and the nanoseconds past them.
pub open spec fn at_or_before(a: (i64, u32), b: (i64, u32)) -> bool {
    a.0 < b.0 || (a.0 == b.0 && a.1 <= b.1)
}

/// The position of the last of the first `n` dates that is at or before `base`, if any.
pub open spec fn last_at_or_before(dates: Seq<(i64, u32)>, base: (i64, u32), n: int) -> Option<int>
    decreases n,
{
    if n <= 0 {
        None
    } else if at_or_before(dates[n - 1], base) {
        Some(n - 1)
    } else {
        last_at_or_before(dates, base, n - 1)
    }
}

/// The higher time frame's candle for the candle dated `base_date` of the base time frame:
/// the last of `htf_dates` at or before it (0 when none is), and the one before that. With
/// no higher time frame both are 0.
pub fn get_htf_indexes(base_date: (i64, u32), htf_dates: Option<&Vec<(i64, u32)>>) -> (res: (
    usize,
    usize,
))
    ensures
        htf_dates is None ==> res == (0usize, 0usize),
        htf_dates matches Some(dates) ==> {
            let upper = match last_at_or_before(dates@, base_date, dates@.len() as int) {
                Some(k) => k,
                None => 0,
            };
            &&& res.0 == upper
            &&& res.1 == if upper > 0 { upper - 1 } else { upper }
        },
{
    match htf_dates {
        Some(dates) => {
            let mut upper: usize = 0;
            let mut i: usize = 0;
            while i < dates.len()
                invariant
                    i <= dates@.len(),
                    upper == match last_at_or_before(dates@, base_date, i as int) {
                        Some(k) => k,
                        None => 0,
                    },
                decreases dates.len() - i,
            {
                let d = dates[i];
                if d.0 < base_date.0 || (d.0 == base_date.0 && d.1 <= base_date.1) {
                    upper = i;
                }
                i = i + 1;
            }
            (upper, get_prev_index(upper))
        },
        None => (0, 0),
    }
}

/// The length in minutes of a candle of an intraday frame.
pub open spec fn grid_minutes(tf: TimeFrameType) -> int {
    match tf {
        TimeFrameType::M1 => 1,
        TimeFrameType::M5 => 5,
        TimeFrameType::M15 => 15,
        TimeFrameType::M30 => 30,
        TimeFrameType::H1 => 60,
        TimeFrameType::H4 => 240,
        _ => 0,
    }
}

/// On intraday frames, looking for the next close from `hour:minute` lands on the grid of
/// the frame (multiples of its length, counted from the start of the hour for minutely
/// frames and from midnight for hourly ones): the plain shift goes to the first grid point
/// strictly after the time, within one candle; the adapted shift goes to the first grid
/// point at or after it, so it is zero exactly on a grid point and never negative.
pub proof fn lemma_next_close_on_grid(hour: int, minute: int, tf: TimeFrameType)
    requires
        0 <= hour < 24,
        0 <= minute < 60,
        tf is M1 || tf is M5 || tf is M15 || tf is M30 || tf is H1 || tf is H4,
    ensures
        ({
            let g = grid_minutes(tf);
            let t = if tf is H1 || tf is H4 { hour * 60 + minute } else { minute };
            let plain = spec_open_until_shift(hour, minute, tf, true);
            let adapted = spec_adapted_open_until_shift(hour, minute, tf, true);
            let p = plain.0 * 60 + plain.1;
            let a = adapted.0 * 60 + adapted.1;
            &&& 0 < p <= g
            &&& (t + p) % g == 0
            &&& 0 <= a < g
            &&& (t + a) % g == 0
            &&& (a == 0 <==> t % g == 0)
            &&& (t % g != 0 ==> adapted == plain)
        }),
{
}

} // verus!
