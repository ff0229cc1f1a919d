use crate::helpers::date::LocalTime;
use vstd::prelude::*;

verus! {

/// Kind of market an instrument trades on.
#[derive(Debug, Clone, Copy, PartialEq, Eq, Structural)]
pub enum Market {
    Stock,
    Forex,
    Crypto,
    Default,
}

/// The market named `name`: `Forex`, `Crypto` and `Stock` read as themselves, anything
/// else as `Default`.
pub open spec fn spec_market_from_str(name: Seq<char>) -> Market {
    if name == "Forex"@ {
        Market::Forex
    } else if name == "Crypto"@ {
        Market::Crypto
    } else if name == "Stock"@ {
        Market::Stock
    } else {
        Market::Default
    }
}

impl Market {
    /// The name under which the market is displayed.
    pub open spec fn spec_name(self) -> Seq<char> {
        match self {
            Market::Stock => "Stock"@,
            Market::Forex => "Forex"@,
            Market::Crypto => "Crypto"@,
            Market::Default => "Default"@,
        }
    }

    /// Reads a market from its name (see `spec_market_from_str`).
    pub fn from_str(s: &str) -> (res: Self)
        ensures
            res == spec_market_from_str(s@),
    {
        let t = s.to_owned();
        if t == "Forex".to_owned() {
            Market::Forex
        } else if t == "Crypto".to_owned() {
            Market::Crypto
        } else if t == "Stock".to_owned() {
            Market::Stock
        } else {
            Market::Default
        }
    }
}

/// Reading back the name of a market gives the same market.
pub proof fn lemma_market_name_round_trip(m: Market)
    ensures
        spec_market_from_str(m.spec_name()) == m,
{
    reveal_strlit("Forex");
    reveal_strlit("Crypto");
    reveal_strlit("Stock");
    reveal_strlit("Default");
    assert("Crypto"@.len() != "Forex"@.len());
    assert("Stock"@[0] != "Forex"@[0]);
    assert("Stock"@.len() != "Crypto"@.len());
    assert("Default"@.len() != "Forex"@.len());
    assert("Default"@.len() != "Crypto"@.len());
    assert("Default"@.len() != "Stock"@.len());
}

/// Trading session of one of the big financial centres.
#[derive(Debug, Clone, Copy, PartialEq, Eq, Structural)]
pub enum MarketSessions {
    NewYork,
    London,
    Tokyo,
    Sydney,
}

/// Local hours during which a session is open: from `from` (included) to `to` (excluded),
/// wrapping over midnight when `from` is after `to`.
#[derive(Debug, Clone, Copy, PartialEq, Eq, Structural)]
pub struct MarketSessionHours {
    pub session: MarketSessions,
    pub from: u32,
    pub to: u32,
}

/// Local hours during which a market trades on a day of the week (Monday is 1).
#[derive(Debug, Clone, Copy, PartialEq, Eq, Structural)]
pub struct MarketHour {
    pub day: u32,
    pub from: u32,
    pub to: u32,
}

/// Trading hours of a symbol and the hours of the main sessions.
#[derive(Debug, Clone)]
pub struct MarketHours {
    retry_after: isize,
    symbol: String,
    data: Vec<MarketHour>,
    session_hours: Vec<MarketSessionHours>,
}

/// Whether the market is open at `hour` of `week_day` by the first of `data` that lists
/// that day; never on Saturday (6).
pub open spec fn spec_open_at(data: Seq<MarketHour>, week_day: u32, hour: u32) -> bool
    decreases data.len(),
{
    if data.len() == 0 {
        false
    } else if data[0].day == week_day && week_day != 6 {
        data[0].from <= hour && hour < data[0].to
    } else {
        spec_open_at(data.drop_first(), week_day, hour)
    }
}

/// Whether the week closes at `hour` of `week_day`: only on Friday (5), by the first of
/// `data` that lists that day.
pub open spec fn spec_week_close_at(data: Seq<MarketHour>, week_day: u32, hour: u32) -> bool
    decreases data.len(),
{
    if data.len() == 0 {
        false
    } else if data[0].day == week_day && week_day == 5 {
        data[0].from <= hour && hour < data[0].to
    } else {
        spec_week_close_at(data.drop_first(), week_day, hour)
    }
}

/// Whether a session's hours hold `hour`.
pub open spec fn spec_in_session(s: MarketSessionHours, hour: u32) -> bool {
    ||| (s.from < s.to && hour >= s.from && hour < s.to)
    ||| (s.from > s.to && (hour >= s.from || hour < s.to))
}

/// The first session whose hours hold `hour`, if any.
pub open spec fn spec_session_at(sessions: Seq<MarketSessionHours>, hour: u32) -> Option<MarketSessions>
    decreases sessions.len(),
{
    if sessions.len() == 0 {
        None
    } else if spec_in_session(sessions[0], hour) {
        Some(sessions[0].session)
    } else {
        spec_session_at(sessions.drop_first(), hour)
    }
}

/// The session hours (local time, one hour later in London and New York while daylight
/// saving time is in effect).
pub open spec fn spec_default_session_hours(dst: bool) -> Seq<MarketSessionHours> {
    let d: u32 = if dst { 1 } else { 0 };
    seq![
        MarketSessionHours { session: MarketSessions::NewYork, from: (14 + d) as u32, to: (23 + d) as u32 },
        MarketSessionHours { session: MarketSessions::London, from: (9 + d) as u32, to: (18 + d) as u32 },
        MarketSessionHours { session: MarketSessions::Tokyo, from: 1, to: 10 },
        MarketSessionHours { session: MarketSessions::Sydney, from: 21, to: 5 },
    ]
}

/// The trading hours of a market: Forex trades around the clock from Sunday 22:00 to
/// Friday 22:00 (each weekday until 23:00), other markets from 9:00 to 17:00 on weekdays.
pub open spec fn spec_market_data(market: Market) -> Seq<MarketHour> {
    if market is Forex {
        seq![
            MarketHour { day: 1, from: 0, to: 23 },
            MarketHour { day: 2, from: 0, to: 23 },
            MarketHour { day: 3, from: 0, to: 23 },
            MarketHour { day: 4, from: 0, to: 23 },
            MarketHour { day: 5, from: 0, to: 22 },
            MarketHour { day: 7, from: 22, to: 23 },
        ]
    } else {
        seq![
            MarketHour { day: 1, from: 9, to: 17 },
            MarketHour { day: 2, from: 9, to: 17 },
            MarketHour { day: 3, from: 9, to: 17 },
            MarketHour { day: 4, from: 9, to: 17 },
            MarketHour { day: 5, from: 9, to: 17 },
        ]
    }
}

/// When a closed market is tried again: `days_ahead` days from now, at `hour:minute:second`
/// local time.
#[derive(Debug, Clone, Copy, PartialEq, Eq, Structural)]
pub struct Reopening {
    pub days_ahead: i64,
    pub hour: u32,
    pub minute: u32,
    pub second: u32,
}

impl Default for MarketHours {
    fn default() -> (res: Self)
        ensures
            res.spec_retry_after() == 0,
            res.spec_symbol() == Seq::<char>::empty(),
            res.spec_data() == Seq::<MarketHour>::empty(),
            res.spec_session_hours() == Seq::<MarketSessionHours>::empty(),
    {
        MarketHours { retry_after: 0, symbol: String::new(), data: Vec::new(), session_hours: Vec::new() }
    }
}

impl MarketHours {
    pub closed spec fn spec_retry_after(&self) -> isize {
        self.retry_after
    }

    pub closed spec fn spec_symbol(&self) -> Seq<char> {
        self.symbol@
    }

    pub closed spec fn spec_data(&self) -> Seq<MarketHour> {
        self.data@
    }

    pub closed spec fn spec_session_hours(&self) -> Seq<MarketSessionHours> {
        self.session_hours@
    }

    /// Trading hours `data` of `symbol`, with the session hours for the daylight saving
    /// state `dst`.
    pub fn new(symbol: String, data: Vec<MarketHour>, dst: bool) -> (res: Self)
        ensures
            res.spec_retry_after() == 0,
            res.spec_symbol() == symbol@,
            res.spec_data() == data@,
            res.spec_session_hours() == spec_default_session_hours(dst),
    {
        let session_hours = Self::default_session_hours(dst);
        MarketHours { symbol, data, retry_after: 0, session_hours }
    }

    /// The trading hours of `market` for `symbol`.
    pub fn for_market(market: &Market, symbol: &str, dst: bool) -> (res: Self)
        ensures
            res.spec_retry_after() == 0,
            res.spec_symbol() == symbol@,
            res.spec_data() == spec_market_data(*market),
            res.spec_session_hours() == spec_default_session_hours(dst),
    {
        let mut data: Vec<MarketHour> = Vec::new();
        match market {
            Market::Forex => {
                data.push(MarketHour { day: 1, from: 0, to: 23 });
                data.push(MarketHour { day: 2, from: 0, to: 23 });
                data.push(MarketHour { day: 3, from: 0, to: 23 });
                data.push(MarketHour { day: 4, from: 0, to: 23 });
                data.push(MarketHour { day: 5, from: 0, to: 22 });
                data.push(MarketHour { day: 7, from: 22, to: 23 });
            },
            _ => {
                data.push(MarketHour { day: 1, from: 9, to: 17 });
                data.push(MarketHour { day: 2, from: 9, to: 17 });
                data.push(MarketHour { day: 3, from: 9, to: 17 });
                data.push(MarketHour { day: 4, from: 9, to: 17 });
                data.push(MarketHour { day: 5, from: 9, to: 17 });
            },
        }
        assert(data@ =~= spec_market_data(*market));
        Self::new(symbol.to_owned(), data, dst)
    }

    /// The symbol the hours belong to.
    pub fn symbol(&self) -> (res: String)
        ensures
            res@ == self.spec_symbol(),
    {
        self.symbol.clone()
    }

    /// The trading hours.
    pub fn data(&self) -> (res: &Vec<MarketHour>)
        ensures
            res@ == self.spec_data(),
    {
        &self.data
    }

    /// The hours of the New York, London, Tokyo and Sydney sessions.
    fn default_session_hours(dst: bool) -> (res: Vec<MarketSessionHours>)
        ensures
            res@ == spec_default_session_hours(dst),
    {
        let dst_adjustment: u32 = if dst { 1 } else { 0 };
        let mut hours: Vec<MarketSessionHours> = Vec::new();
        hours.push(MarketSessionHours { session: MarketSessions::NewYork, from: 14 + dst_adjustment, to: 23 + dst_adjustment });
        hours.push(MarketSessionHours { session: MarketSessions::London, from: 9 + dst_adjustment, to: 18 + dst_adjustment });
        hours.push(MarketSessionHours { session: MarketSessions::Tokyo, from: 1, to: 10 });
        hours.push(MarketSessionHours { session: MarketSessions::Sydney, from: 21, to: 5 });
        assert(hours@ =~= spec_default_session_hours(dst));
        hours
    }

    /// When to try a closed market again, seen on `week_day` (Monday is 1): on Sunday of
    /// this week, at the opening hour of the last trading day listed, five minutes past,
    /// `retry_secs + jitter_secs` seconds in. `None` when no trading day is listed (the
    /// caller then waits a minute).
    pub fn wait_until(&self, week_day: u32, retry_secs: u64, jitter_secs: u64) -> (res: Option<
        Reopening,
    >)
        requires
            1 <= week_day <= 7,
            retry_secs + jitter_secs < 60,
            self.spec_data().len() > 0 ==> self.spec_data().last().from < 24,
        ensures
            self.spec_data().len() == 0 <==> res is None,
            res matches Some(r) ==> r == (Reopening {
                days_ahead: (7 - week_day) as i64,
                hour: self.spec_data().last().from,
                minute: 5,
                second: (retry_secs + jitter_secs) as u32,
            }),
    {
        let len = self.data.len();
        if len == 0 {
            return None;
        }
        let sunday = self.data[len - 1];
        let secs = retry_secs + jitter_secs;
        Some(Reopening {
            days_ahead: 7 - week_day as i64,
            hour: sunday.from,
            minute: 5,
            second: secs as u32,
        })
    }

    /// Whether the market trades at the local time `now`.
    pub fn is_trading_time(&self, now: &LocalTime) -> (res: bool)
        ensures
            res == spec_open_at(self.spec_data(), now.week_day, now.hour),
    {
        let week_day = now.week_day;
        let current_hours = now.hour;
        let mut i: usize = 0;
        assert(self.data@.skip(0) =~= self.data@);
        while i < self.data.len()
            invariant
                i <= self.data.len(),
                week_day == now.week_day,
                current_hours == now.hour,
                spec_open_at(self.data@, week_day, current_hours) == spec_open_at(
                    self.data@.skip(i as int),
                    week_day,
                    current_hours,
                ),
            decreases self.data.len() - i,
        {
            let key = self.data[i];
            assert(self.data@.skip(i as int)[0] == key);
            assert(self.data@.skip(i as int).drop_first() =~= self.data@.skip(i + 1));
            if key.day == week_day && week_day != 6 {
                assert(spec_open_at(self.data@.skip(i as int), week_day, current_hours) == (current_hours
                    >= key.from && current_hours < key.to));
                return current_hours >= key.from && current_hours < key.to;
            }
            i = i + 1;
        }
        false
    }

    /// Whether the week is closing at the local time `now`: only on Friday.
    pub fn is_week_close(&self, now: &LocalTime) -> (res: bool)
        ensures
            res == spec_week_close_at(self.spec_data(), now.week_day, now.hour),
    {
        let week_day = now.week_day;
        let current_hours = now.hour;
        let mut i: usize = 0;
        assert(self.data@.skip(0) =~= self.data@);
        while i < self.data.len()
            invariant
                i <= self.data.len(),
                week_day == now.week_day,
                current_hours == now.hour,
                spec_week_close_at(self.data@, week_day, current_hours) == spec_week_close_at(
                    self.data@.skip(i as int),
                    week_day,
                    current_hours,
                ),
            decreases self.data.len() - i,
        {
            let key = self.data[i];
            assert(self.data@.skip(i as int)[0] == key);
            assert(self.data@.skip(i as int).drop_first() =~= self.data@.skip(i + 1));
            if key.day == week_day && week_day == 5 {
                assert(spec_week_close_at(self.data@.skip(i as int), week_day, current_hours) == (
                current_hours >= key.from && current_hours < key.to));
                return current_hours >= key.from && current_hours < key.to;
            }
            i = i + 1;
        }
        false
    }

    /// The first session open at the local time `date`, if any.
    pub fn current_session(&self, date: &LocalTime) -> (res: Option<MarketSessions>)
        ensures
            res == spec_session_at(self.spec_session_hours(), date.hour),
    {
        let current_hour = date.hour;
        let mut i: usize = 0;
        assert(self.session_hours@.skip(0) =~= self.session_hours@);
        while i < self.session_hours.len()
            invariant
                i <= self.session_hours.len(),
                current_hour == date.hour,
                spec_session_at(self.session_hours@, current_hour) == spec_session_at(
                    self.session_hours@.skip(i as int),
                    current_hour,
                ),
            decreases self.session_hours.len() - i,
        {
            let session_hour = self.session_hours[i];
            assert(self.session_hours@.skip(i as int)[0] == session_hour);
            assert(self.session_hours@.skip(i as int).drop_first() =~= self.session_hours@.skip(i + 1));
            if (session_hour.from < session_hour.to && current_hour >= session_hour.from && current_hour
                < session_hour.to) || (session_hour.from > session_hour.to && (current_hour
                >= session_hour.from || current_hour < session_hour.to)) {
                assert(spec_session_at(self.session_hours@.skip(i as int), current_hour) == Some(
                    session_hour.session,
                ));
                return Some(session_hour.session);
            }
            i = i + 1;
        }
        None
    }
}

/// No market trades on Saturday.
pub proof fn lemma_closed_on_saturday(data: Seq<MarketHour>, hour: u32)
    ensures
        !spec_open_at(data, 6, hour),
    decreases data.len(),
{
    if data.len() > 0 {
        lemma_closed_on_saturday(data.drop_first(), hour);
    }
}

/// The week only closes on Friday.
pub proof fn lemma_week_closes_on_friday(data: Seq<MarketHour>, week_day: u32, hour: u32)
    requires
        spec_week_close_at(data, week_day, hour),
    ensures
        week_day == 5,
    decreases data.len(),
{
    if data.len() > 0 && !(data[0].day == week_day && week_day == 5) {
        lemma_week_closes_on_friday(data.drop_first(), week_day, hour);
    }
}

/// A session found for an hour holds that hour.
pub proof fn lemma_session_holds_hour(sessions: Seq<MarketSessionHours>, hour: u32)
    ensures
        spec_session_at(sessions, hour) matches Some(s) ==> exists|i: int|
            0 <= i < sessions.len() && sessions[i].session == s && spec_in_session(
                #[trigger] sessions[i],
                hour,
            ),
        spec_session_at(sessions, hour) is None ==> forall|i: int|
            0 <= i < sessions.len() ==> !spec_in_session(#[trigger] sessions[i], hour),
    decreases sessions.len(),
{
    if sessions.len() > 0 {
        lemma_session_holds_hour(sessions.drop_first(), hour);
        if !spec_in_session(sessions[0], hour) {
            if let Some(s) = spec_session_at(sessions, hour) {
                let i = choose|i: int|
                    0 <= i < sessions.drop_first().len() && sessions.drop_first()[i].session == s
                        && spec_in_session(#[trigger] sessions.drop_first()[i], hour);
                assert(sessions[i + 1] == sessions.drop_first()[i]);
            } else {
                assert forall|i: int| 0 <= i < sessions.len() implies !spec_in_session(
                    #[trigger] sessions[i],
                    hour,
                ) by {
                    if i > 0 {
                        assert(sessions[i] == sessions.drop_first()[i - 1]);
                    }
                }
            }
        }
    }
}

/// Forex trades from Monday to Thursday at every hour before 23:00, on Friday before
/// 22:00 and on Sunday from 22:00 to 23:00, and at no other time; the week closes on
/// Friday before 22:00. Other markets trade from Monday to Friday, from 9:00 to 17:00.
pub proof fn lemma_market_trading_hours(market: Market, week_day: u32, hour: u32)
    ensures
        market is Forex ==> (spec_open_at(spec_market_data(market), week_day, hour) <==> (
            (1 <= week_day <= 4 && hour < 23) || (week_day == 5 && hour < 22) || (week_day == 7
                && hour == 22))),
        market is Forex ==> (spec_week_close_at(spec_market_data(market), week_day, hour) <==> (
            week_day == 5 && hour < 22)),
        !(market is Forex) ==> (spec_open_at(spec_market_data(market), week_day, hour) <==> (1
            <= week_day <= 5 && 9 <= hour < 17)),
        !(market is Forex) ==> (spec_week_close_at(spec_market_data(market), week_day, hour) <==> (
            week_day == 5 && 9 <= hour < 17)),
{
    reveal_with_fuel(spec_open_at, 7);
    reveal_with_fuel(spec_week_close_at, 7);
    let d = spec_market_data(market);
    if market is Forex {
        assert(d.drop_first() =~= d.subrange(1, 6));
        assert(d.drop_first().drop_first() =~= d.subrange(2, 6));
        assert(d.drop_first().drop_first().drop_first() =~= d.subrange(3, 6));
        assert(d.drop_first().drop_first().drop_first().drop_first() =~= d.subrange(4, 6));
        assert(d.drop_first().drop_first().drop_first().drop_first().drop_first() =~= d.subrange(5, 6));
        assert(d.subrange(5, 6).drop_first() =~= Seq::<MarketHour>::empty());
    } else {
        assert(d.drop_first() =~= d.subrange(1, 5));
        assert(d.drop_first().drop_first() =~= d.subrange(2, 5));
        assert(d.drop_first().drop_first().drop_first() =~= d.subrange(3, 5));
        assert(d.drop_first().drop_first().drop_first().drop_first() =~= d.subrange(4, 5));
        assert(d.subrange(4, 5).drop_first() =~= Seq::<MarketHour>::empty());
    }
}

/// The session open at a local hour, with `d` the daylight saving shift (1 or 0): New York
/// from 14+d to 23+d, else London from 9+d to 18+d, else Tokyo from 1 to 10, else Sydney
/// from 21 to 5 over midnight; none from 18+d to 21 when no other holds.
pub proof fn lemma_session_by_hour(dst: bool, hour: u32)
    ensures
        ({
            let d: u32 = if dst { 1 } else { 0 };
            spec_session_at(spec_default_session_hours(dst), hour) == if 14 + d <= hour && hour
                < 23 + d {
                Some(MarketSessions::NewYork)
            } else if 9 + d <= hour && hour < 18 + d {
                Some(MarketSessions::London)
            } else if 1 <= hour && hour < 10 {
                Some(MarketSessions::Tokyo)
            } else if hour >= 21 || hour < 5 {
                Some(MarketSessions::Sydney)
            } else {
                None
            }
        }),
{
    reveal_with_fuel(spec_session_at, 5);
    let s = spec_default_session_hours(dst);
    assert(s.drop_first() =~= s.subrange(1, 4));
    assert(s.drop_first().drop_first() =~= s.subrange(2, 4));
    assert(s.drop_first().drop_first().drop_first() =~= s.subrange(3, 4));
    assert(s.subrange(3, 4).drop_first() =~= Seq::<MarketSessionHours>::empty());
}

} // verus!
