use vstd::prelude::*;

verus! {

/// A local wall-clock reading: day of the week (Monday is 1, Sunday 7), hour, minute and
/// second of the local time, and whether daylight saving time is in effect.
#[derive(Debug, Clone, Copy, PartialEq, Eq, Structural)]
pub struct LocalTime {
    pub week_day: u32,
    pub hour: u32,
    pub minute: u32,
    pub second: u32,
    pub dst: bool,
}

impl LocalTime {
    /// Whether every field lies in its range.
    pub open spec fn wf(self) -> bool {
        &&& 1 <= self.week_day <= 7
        &&& self.hour < 24
        &&& self.minute < 60
        &&& self.second < 60
    }
}

/// The day of the week of `date`, from Monday (1) to Sunday (7).
pub fn get_week_day(date: LocalTime) -> (res: u32)
    ensures
        res == date.week_day,
{
    date.week_day
}

} // verus!
