//! Wall-clock timestamps as plain calendar fields.
//!
//! A [`Timestamp`] holds the six fields that a rendered log line shows. The
//! only thing the outside world is asked for is the current local time, read
//! through one trusted call into `chrono`.

use vstd::prelude::*;

verus! {

/// A local calendar time, down to whole seconds.
#[derive(Clone, Copy, Debug, PartialEq, Eq, Structural)]
pub struct Timestamp {
    pub year: u32,
    pub month: u32,
    pub day: u32,
    pub hour: u32,
    pub minute: u32,
    pub second: u32,
}

impl Timestamp {
    /// Every field is in the range that a `YYYY-MM-DD HH:MM:SS` rendering
    /// can show.
    pub open spec fn wf(self) -> bool {
        &&& self.year <= 9999
        &&& 1 <= self.month <= 12
        &&& 1 <= self.day <= 31
        &&& self.hour <= 23
        &&& self.minute <= 59
        &&& self.second <= 59
    }

    /// Builds a well-formed timestamp from raw calendar fields. Years before
    /// 0 or after 9999 cannot be shown with four digits and are clamped to
    /// the nearest representable year.
    pub fn from_parts(year: i32, month: u32, day: u32, hour: u32, minute: u32, second: u32) -> (t:
        Timestamp)
        requires
            1 <= month <= 12,
            1 <= day <= 31,
            hour <= 23,
            minute <= 59,
            second <= 59,
        ensures
            t.wf(),
            0 <= year <= 9999 ==> t.year == year,
            year < 0 ==> t.year == 0,
            year > 9999 ==> t.year == 9999,
            t.month == month,
            t.day == day,
            t.hour == hour,
            t.minute == minute,
            t.second == second,
    {
        let clamped_year: u32 = if year < 0 {
            0
        } else if year > 9999 {
            9999
        } else {
            year as u32
        };
        Timestamp { year: clamped_year, month, day, hour, minute, second }
    }
}

/// Relies on `chrono::Local::now` and on chrono's `Datelike` / `Timelike`
/// accessors `year`, `month`, `day`, `hour`, `minute` and `second` for the
/// current local time. Their documentation promises: month in 1..=12, day in
/// 1..=31, hour in 0..=23, minute and second in 0..=59 (a leap second is
/// carried in the nanosecond field, never in `second`). The year is
/// unconstrained.
#[verifier::external_body]
fn now_parts() -> (r: (i32, u32, u32, u32, u32, u32))
    ensures
        1 <= r.1 <= 12,
        1 <= r.2 <= 31,
        r.3 <= 23,
        r.4 <= 59,
        r.5 <= 59,
{
    let now = chrono::Local::now();
    (
        chrono::Datelike::year(&now),
        chrono::Datelike::month(&now),
        chrono::Datelike::day(&now),
        chrono::Timelike::hour(&now),
        chrono::Timelike::minute(&now),
        chrono::Timelike::second(&now),
    )
}

/// The current local time as a well-formed timestamp.
pub fn now_local() -> (t: Timestamp)
    ensures
        t.wf(),
{
    let (year, month, day, hour, minute, second) = now_parts();
    Timestamp::from_parts(year, month, day, hour, minute, second)
}

} // verus!
