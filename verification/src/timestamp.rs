//! Calendar timestamps, modelled as their six civil fields plus the
//! seconds-since-epoch value the timestamp backend assigns them.

use chrono::TimeZone;
use vstd::prelude::*;

verus! {

/// Leap year in the proleptic Gregorian calendar.
pub open spec fn is_leap_year(y: int) -> bool {
    (y % 4 == 0 && y % 100 != 0) || y % 400 == 0
}

/// Days in a month of the proleptic Gregorian calendar.
pub open spec fn days_in_month(y: int, m: int) -> int {
    if m == 2 {
        if is_leap_year(y) {
            29
        } else {
            28
        }
    } else if m == 4 || m == 6 || m == 9 || m == 11 {
        30
    } else {
        31
    }
}

/// Calendar datetimes the timestamp backend can represent: a valid
/// proleptic-Gregorian date whose year lies in the backend's range,
/// with an ordinary time of day.
pub open spec fn valid_civil(
    year: int,
    month: int,
    day: int,
    hour: int,
    minute: int,
    second: int,
) -> bool {
    &&& -262143 <= year <= 262142
    &&& 1 <= month <= 12
    &&& 1 <= day <= days_in_month(year, month)
    &&& 0 <= hour < 24
    &&& 0 <= minute < 60
    &&& 0 <= second < 60
}

/// Seconds since the Unix epoch of a civil datetime read as UTC.
pub uninterp spec fn epoch_seconds_of(
    year: int,
    month: int,
    day: int,
    hour: int,
    minute: int,
    second: int,
) -> int;

/// Relies on chrono's `TimeZone::with_ymd_and_hms` on `Utc` and on
/// `DateTime::timestamp`: construction succeeds exactly on valid
/// proleptic-Gregorian datetimes within `NaiveDate`'s year range (`Utc`
/// maps local datetimes one-to-one, so `single` is `Some` exactly then),
/// and the timestamp is a function of the six fields alone, bounded
/// because the year is.
#[verifier::external_body]
fn civil_to_epoch(year: i32, month: u32, day: u32, hour: u32, minute: u32, second: u32) -> (r:
    Option<i64>)
    ensures
        r is Some <==> valid_civil(
            year as int,
            month as int,
            day as int,
            hour as int,
            minute as int,
            second as int,
        ),
        r matches Some(e) ==> e == epoch_seconds_of(
            year as int,
            month as int,
            day as int,
            hour as int,
            minute as int,
            second as int,
        ) && -10000000000000 < e < 10000000000000,
{
    chrono::Utc.with_ymd_and_hms(year, month, day, hour, minute, second).single().map(
        |dt| dt.timestamp(),
    )
}

/// An absolute timestamp: the civil fields of a valid calendar datetime,
/// together with its seconds since the Unix epoch.
#[derive(Debug, Clone, Copy, PartialEq, Eq, Structural)]
pub struct Timestamp {
    pub year: i32,
    pub month: u32,
    pub day: u32,
    pub hour: u32,
    pub minute: u32,
    pub second: u32,
    pub epoch: i64,
}

impl Timestamp {
    /// The fields form a valid datetime and the epoch value belongs to them.
    pub open spec fn wf(self) -> bool {
        &&& valid_civil(
            self.year as int,
            self.month as int,
            self.day as int,
            self.hour as int,
            self.minute as int,
            self.second as int,
        )
        &&& self.epoch == epoch_seconds_of(
            self.year as int,
            self.month as int,
            self.day as int,
            self.hour as int,
            self.minute as int,
            self.second as int,
        )
        &&& -10000000000000 < self.epoch < 10000000000000
    }

    /// Builds a timestamp from civil fields; `None` exactly on invalid ones.
    pub fn new(year: i32, month: u32, day: u32, hour: u32, minute: u32, second: u32) -> (r: Option<
        Timestamp,
    >)
        ensures
            r is Some <==> valid_civil(
                year as int,
                month as int,
                day as int,
                hour as int,
                minute as int,
                second as int,
            ),
            r matches Some(t) ==> t.wf() && t.year == year && t.month == month && t.day == day
                && t.hour == hour && t.minute == minute && t.second == second,
    {
        match civil_to_epoch(year, month, day, hour, minute, second) {
            Some(epoch) => Some(Timestamp { year, month, day, hour, minute, second, epoch }),
            None => None,
        }
    }

    /// The year field.
    pub fn year(&self) -> (r: i32)
        ensures
            r == self.year,
    {
        self.year
    }

    /// The month field, 1 to 12.
    pub fn month(&self) -> (r: u32)
        ensures
            r == self.month,
    {
        self.month
    }

    /// The day-of-month field.
    pub fn day(&self) -> (r: u32)
        ensures
            r == self.day,
    {
        self.day
    }

    /// The hour field.
    pub fn hour(&self) -> (r: u32)
        ensures
            r == self.hour,
    {
        self.hour
    }

    /// The minute field.
    pub fn minute(&self) -> (r: u32)
        ensures
            r == self.minute,
    {
        self.minute
    }

    /// The second field.
    pub fn second(&self) -> (r: u32)
        ensures
            r == self.second,
    {
        self.second
    }

    /// Seconds since the Unix epoch.
    pub fn epoch_seconds(&self) -> (r: i64)
        ensures
            r == self.epoch,
    {
        self.epoch
    }
}

/// The elapsed whole seconds from `start_epoch` to `now`: present exactly
/// when the start does not lie in the future and the difference is
/// representable.
pub open spec fn spec_elapsed(start_epoch: i64, now: i64) -> Option<u64> {
    if start_epoch <= now && now - start_epoch <= i64::MAX {
        Some((now - start_epoch) as u64)
    } else {
        None
    }
}

/// Computes the elapsed seconds from `start_epoch` to `now`.
pub fn elapsed_since(start_epoch: i64, now: i64) -> (r: Option<u64>)
    ensures
        r == spec_elapsed(start_epoch, now),
{
    match now.checked_sub(start_epoch) {
        Some(d) => {
            if d >= 0 {
                Some(d as u64)
            } else {
                None
            }
        },
        None => None,
    }
}

} // verus!
