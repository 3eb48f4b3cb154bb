//! Timestamps of history events, read from the local clock.

use chrono::{Datelike, Timelike};
use vstd::prelude::*;

verus! {

/// A point in time: seconds and nanoseconds since the Unix epoch, as a
/// ProtoBuf `Timestamp` holds it.
#[derive(Clone, Copy, Debug, PartialEq, Eq, Default, Structural)]
pub struct Timestamp {
    /// Whole seconds since the Unix epoch.
    pub seconds: i64,
    /// Nanoseconds within the second.
    pub nanos: i32,
}

#[verifier::external_type_specification]
#[verifier::external_body]
pub struct ExTimestampError(prost_types::TimestampError);

/// Whether `year` is a leap year of the proleptic Gregorian calendar.
pub open spec fn is_leap_year(year: int) -> bool {
    year % 4 == 0 && (year % 100 != 0 || year % 400 == 0)
}

/// Number of days in `month` (1 to 12) of `year`.
pub open spec fn days_in_month(year: int, month: int) -> int {
    if month == 2 {
        if is_leap_year(year) { 29 } else { 28 }
    } else if month == 4 || month == 6 || month == 9 || month == 11 {
        30
    } else {
        31
    }
}

/// Lexicographic `<=` on sequences of the same length.
pub open spec fn lex_le(a: Seq<int>, b: Seq<int>) -> bool
    decreases a.len(),
{
    if a.len() == 0 || b.len() == 0 {
        true
    } else if a[0] < b[0] {
        true
    } else if a[0] > b[0] {
        false
    } else {
        lex_le(a.drop_first(), b.drop_first())
    }
}

/// Whether `prost_types::Timestamp::date_time` accepts the given UTC date and
/// time: a calendar date with hour, minute and second in range, between the
/// least and the greatest representable timestamps.
pub open spec fn date_time_valid(year: i64, month: u8, day: u8, hour: u8, minute: u8, second: u8) -> bool {
    let t = seq![year as int, month as int, day as int, hour as int, minute as int, second as int, 0];
    &&& lex_le(seq![-292_277_022_657, 1, 27, 8, 29, 52, 0], t)
    &&& lex_le(t, seq![292_277_026_596, 12, 4, 15, 30, 7, 999_999_999])
    &&& 1 <= month <= 12
    &&& 1 <= day <= days_in_month(year as int, month as int)
    &&& hour < 24
    &&& minute < 60
    &&& second < 60
}

/// Days from 1970-01-01 to the given date of the proleptic Gregorian
/// calendar (negative before it).
pub open spec fn days_from_civil(year: int, month: int, day: int) -> int {
    let y = if month <= 2 { year - 1 } else { year };
    let era = y / 400;
    let year_of_era = y - era * 400;
    let shifted_month = if month > 2 { month - 3 } else { month + 9 };
    let day_of_year = (153 * shifted_month + 2) / 5 + day - 1;
    let day_of_era = year_of_era * 365 + year_of_era / 4 - year_of_era / 100 + day_of_year;
    era * 146097 + day_of_era - 719468
}

/// Seconds since the Unix epoch of a UTC date and time.
pub open spec fn utc_date_time_seconds(
    year: i64,
    month: u8,
    day: u8,
    hour: u8,
    minute: u8,
    second: u8,
) -> int {
    days_from_civil(year as int, month as int, day as int) * 86400 + hour * 3600 + minute * 60
        + second
}

/// Calendar fields of a date and time, as the local clock shows them.
#[derive(Clone, Copy, Debug, PartialEq, Eq)]
pub struct LocalDateTime {
    /// The year of the proleptic Gregorian calendar (0 is 1 BCE).
    pub year: i64,
    /// The month, 1 to 12.
    pub month: u8,
    /// The day of the month, from 1.
    pub day: u8,
    /// The hour, 0 to 23.
    pub hour: u8,
    /// The minute, 0 to 59.
    pub minute: u8,
    /// The second, 0 to 59.
    pub second: u8,
}

/// Reads the local clock through `chrono::offset::Local::now` and returns
/// its calendar fields. `chrono` keeps dates between the years -262143 and
/// 262142 (a local date may lie one day beyond either end once the offset
/// is applied) and always yields a valid calendar date with hour, minute
/// and second in range (a leap second shows in the nanoseconds, not here).
#[verifier::external_body]
fn local_now() -> (r: LocalDateTime)
    ensures
        -262_144 <= r.year <= 262_143,
        1 <= r.month <= 12,
        1 <= r.day <= days_in_month(r.year as int, r.month as int),
        r.hour < 24,
        r.minute < 60,
        r.second < 60,
{
    let now = chrono::offset::Local::now();
    LocalDateTime {
        year: now.year() as i64,
        month: now.month() as u8,
        day: now.day() as u8,
        hour: now.hour() as u8,
        minute: now.minute() as u8,
        second: now.second() as u8,
    }
}

/// `prost_types::Timestamp::date_time`: the timestamp of a UTC date and
/// time, which it refuses exactly when the fields are out of range. The
/// result counts the seconds since the Unix epoch and has no nanoseconds.
#[verifier::external_body]
fn timestamp_date_time(
    year: i64,
    month: u8,
    day: u8,
    hour: u8,
    minute: u8,
    second: u8,
) -> (r: Result<Timestamp, prost_types::TimestampError>)
    ensures
        r is Ok <==> date_time_valid(year, month, day, hour, minute, second),
        r matches Ok(t) ==> t.seconds == utc_date_time_seconds(
            year,
            month,
            day,
            hour,
            minute,
            second,
        ) && t.nanos == 0,
{
    match prost_types::Timestamp::date_time(year, month, day, hour, minute, second) {
        Ok(t) => Ok(Timestamp { seconds: t.seconds, nanos: t.nanos }),
        Err(e) => Err(e),
    }
}

/// The timestamp of calendar fields read as a UTC date and time: `None`
/// when they are out of the range a timestamp holds, else the seconds since
/// the Unix epoch with no nanoseconds.
pub fn timestamp_from_local(t: &LocalDateTime) -> (r: Option<Timestamp>)
    ensures
        r is Some <==> date_time_valid(t.year, t.month, t.day, t.hour, t.minute, t.second),
        r matches Some(ts) ==> ts.nanos == 0 && ts.seconds == utc_date_time_seconds(
            t.year,
            t.month,
            t.day,
            t.hour,
            t.minute,
            t.second,
        ),
{
    match timestamp_date_time(t.year, t.month, t.day, t.hour, t.minute, t.second) {
        Ok(ts) => Some(ts),
        Err(_) => None,
    }
}

/// The current local date and time, read as if it were UTC, as a timestamp
/// with whole seconds (see [`timestamp_from_local`]).
pub fn now() -> (r: Timestamp)
    ensures
        r.nanos == 0,
        exists|year: i64, month: u8, day: u8, hour: u8, minute: u8, second: u8|
            date_time_valid(year, month, day, hour, minute, second) && r.seconds
                == #[trigger] utc_date_time_seconds(year, month, day, hour, minute, second),
{
    let t = local_now();
    match timestamp_from_local(&t) {
        Some(ts) => ts,
        None => {
            assert(false);
            Timestamp { seconds: 0, nanos: 0 }
        },
    }
}

} // verus!
