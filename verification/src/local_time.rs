//! Calendar and clock strings for an instant, as a wall clock shifted by a
//! UTC offset would show them.

use chrono::{TimeZone, Timelike, Utc};
use vstd::prelude::*;
use crate::error::WeatherError;

verus! {

/// The pattern of the date, such as `Jan  5 2024`: abbreviated month, day of
/// the month padded with a space, full year.
pub const DATE_PATTERN: &'static str = "%b %e %Y";

/// The pattern of the time on a 12-hour clock, such as `08:15:30 pm`.
pub const TIME_PATTERN: &'static str = "%I:%M:%S %P";

/// The pattern of the full weekday name, such as `Friday`.
pub const WEEKDAY_PATTERN: &'static str = "%A";

/// The first second of the year 1, in seconds since the UNIX epoch.
pub const FIRST_COMMON_SECOND: i64 = -62_135_596_800;

/// The last second of the year 9999, in seconds since the UNIX epoch.
pub const LAST_COMMON_SECOND: i64 = 253_402_300_799;

/// Whether the instant `secs` lies in the years 1 to 9999.
pub open spec fn in_common_years(secs: int) -> bool {
    FIRST_COMMON_SECOND <= secs <= LAST_COMMON_SECOND
}

/// Whether chrono's calendar reaches the instant `secs` seconds after the
/// UNIX epoch: whether `Utc.timestamp_opt(secs, 0)` yields a date and time.
pub uninterp spec fn utc_representable(secs: int) -> bool;

/// The text that chrono's `format` gives for the UTC date and time `secs`
/// seconds after the UNIX epoch under the strftime pattern `pattern`.
pub uninterp spec fn utc_formatted(secs: int, pattern: Seq<char>) -> Seq<char>;

/// The hour of the day, 0 to 23, at `secs` seconds after the UNIX epoch in UTC.
/// Days have 86400 seconds: leap seconds are not counted.
pub open spec fn hour_of_day(secs: int) -> int {
    (secs % 86400) / 3600
}

/// Whether `pattern` is one of the three patterns a breakdown is made with.
pub open spec fn is_breakdown_pattern(pattern: Seq<char>) -> bool {
    pattern == DATE_PATTERN@ || pattern == TIME_PATTERN@ || pattern == WEEKDAY_PATTERN@
}

/// Whether the local instant `secs` can be broken down: it fits the machine's
/// 64-bit seconds and chrono's calendar reaches it.
pub open spec fn instant_in_range(secs: int) -> bool {
    i64::MIN <= secs <= i64::MAX && utc_representable(secs)
}

/// Calls `chrono::Utc.timestamp_opt(secs, 0)`, takes its single result and
/// asks `Timelike::hour` of it. `timestamp_opt` yields no date and time
/// exactly for instants outside chrono's calendar, which holds every date
/// from the year -262143 to the year 262142, and so the years 1 to 9999. For
/// an instant within it splits `secs` by Euclidean division into days and
/// seconds of the day, and the hour is that number of seconds divided by
/// 3600.
#[verifier::external_body]
fn utc_hour(secs: i64) -> (r: Option<u32>)
    ensures
        r is Some <==> utc_representable(secs as int),
        in_common_years(secs as int) ==> r is Some,
        r is Some ==> r->0 == hour_of_day(secs as int),
{
    Utc.timestamp_opt(secs, 0).single().map(|instant| instant.hour())
}

/// Calls `chrono::Utc.timestamp_opt(secs, 0)`, takes its single result and
/// renders it with `DateTime::format(pattern)`. The text is a function of the
/// instant and the pattern alone: chrono formats UTC in its built-in English.
/// Rendering fails on a malformed pattern, so only the three patterns of this
/// module are admitted.
#[verifier::external_body]
fn utc_format(secs: i64, pattern: &str) -> (r: Option<String>)
    requires
        is_breakdown_pattern(pattern@),
    ensures
        r is Some <==> utc_representable(secs as int),
        r is Some ==> r->0@ == utc_formatted(secs as int, pattern@),
{
    Utc.timestamp_opt(secs, 0).single().map(|instant| instant.format(pattern).to_string())
}

/// What a wall clock and calendar show at one instant.
#[derive(Debug)]
pub struct LocalBreakdown {
    /// The calendar date, in `DATE_PATTERN`.
    pub date: String,
    /// The time of day on a 12-hour clock, in `TIME_PATTERN`.
    pub time: String,
    /// The full name of the weekday.
    pub day_of_week: String,
    /// The hour of the day, 0 to 23.
    pub hour: u32,
}

/// The mathematical content of a `LocalBreakdown`.
pub struct LocalBreakdownView {
    pub date: Seq<char>,
    pub time: Seq<char>,
    pub day_of_week: Seq<char>,
    pub hour: int,
}

impl View for LocalBreakdown {
    type V = LocalBreakdownView;

    open spec fn view(&self) -> LocalBreakdownView {
        LocalBreakdownView {
            date: self.date@,
            time: self.time@,
            day_of_week: self.day_of_week@,
            hour: self.hour as int,
        }
    }
}

/// The breakdown of the instant `secs` seconds after the UNIX epoch, read as
/// UTC.
pub open spec fn breakdown_at(secs: int) -> LocalBreakdownView {
    LocalBreakdownView {
        date: utc_formatted(secs, DATE_PATTERN@),
        time: utc_formatted(secs, TIME_PATTERN@),
        day_of_week: utc_formatted(secs, WEEKDAY_PATTERN@),
        hour: hour_of_day(secs),
    }
}

/// Breaks the local instant `epoch_seconds + offset_seconds` down into date,
/// time, weekday and hour: the sum is read as a UTC instant of the Gregorian
/// calendar. Fails with `Data` exactly when the sum leaves the range of
/// 64-bit seconds or of chrono's calendar; it never does for an instant of
/// the years 1 to 9999.
pub fn local_breakdown(epoch_seconds: i64, offset_seconds: i64) -> (r: Result<
    LocalBreakdown,
    WeatherError,
>)
    ensures
        r is Ok <==> instant_in_range(epoch_seconds + offset_seconds),
        in_common_years(epoch_seconds + offset_seconds) ==> r is Ok,
        r is Ok ==> r->Ok_0@ == breakdown_at(epoch_seconds + offset_seconds),
        r is Err ==> r->Err_0 == WeatherError::Data,
{
    let secs = match epoch_seconds.checked_add(offset_seconds) {
        Some(secs) => secs,
        None => {
            return Err(WeatherError::Data);
        },
    };
    let hour = match utc_hour(secs) {
        Some(hour) => hour,
        None => {
            return Err(WeatherError::Data);
        },
    };
    let date = match utc_format(secs, DATE_PATTERN) {
        Some(date) => date,
        None => {
            return Err(WeatherError::Data);
        },
    };
    let time = match utc_format(secs, TIME_PATTERN) {
        Some(time) => time,
        None => {
            return Err(WeatherError::Data);
        },
    };
    let day_of_week = match utc_format(secs, WEEKDAY_PATTERN) {
        Some(day_of_week) => day_of_week,
        None => {
            return Err(WeatherError::Data);
        },
    };
    Ok(LocalBreakdown { date, time, day_of_week, hour })
}

/// The hour of a breakdown is an hour of the day, and shifting an instant by
/// whole days leaves it unchanged.
pub proof fn lemma_hour_of_day_range(secs: int, days: int)
    ensures
        0 <= hour_of_day(secs) < 24,
        hour_of_day(secs + days * 86400) == hour_of_day(secs),
{
}

/// A breakdown is a function of the local instant alone: two pairs of epoch
/// seconds and offset with the same sum have the same date, time, weekday and
/// hour, and one is in range exactly when the other is.
pub proof fn lemma_breakdown_depends_on_sum(epoch_a: int, offset_a: int, epoch_b: int, offset_b: int)
    requires
        epoch_a + offset_a == epoch_b + offset_b,
    ensures
        instant_in_range(epoch_a + offset_a) == instant_in_range(epoch_b + offset_b),
        breakdown_at(epoch_a + offset_a) == breakdown_at(epoch_b + offset_b),
{
}

} // verus!
