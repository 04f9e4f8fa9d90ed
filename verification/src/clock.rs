use vstd::prelude::*;
use chrono::Datelike;

verus! {

// Calendar and timestamp computations are chrono's. Each function here makes
// one chrono call; the library's own logic works on the plain values they give.
// Dates are day numbers as chrono's `Datelike::num_days_from_ce` counts them.

/// The first and last day numbers of chrono's calendar: `NaiveDate::MIN`
/// (-262143-01-01) and `NaiveDate::MAX` (262142-12-31).
pub open spec fn first_chrono_day() -> int {
    -95_746_129
}

pub open spec fn last_chrono_day() -> int {
    95_745_399
}

/// A day number that chrono's calendar holds.
pub open spec fn chrono_day_in_range(day: int) -> bool {
    first_chrono_day() <= day <= last_chrono_day()
}

/// The day number of the UTC day a UNIX millisecond timestamp falls on
/// (1970-01-01 is day 719163).
pub open spec fn utc_day_of_millis(ms: i64) -> int {
    ms as int / 86_400_000 + 719_163
}

/// A UNIX millisecond timestamp that `DateTime::from_timestamp_millis` takes:
/// its UTC day is in chrono's calendar.
pub open spec fn millis_in_range(ms: i64) -> bool {
    chrono_day_in_range(utc_day_of_millis(ms))
}

/// What holds of the local day of `ms` in every time zone: there is one
/// exactly when `ms` is in range (a zone's offset is under a day, so only a
/// timestamp on the calendar's first or last day may have none), and it is
/// the UTC day or a day next to it.
pub open spec fn local_day_fits(ms: i64, r: Option<i32>) -> bool {
    &&& (r is Some ==> millis_in_range(ms))
    &&& (first_chrono_day() < utc_day_of_millis(ms) < last_chrono_day() ==> r is Some)
    &&& (r matches Some(d) ==> utc_day_of_millis(ms) - 1 <= d <= utc_day_of_millis(ms) + 1)
}

/// A decimal digit.
pub open spec fn is_digit(c: char) -> bool {
    '0' <= c <= '9'
}

/// An `HH:MM` text: two digits, a colon, two digits.
pub open spec fn hour_minute_shaped(t: Seq<char>) -> bool {
    &&& t.len() == 5
    &&& is_digit(t[0]) && is_digit(t[1]) && t[2] == ':' && is_digit(t[3]) && is_digit(t[4])
}

/// The storage text of a timestamp chrono holds.
pub open spec fn is_storage_stamp(s: Seq<char>) -> bool {
    exists|ms: i64| millis_in_range(ms) && #[trigger] utc_storage_text(ms) == Some(s)
}

/// The local date text of the instant `ms`, in every time zone: for an
/// instant whose UTC day is inside chrono's calendar, the `%Y-%m-%d` text of
/// that day or a day next to it.
pub open spec fn local_day_text_fits(ms: i64, s: Seq<char>) -> bool {
    first_chrono_day() < utc_day_of_millis(ms) < last_chrono_day() ==> exists|d: i32|
        utc_day_of_millis(ms) - 1 <= d <= utc_day_of_millis(ms) + 1 && #[trigger] day_text(d)
            == Some(s)
}

/// The local date text of some instant chrono holds.
pub open spec fn is_local_day_text(s: Seq<char>) -> bool {
    exists|ms: i64| #[trigger] millis_in_range(ms) && local_day_text_fits(ms, s)
}

/// The day `days` days before `day`, when chrono's calendar holds both days.
pub open spec fn days_before(day: i32, days: i64) -> Option<i32> {
    if chrono_day_in_range(day as int) && chrono_day_in_range(day - days) {
        Some((day - days) as i32)
    } else {
        None
    }
}

/// The UNIX milliseconds of an RFC 3339 timestamp, as chrono reads it.
pub uninterp spec fn rfc3339_millis(s: Seq<char>) -> Option<i64>;

/// The UNIX milliseconds of a naive date-time in the format `fmt`, read as UTC.
pub uninterp spec fn naive_utc_millis(s: Seq<char>, fmt: Seq<char>) -> Option<i64>;

/// The storage text `%Y-%m-%d %H:%M:%S%.3f` (UTC) of a UNIX millisecond timestamp.
pub uninterp spec fn utc_storage_text(ms: i64) -> Option<Seq<char>>;

/// The day number of a `%Y-%m-%d` date.
pub uninterp spec fn ymd_day_number(s: Seq<char>) -> Option<i32>;

/// The month and day of month of a day number.
pub uninterp spec fn month_and_day(day: i32) -> Option<(u32, u32)>;

/// The `%Y-%m-%d` text of a day number.
pub uninterp spec fn day_text(day: i32) -> Option<Seq<char>>;

/// `chrono::DateTime::parse_from_rfc3339(s)` then `timestamp_millis`.
/// Claims only that the result is the named value for `s`.
#[verifier::external_body]
pub(crate) fn parse_rfc3339_millis(s: &str) -> (r: Option<i64>)
    ensures
        r == rfc3339_millis(s@),
{
    chrono::DateTime::parse_from_rfc3339(s).ok().map(|dt| dt.timestamp_millis())
}

/// `chrono::NaiveDateTime::parse_from_str(s, fmt)`, then `and_utc().timestamp_millis()`.
/// Claims only that the result is the named value for `s` and `fmt`.
#[verifier::external_body]
pub(crate) fn parse_naive_utc_millis(s: &str, fmt: &str) -> (r: Option<i64>)
    ensures
        r == naive_utc_millis(s@, fmt@),
{
    chrono::NaiveDateTime::parse_from_str(s, fmt).ok().map(|dt| dt.and_utc().timestamp_millis())
}

/// `chrono::DateTime::from_timestamp_millis(ms)` formatted as
/// `%Y-%m-%d %H:%M:%S%.3f`. Claims that the result is the named value for
/// `ms`, and that there is one exactly when chrono holds the timestamp.
#[verifier::external_body]
pub(crate) fn millis_to_storage_text(ms: i64) -> (r: Option<String>)
    ensures
        r is Some <==> millis_in_range(ms),
        r matches Some(t) ==> utc_storage_text(ms) == Some(t@),
        r is None ==> utc_storage_text(ms) is None,
{
    chrono::DateTime::from_timestamp_millis(ms).map(|dt| dt.format("%Y-%m-%d %H:%M:%S%.3f").to_string())
}

/// Whether `chrono::DateTime::from_timestamp_millis(ms)` gives a date-time.
/// Claims that it does exactly when the timestamp's UTC day is in chrono's
/// calendar.
#[verifier::external_body]
pub(crate) fn timestamp_in_range(ms: i64) -> (b: bool)
    ensures
        b == millis_in_range(ms),
{
    chrono::DateTime::from_timestamp_millis(ms).is_some()
}

/// `chrono::NaiveDate::parse_from_str(s, "%Y-%m-%d")` as a day number.
/// Claims only that the result is the named value for `s`.
#[verifier::external_body]
pub(crate) fn parse_ymd_day(s: &str) -> (r: Option<i32>)
    ensures
        r == ymd_day_number(s@),
{
    chrono::NaiveDate::parse_from_str(s, "%Y-%m-%d").ok().map(|d| d.num_days_from_ce())
}

/// `chrono::NaiveDate::from_num_days_from_ce_opt(day)`, then `month()` and `day()`.
/// Claims the named value, that there is one exactly when chrono's calendar
/// holds the day, and the ranges chrono documents for month and day.
#[verifier::external_body]
pub(crate) fn day_month_and_day(day: i32) -> (r: Option<(u32, u32)>)
    ensures
        r == month_and_day(day),
        r is Some <==> chrono_day_in_range(day as int),
        r matches Some(md) ==> 1 <= md.0 <= 12 && 1 <= md.1 <= 31,
{
    chrono::NaiveDate::from_num_days_from_ce_opt(day).map(|d| (d.month(), d.day()))
}

/// `chrono::NaiveDate::from_num_days_from_ce_opt(day)` formatted as `%Y-%m-%d`.
/// Claims that the result is the named value for `day`, and that there is
/// one exactly when chrono's calendar holds the day.
#[verifier::external_body]
pub(crate) fn day_to_text(day: i32) -> (r: Option<String>)
    ensures
        r is Some <==> chrono_day_in_range(day as int),
        r matches Some(t) ==> day_text(day) == Some(t@),
        r is None ==> day_text(day) is None,
{
    chrono::NaiveDate::from_num_days_from_ce_opt(day).map(|d| d.format("%Y-%m-%d").to_string())
}

/// `NaiveDate - TimeDelta::days(days)` without panicking: chrono's
/// `from_num_days_from_ce_opt`, `checked_sub_signed` with `TimeDelta::try_days`.
/// Claims the day `days` days earlier, exactly when chrono's calendar holds
/// both days (a `days` that fits no `TimeDelta` or no `i32` puts the earlier
/// day out of the calendar).
#[verifier::external_body]
pub(crate) fn checked_days_before(day: i32, days: i64) -> (r: Option<i32>)
    ensures
        r == days_before(day, days),
{
    chrono::NaiveDate::from_num_days_from_ce_opt(day)
        .and_then(|d| d.checked_sub_signed(chrono::TimeDelta::try_days(days)?))
        .map(|d| d.num_days_from_ce())
}

/// The local calendar day of a UNIX millisecond timestamp: chrono's
/// `from_timestamp_millis`, then the UTC date-time moved by the machine's
/// offset (`with_timezone(&Local)`) with `checked_add_offset`, which gives
/// `None` where `date_naive` would panic. Which day it is depends on the time
/// zone; the contract claims what holds in every zone. chrono panics (an
/// `unwrap` in `offset/local/mod.rs`) when the machine's time-zone rules give
/// an offset of a day or more, as a `TZ` setting whose daylight time reaches
/// 24 hours does, or cannot place the instant: that comes from the
/// environment, not from `ms`, as it does for every local time chrono gives.
#[verifier::external_body]
pub(crate) fn local_day_of_millis(ms: i64) -> (r: Option<i32>)
    ensures
        local_day_fits(ms, r),
{
    chrono::DateTime::from_timestamp_millis(ms)
        .and_then(|dt| dt.naive_utc().checked_add_offset(*dt.with_timezone(&chrono::Local).offset()))
        .map(|local| local.date().num_days_from_ce())
}

/// The local `%H:%M` of a UNIX millisecond timestamp: chrono's
/// `from_timestamp_millis`, `with_timezone(&Local)`, `format`. Which time it
/// is depends on the time zone; the contract claims that there is one exactly
/// when `ms` is in range, and that it is two digits, a colon and two digits.
/// chrono panics (an `unwrap` in `offset/local/mod.rs`) when the machine's
/// time-zone rules give an offset of a day or more, as a `TZ` setting whose
/// daylight time reaches 24 hours does: that comes from the environment.
#[verifier::external_body]
pub(crate) fn local_hour_minute_text(ms: i64) -> (r: Option<String>)
    ensures
        r is Some <==> millis_in_range(ms),
        r matches Some(t) ==> hour_minute_shaped(t@),
{
    chrono::DateTime::from_timestamp_millis(ms).map(
        |dt| dt.with_timezone(&chrono::Local).format("%H:%M").to_string(),
    )
}

/// The canonical storage timestamp of the current instant: `chrono::Utc::now()`
/// formatted as `%Y-%m-%d %H:%M:%S%.3f`. Which instant it is depends on the
/// clock; the contract claims that it is the storage text of some timestamp
/// chrono holds (`%.3f` of the instant's nanoseconds is that of its
/// milliseconds).
#[verifier::external_body]
pub fn now_iso() -> (s: String)
    ensures
        is_storage_stamp(s@),
{
    chrono::Utc::now().format("%Y-%m-%d %H:%M:%S%.3f").to_string()
}

/// The current UNIX time in milliseconds: `chrono::Utc::now().timestamp_millis()`.
/// Which time it is depends on the clock; the contract claims that it is a
/// timestamp chrono holds (`Utc::now` builds a `DateTime` from it).
#[verifier::external_body]
pub fn now_ms() -> (ms: i64)
    ensures
        millis_in_range(ms),
{
    chrono::Utc::now().timestamp_millis()
}

/// Today's local date as `%Y-%m-%d`: `chrono::Local::now()` formatted.
/// Which day it is depends on the clock and the time zone; the contract
/// claims that, for a current time whose UTC day is inside chrono's calendar,
/// it is the `%Y-%m-%d` text of that day or a day next to it.
#[verifier::external_body]
pub(crate) fn today_local_text() -> (s: String)
    ensures
        is_local_day_text(s@),
{
    chrono::Local::now().format("%Y-%m-%d").to_string()
}

} // verus!
