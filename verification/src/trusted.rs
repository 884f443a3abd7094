//! The calls into chrono, behind declarations whose contracts are trusted
//! without proof. Both results are pure functions of their arguments, so each
//! is given a name that the contracts of the callers speak of.

use crate::datetime::DateTime;
use chrono::{Datelike, Timelike};
use vstd::prelude::*;

verus! {

/// What chrono's `NaiveDateTime::parse_from_str` with format
/// `%Y:%m:%d %H:%M:%S` returns for the given text, read back as plain
/// date-time components; a function of the text alone.
pub uninterp spec fn embedded_parse_of(s: Seq<u8>) -> Option<DateTime>;

/// The number of non-leap seconds between 1970-01-01 00:00:00 UTC and the
/// given date-time read as UTC, as chrono computes it; a function of the
/// components alone.
pub uninterp spec fn epoch_seconds_of(dt: DateTime) -> int;

/// Relies on `chrono::NaiveDateTime::parse_from_str` with format
/// `%Y:%m:%d %H:%M:%S`: parsing is a pure function of the input text, and the
/// component accessors are documented to stay in range (month 1..=12, day
/// 1..=31, hour 0..=23, minute and second 0..=59, a leap second reading as
/// second 59), so the narrowing conversions below lose nothing.
#[verifier::external_body]
fn parse_datetime_text(s: &[u8]) -> (r: Option<DateTime>)
    ensures
        r == embedded_parse_of(s@),
{
    let text = String::from_utf8_lossy(s);
    let parsed = chrono::NaiveDateTime::parse_from_str(&text, "%Y:%m:%d %H:%M:%S");
    parsed.ok().map(|dt| DateTime {
        year: dt.year(),
        month: dt.month() as u8,
        day: dt.day() as u8,
        hour: dt.hour() as u8,
        minute: dt.minute() as u8,
        second: dt.second() as u8,
    })
}

/// Relies on chrono's `NaiveDate::from_ymd_opt`, `NaiveDate::and_hms_opt`,
/// `NaiveDateTime::and_utc` and `DateTime::timestamp`: for an in-range
/// calendar date-time the constructors succeed, and the timestamp is the
/// number of non-leap seconds since 1970-01-01 00:00:00 UTC, a pure function
/// of the components.
#[verifier::external_body]
fn chrono_epoch_seconds(dt: &DateTime) -> (r: i64)
    requires
        dt.wf(),
    ensures
        r as int == epoch_seconds_of(*dt),
{
    let date = chrono::NaiveDate::from_ymd_opt(dt.year, dt.month as u32, dt.day as u32).unwrap();
    let ndt = date.and_hms_opt(dt.hour as u32, dt.minute as u32, dt.second as u32).unwrap();
    ndt.and_utc().timestamp()
}

/// Parses the embedded capture-date text of an image, expected in the form
/// `YYYY:MM:DD HH:MM:SS`.
pub fn parse_embedded_datetime(s: &[u8]) -> (r: Option<DateTime>)
    ensures
        r == embedded_parse_of(s@),
{
    parse_datetime_text(s)
}

/// The instant of a reconciled date-time, read as UTC, in seconds since the
/// Unix epoch: the value a filesystem timestamp correction sets.
pub fn modified_time_seconds(dt: &DateTime) -> (r: i64)
    requires
        dt.wf(),
    ensures
        r as int == epoch_seconds_of(*dt),
{
    chrono_epoch_seconds(dt)
}

} // verus!
