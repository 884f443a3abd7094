//! Calendar date-time values used throughout the pipeline: validity,
//! chronological order, and the `YYYY:MM:DD HH:MM:SS` textual form.

use crate::digits::{
    all_digits, digit_char, digit_val, four_digit_val, is_ascii_digit, lemma_four_digit_recover,
    lemma_two_digit_recover, two_digit_val,
};
use vstd::prelude::*;

verus! {

/// A calendar date with a time of day, second precision.
///
/// Candidate values built from filename digits always satisfy [`DateTime::wf`];
/// embedded values handed back by the metadata parser may carry any year the
/// parser accepts, so nothing here forces `wf` on every value.
#[derive(Clone, Copy, PartialEq, Eq, Structural, Debug)]
pub struct DateTime {
    pub year: i32,
    pub month: u8,
    pub day: u8,
    pub hour: u8,
    pub minute: u8,
    pub second: u8,
}

/// Proleptic Gregorian leap-year rule.
pub open spec fn is_leap_year(y: int) -> bool {
    (y % 4 == 0 && y % 100 != 0) || y % 400 == 0
}

/// Number of days in month `m` of year `y` (1-based months).
pub open spec fn days_in_month(y: int, m: int) -> int {
    if m == 2 {
        if is_leap_year(y) {
            29
        } else {
            28
        }
    } else if m == 4 || m == 6 || m == 9 || m == 11 {
        30
    } else {
        31
    }
}

impl DateTime {
    /// A well-formed value: a real calendar date whose year has at most four
    /// digits, with an in-range time of day.
    pub open spec fn wf(self) -> bool {
        &&& 0 <= self.year <= 9999
        &&& 1 <= self.month <= 12
        &&& 1 <= self.day <= days_in_month(self.year as int, self.month as int)
        &&& self.hour <= 23
        &&& self.minute <= 59
        &&& self.second <= 59
    }
}

/// Chronological order on normalized date-times: lexicographic over the
/// components from year down to second.
pub open spec fn dt_lt(a: DateTime, b: DateTime) -> bool {
    if a.year != b.year {
        a.year < b.year
    } else if a.month != b.month {
        a.month < b.month
    } else if a.day != b.day {
        a.day < b.day
    } else if a.hour != b.hour {
        a.hour < b.hour
    } else if a.minute != b.minute {
        a.minute < b.minute
    } else {
        a.second < b.second
    }
}

/// Decides whether `a` is strictly earlier than `b`.
pub fn datetime_before(a: &DateTime, b: &DateTime) -> (r: bool)
    ensures
        r == dt_lt(*a, *b),
{
    if a.year != b.year {
        a.year < b.year
    } else if a.month != b.month {
        a.month < b.month
    } else if a.day != b.day {
        a.day < b.day
    } else if a.hour != b.hour {
        a.hour < b.hour
    } else if a.minute != b.minute {
        a.minute < b.minute
    } else {
        a.second < b.second
    }
}

/// Decides [`DateTime::wf`].
pub fn datetime_is_wf(dt: &DateTime) -> (r: bool)
    ensures
        r == dt.wf(),
{
    if dt.year < 0 || dt.year > 9999 {
        return false;
    }
    if dt.month < 1 || dt.month > 12 {
        return false;
    }
    let leap: bool = (dt.year % 4 == 0 && dt.year % 100 != 0) || dt.year % 400 == 0;
    let dim: u8 = if dt.month == 2 {
        if leap {
            29
        } else {
            28
        }
    } else if dt.month == 4 || dt.month == 6 || dt.month == 9 || dt.month == 11 {
        30
    } else {
        31
    };
    dt.day >= 1 && dt.day <= dim && dt.hour <= 23 && dt.minute <= 59 && dt.second <= 59
}

/// Eight digit bytes laid out as `YYYYMMDD`.
pub open spec fn date_shape_ok(d: Seq<u8>) -> bool {
    d.len() == 8 && all_digits(d)
}

/// Six digit bytes laid out as `HHMMSS`.
pub open spec fn time_shape_ok(t: Seq<u8>) -> bool {
    t.len() == 6 && all_digits(t)
}

/// The date-time named by well-shaped digit groups, before any validity check;
/// a missing time group means midnight.
pub open spec fn dt_of_digits(d: Seq<u8>, t: Option<Seq<u8>>) -> DateTime {
    DateTime {
        year: four_digit_val(d[0], d[1], d[2], d[3]) as i32,
        month: two_digit_val(d[4], d[5]) as u8,
        day: two_digit_val(d[6], d[7]) as u8,
        hour: match t {
            Some(ts) => two_digit_val(ts[0], ts[1]) as u8,
            None => 0,
        },
        minute: match t {
            Some(ts) => two_digit_val(ts[2], ts[3]) as u8,
            None => 0,
        },
        second: match t {
            Some(ts) => two_digit_val(ts[4], ts[5]) as u8,
            None => 0,
        },
    }
}

/// Reads a candidate date-time out of extracted digit groups: defined exactly
/// when the groups are well-shaped and name a real calendar date with an
/// in-range time of day.
pub open spec fn dt_from_digits(d: Seq<u8>, t: Option<Seq<u8>>) -> Option<DateTime> {
    if date_shape_ok(d) && (t matches Some(ts) ==> time_shape_ok(ts)) {
        let dt = dt_of_digits(d, t);
        if dt.wf() {
            Some(dt)
        } else {
            None
        }
    } else {
        None
    }
}

/// Reads the value of two digit bytes.
fn read_two_digits(a: u8, b: u8) -> (r: u8)
    requires
        is_ascii_digit(a),
        is_ascii_digit(b),
    ensures
        r as int == two_digit_val(a, b),
{
    (a - 48) * 10 + (b - 48)
}

/// Builds the candidate date-time from digit groups already extracted from a
/// filename, validating shape and calendar range.
pub fn datetime_from_digits(d: &Vec<u8>, t: &Option<Vec<u8>>) -> (r: Option<DateTime>)
    ensures
        r == dt_from_digits(d@, match t {
            Some(ts) => Some(ts@),
            None => None,
        }),
{
    let ghost gt: Option<Seq<u8>> = match t {
        Some(ts) => Some(ts@),
        None => None,
    };
    if d.len() != 8 {
        return None;
    }
    if !crate::digits::digits_in_range(d.as_slice(), 0, 8) {
        assert(d@.subrange(0, 8) =~= d@);
        return None;
    }
    assert(d@.subrange(0, 8) =~= d@);
    let (hour, minute, second): (u8, u8, u8) = match t {
        Some(ts) => {
            if ts.len() != 6 {
                return None;
            }
            if !crate::digits::digits_in_range(ts.as_slice(), 0, 6) {
                assert(ts@.subrange(0, 6) =~= ts@);
                return None;
            }
            assert(ts@.subrange(0, 6) =~= ts@);
            (
                read_two_digits(ts[0], ts[1]),
                read_two_digits(ts[2], ts[3]),
                read_two_digits(ts[4], ts[5]),
            )
        }
        None => (0, 0, 0),
    };
    let year: i32 = (d[0] - 48) as i32 * 1000 + (d[1] - 48) as i32 * 100 + (d[2] - 48) as i32 * 10
        + (d[3] - 48) as i32;
    let month: u8 = read_two_digits(d[4], d[5]);
    let day: u8 = read_two_digits(d[6], d[7]);
    let dt = DateTime { year, month, day, hour, minute, second };
    assert(dt == dt_of_digits(d@, gt));
    if datetime_is_wf(&dt) {
        Some(dt)
    } else {
        None
    }
}

/// The `YYYY:MM:DD HH:MM:SS` rendering of a date-time, as the external
/// metadata tool expects its date argument.
pub open spec fn format_spec(dt: DateTime) -> Seq<u8> {
    seq![
        digit_char(dt.year as int / 1000),
        digit_char((dt.year as int / 100) % 10),
        digit_char((dt.year as int / 10) % 10),
        digit_char(dt.year as int % 10),
        58u8,
        digit_char(dt.month as int / 10),
        digit_char(dt.month as int % 10),
        58u8,
        digit_char(dt.day as int / 10),
        digit_char(dt.day as int % 10),
        32u8,
        digit_char(dt.hour as int / 10),
        digit_char(dt.hour as int % 10),
        58u8,
        digit_char(dt.minute as int / 10),
        digit_char(dt.minute as int % 10),
        58u8,
        digit_char(dt.second as int / 10),
        digit_char(dt.second as int % 10),
    ]
}

/// Renders a date-time as `YYYY:MM:DD HH:MM:SS`.
pub fn format_exif_value(dt: &DateTime) -> (r: Vec<u8>)
    requires
        dt.wf(),
    ensures
        r@ == format_spec(*dt),
{
    let mut out: Vec<u8> = Vec::new();
    let y = dt.year;
    out.push((y / 1000) as u8 + 48);
    out.push(((y / 100) % 10) as u8 + 48);
    out.push(((y / 10) % 10) as u8 + 48);
    out.push((y % 10) as u8 + 48);
    out.push(58);
    out.push(dt.month / 10 + 48);
    out.push(dt.month % 10 + 48);
    out.push(58);
    out.push(dt.day / 10 + 48);
    out.push(dt.day % 10 + 48);
    out.push(32);
    out.push(dt.hour / 10 + 48);
    out.push(dt.hour % 10 + 48);
    out.push(58);
    out.push(dt.minute / 10 + 48);
    out.push(dt.minute % 10 + 48);
    out.push(58);
    out.push(dt.second / 10 + 48);
    out.push(dt.second % 10 + 48);
    assert(out@ =~= format_spec(*dt));
    out
}

/// Digit-for-digit round trip: re-formatting a candidate parsed from filename
/// digit groups reproduces exactly the digits that stood in the filename.
pub proof fn lemma_format_round_trip(d: Seq<u8>, t: Seq<u8>)
    requires
        dt_from_digits(d, Some(t)) is Some,
    ensures
        format_spec(dt_from_digits(d, Some(t)).unwrap()) == seq![
            d[0],
            d[1],
            d[2],
            d[3],
            58u8,
            d[4],
            d[5],
            58u8,
            d[6],
            d[7],
            32u8,
            t[0],
            t[1],
            58u8,
            t[2],
            t[3],
            58u8,
            t[4],
            t[5],
        ],
{
    let dt = dt_from_digits(d, Some(t)).unwrap();
    lemma_four_digit_recover(digit_val(d[0]), digit_val(d[1]), digit_val(d[2]), digit_val(d[3]));
    lemma_two_digit_recover(digit_val(d[4]), digit_val(d[5]));
    lemma_two_digit_recover(digit_val(d[6]), digit_val(d[7]));
    lemma_two_digit_recover(digit_val(t[0]), digit_val(t[1]));
    lemma_two_digit_recover(digit_val(t[2]), digit_val(t[3]));
    lemma_two_digit_recover(digit_val(t[4]), digit_val(t[5]));
    assert(format_spec(dt) =~= seq![
        d[0],
        d[1],
        d[2],
        d[3],
        58u8,
        d[4],
        d[5],
        58u8,
        d[6],
        d[7],
        32u8,
        t[0],
        t[1],
        58u8,
        t[2],
        t[3],
        58u8,
        t[4],
        t[5],
    ]);
}

/// Round trip for the date-only convention: the date digits reproduce and the
/// time of day renders as midnight.
pub proof fn lemma_format_round_trip_date_only(d: Seq<u8>)
    requires
        dt_from_digits(d, None) is Some,
    ensures
        format_spec(dt_from_digits(d, None).unwrap()) == seq![
            d[0],
            d[1],
            d[2],
            d[3],
            58u8,
            d[4],
            d[5],
            58u8,
            d[6],
            d[7],
            32u8,
            48u8,
            48u8,
            58u8,
            48u8,
            48u8,
            58u8,
            48u8,
            48u8,
        ],
{
    let dt = dt_from_digits(d, None).unwrap();
    lemma_four_digit_recover(digit_val(d[0]), digit_val(d[1]), digit_val(d[2]), digit_val(d[3]));
    lemma_two_digit_recover(digit_val(d[4]), digit_val(d[5]));
    lemma_two_digit_recover(digit_val(d[6]), digit_val(d[7]));
    assert(format_spec(dt) =~= seq![
        d[0],
        d[1],
        d[2],
        d[3],
        58u8,
        d[4],
        d[5],
        58u8,
        d[6],
        d[7],
        32u8,
        48u8,
        48u8,
        58u8,
        48u8,
        48u8,
        58u8,
        48u8,
        48u8,
    ]);
}

} // verus!
