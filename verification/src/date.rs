//! Calendar dates: validity, ISO parsing and formatting, and the long
//! display form used in the sheet header.

use vstd::prelude::*;
use crate::error::AppError;
use crate::textfmt::{
    ascii_to_string, bytes_to_chars, dec_bytes, dec_bytes_pad, dec_string,
    lemma_dec_bytes_pad_ascii, push_dec_pad,
};
use vstd::string::StringExecFns;
use vstd::string::StrSliceExecFns;

verus! {

/// A Gregorian calendar date with no time component.
#[derive(Clone, Copy, Debug, PartialEq, Eq, Structural)]
pub struct Date {
    pub year: u32,
    pub month: u32,
    pub day: u32,
}

/// Gregorian leap-year rule.
pub open spec fn spec_is_leap(y: int) -> bool {
    y % 4 == 0 && (y % 100 != 0 || y % 400 == 0)
}

pub open spec fn spec_days_in_month(y: int, m: int) -> int {
    if m == 2 {
        if spec_is_leap(y) {
            29
        } else {
            28
        }
    } else if m == 4 || m == 6 || m == 9 || m == 11 {
        30
    } else {
        31
    }
}

/// The dates the library accepts: years 1 through 9999, real calendar
/// days.
pub open spec fn date_valid(d: Date) -> bool {
    &&& 1 <= d.year <= 9999
    &&& 1 <= d.month <= 12
    &&& 1 <= d.day <= spec_days_in_month(d.year as int, d.month as int)
}

impl Date {
    /// The only constructor: accepts exactly the valid calendar dates.
    pub fn from_ymd(year: u32, month: u32, day: u32) -> (r: Option<Date>)
        ensures
            r is Some <==> date_valid(Date { year, month, day }),
            r is Some ==> r->Some_0 == (Date { year, month, day }),
    {
        let d = Date { year, month, day };
        if 1 <= year && year <= 9999 && 1 <= month && month <= 12 && 1 <= day && day
            <= days_in_month(year, month) {
            Some(d)
        } else {
            None
        }
    }
}

pub fn is_leap(y: u32) -> (r: bool)
    ensures
        r == spec_is_leap(y as int),
{
    y % 4 == 0 && (y % 100 != 0 || y % 400 == 0)
}

pub fn days_in_month(y: u32, m: u32) -> (r: u32)
    ensures
        r == spec_days_in_month(y as int, m as int),
{
    if m == 2 {
        if is_leap(y) {
            29
        } else {
            28
        }
    } else if m == 4 || m == 6 || m == 9 || m == 11 {
        30
    } else {
        31
    }
}

/// Per-month offsets of Sakamoto's day-of-week formula.
pub open spec fn spec_month_offset(m: int) -> int {
    if m == 1 {
        0
    } else if m == 2 {
        3
    } else if m == 3 {
        2
    } else if m == 4 {
        5
    } else if m == 5 {
        0
    } else if m == 6 {
        3
    } else if m == 7 {
        5
    } else if m == 8 {
        1
    } else if m == 9 {
        4
    } else if m == 10 {
        6
    } else if m == 11 {
        2
    } else {
        4
    }
}

/// Day of the week by Sakamoto's congruence: 0 is Sunday, 6 is Saturday.
pub open spec fn spec_weekday(d: Date) -> int {
    let y = if d.month < 3 {
        d.year - 1
    } else {
        d.year as int
    };
    (y + y / 4 - y / 100 + y / 400 + spec_month_offset(d.month as int) + d.day) % 7
}

fn month_offset(m: u32) -> (r: u32)
    requires
        1 <= m <= 12,
    ensures
        r == spec_month_offset(m as int),
{
    if m == 1 {
        0
    } else if m == 2 {
        3
    } else if m == 3 {
        2
    } else if m == 4 {
        5
    } else if m == 5 {
        0
    } else if m == 6 {
        3
    } else if m == 7 {
        5
    } else if m == 8 {
        1
    } else if m == 9 {
        4
    } else if m == 10 {
        6
    } else if m == 11 {
        2
    } else {
        4
    }
}

/// Day of the week of a valid date, 0 for Sunday through 6 for Saturday.
pub fn weekday_index(d: Date) -> (w: u32)
    requires
        date_valid(d),
    ensures
        w == spec_weekday(d),
        w <= 6,
{
    let y: u64 = if d.month < 3 {
        (d.year - 1) as u64
    } else {
        d.year as u64
    };
    proof {
        vstd::arithmetic::div_mod::lemma_div_is_ordered_by_denominator(y as int, 4, 100);
    }
    let t: u64 = month_offset(d.month) as u64;
    let sum: u64 = y + y / 4 - y / 100 + y / 400 + t + d.day as u64;
    (sum % 7) as u32
}

/// The view of the full weekday name, 0 for Sunday through 6 for Saturday.
pub open spec fn spec_weekday_name(w: int) -> Seq<char> {
    if w == 0 {
        "Sunday"@
    } else if w == 1 {
        "Monday"@
    } else if w == 2 {
        "Tuesday"@
    } else if w == 3 {
        "Wednesday"@
    } else if w == 4 {
        "Thursday"@
    } else if w == 5 {
        "Friday"@
    } else {
        "Saturday"@
    }
}

pub fn weekday_name(w: u32) -> (r: &'static str)
    requires
        w <= 6,
    ensures
        r@ == spec_weekday_name(w as int),
{
    if w == 0 {
        "Sunday"
    } else if w == 1 {
        "Monday"
    } else if w == 2 {
        "Tuesday"
    } else if w == 3 {
        "Wednesday"
    } else if w == 4 {
        "Thursday"
    } else if w == 5 {
        "Friday"
    } else {
        "Saturday"
    }
}

/// The view of the full month name, 1 for January through 12 for December.
pub open spec fn spec_month_name(m: int) -> Seq<char> {
    if m == 1 {
        "January"@
    } else if m == 2 {
        "February"@
    } else if m == 3 {
        "March"@
    } else if m == 4 {
        "April"@
    } else if m == 5 {
        "May"@
    } else if m == 6 {
        "June"@
    } else if m == 7 {
        "July"@
    } else if m == 8 {
        "August"@
    } else if m == 9 {
        "September"@
    } else if m == 10 {
        "October"@
    } else if m == 11 {
        "November"@
    } else {
        "December"@
    }
}

pub fn month_name(m: u32) -> (r: &'static str)
    requires
        1 <= m <= 12,
    ensures
        r@ == spec_month_name(m as int),
{
    if m == 1 {
        "January"
    } else if m == 2 {
        "February"
    } else if m == 3 {
        "March"
    } else if m == 4 {
        "April"
    } else if m == 5 {
        "May"
    } else if m == 6 {
        "June"
    } else if m == 7 {
        "July"
    } else if m == 8 {
        "August"
    } else if m == 9 {
        "September"
    } else if m == 10 {
        "October"
    } else if m == 11 {
        "November"
    } else {
        "December"
    }
}

/// The ISO `YYYY-MM-DD` spelling of a date, as ASCII bytes.
pub open spec fn spec_iso_bytes(d: Date) -> Seq<u8> {
    dec_bytes_pad(d.year as int, 4) + seq![45u8] + dec_bytes_pad(d.month as int, 2) + seq![45u8]
        + dec_bytes_pad(d.day as int, 2)
}

/// Append the ISO spelling of a date to an ASCII byte buffer.
pub fn push_iso_bytes(out: &mut Vec<u8>, d: Date)
    ensures
        final(out)@ == old(out)@ + spec_iso_bytes(d),
{
    push_dec_pad(out, d.year as u64, 4);
    out.push(45);
    push_dec_pad(out, d.month as u64, 2);
    out.push(45);
    push_dec_pad(out, d.day as u64, 2);
    proof {
        assert(final(out)@ =~= old(out)@ + spec_iso_bytes(d));
    }
}

/// The ISO `YYYY-MM-DD` spelling, as a string.
pub fn format_date_iso(d: Date) -> (r: String)
    ensures
        r@ == bytes_to_chars(spec_iso_bytes(d)),
{
    let mut buf: Vec<u8> = Vec::new();
    push_iso_bytes(&mut buf, d);
    proof {
        lemma_dec_bytes_pad_ascii(d.year as int, 4);
        lemma_dec_bytes_pad_ascii(d.month as int, 2);
        lemma_dec_bytes_pad_ascii(d.day as int, 2);
    }
    ascii_to_string(buf)
}

/// The long display spelling: full weekday, full month, unpadded day,
/// four-digit year.
pub open spec fn spec_date_display(d: Date) -> Seq<char> {
    spec_weekday_name(spec_weekday(d)) + ", "@ + spec_month_name(d.month as int) + " "@
        + bytes_to_chars(dec_bytes(d.day as int)) + ", "@ + bytes_to_chars(
        dec_bytes_pad(d.year as int, 4),
    )
}

/// Format a date for the header, e.g. a full weekday name, a full month
/// name, the day and the four-digit year.
pub fn format_date_display(d: Date) -> (r: String)
    requires
        date_valid(d),
    ensures
        r@ == spec_date_display(d),
{
    let w = weekday_index(d);
    let mut s = String::new();
    s.append(weekday_name(w));
    s.append(", ");
    s.append(month_name(d.month));
    s.append(" ");
    let day_str = dec_string(d.day as u64);
    s.append(day_str.as_str());
    s.append(", ");
    let mut yb: Vec<u8> = Vec::new();
    push_dec_pad(&mut yb, d.year as u64, 4);
    proof {
        lemma_dec_bytes_pad_ascii(d.year as int, 4);
    }
    let year_str = ascii_to_string(yb);
    s.append(year_str.as_str());
    proof {
        assert(s@ =~= spec_date_display(d));
    }
    s
}

pub open spec fn spec_is_digit(c: char) -> bool {
    48 <= c as u32 <= 57
}

pub open spec fn spec_digit_val(c: char) -> int {
    c as u32 - 48
}

/// What parsing an ISO `YYYY-MM-DD` spelling yields: a valid date, or
/// nothing when the shape or the calendar rejects it.
pub open spec fn spec_parse_iso(s: Seq<char>) -> Option<Date> {
    if s.len() == 10 && spec_is_digit(s[0]) && spec_is_digit(s[1]) && spec_is_digit(s[2])
        && spec_is_digit(s[3]) && s[4] == '-' && spec_is_digit(s[5]) && spec_is_digit(s[6]) && s[7]
        == '-' && spec_is_digit(s[8]) && spec_is_digit(s[9]) {
        let d = Date {
            year: (spec_digit_val(s[0]) * 1000 + spec_digit_val(s[1]) * 100 + spec_digit_val(s[2])
                * 10 + spec_digit_val(s[3])) as u32,
            month: (spec_digit_val(s[5]) * 10 + spec_digit_val(s[6])) as u32,
            day: (spec_digit_val(s[8]) * 10 + spec_digit_val(s[9])) as u32,
        };
        if date_valid(d) {
            Some(d)
        } else {
            None
        }
    } else {
        None
    }
}

fn digit_at(s: &str, i: usize) -> (r: Option<u32>)
    requires
        i < s@.len(),
    ensures
        r is Some <==> spec_is_digit(s@[i as int]),
        r is Some ==> r->Some_0 == spec_digit_val(s@[i as int]),
{
    let c = s.get_char(i);
    let v = c as u32;
    if 48 <= v && v <= 57 {
        Some(v - 48)
    } else {
        None
    }
}

/// Parse a date given as `YYYY-MM-DD`.  Exactly the ten-character digit
/// spellings of valid calendar dates are accepted; anything else comes
/// back as a `DateError` carrying the offending text.
pub fn parse_iso_date(s: &str) -> (r: Result<Date, AppError>)
    ensures
        r is Ok <==> spec_parse_iso(s@) is Some,
        r is Ok ==> spec_parse_iso(s@) == Some(r->Ok_0) && date_valid(r->Ok_0),
        r is Err ==> (r->Err_0 matches AppError::DateError(m) && m@ == s@),
{
    let n = s.unicode_len();
    if n != 10 {
        return Err(AppError::DateError(s.to_owned()));
    }
    let c4 = s.get_char(4);
    let c7 = s.get_char(7);
    if c4 != '-' || c7 != '-' {
        return Err(AppError::DateError(s.to_owned()));
    }
    let d0 = digit_at(s, 0);
    let d1 = digit_at(s, 1);
    let d2 = digit_at(s, 2);
    let d3 = digit_at(s, 3);
    let d5 = digit_at(s, 5);
    let d6 = digit_at(s, 6);
    let d8 = digit_at(s, 8);
    let d9 = digit_at(s, 9);
    match (d0, d1, d2, d3, d5, d6, d8, d9) {
        (
            Some(y0),
            Some(y1),
            Some(y2),
            Some(y3),
            Some(m0),
            Some(m1),
            Some(a0),
            Some(a1),
        ) => {
            let year = y0 * 1000 + y1 * 100 + y2 * 10 + y3;
            let month = m0 * 10 + m1;
            let day = a0 * 10 + a1;
            match Date::from_ymd(year, month, day) {
                Some(d) => Ok(d),
                None => Err(AppError::DateError(s.to_owned())),
            }
        },
        _ => Err(AppError::DateError(s.to_owned())),
    }
}

} // verus!
