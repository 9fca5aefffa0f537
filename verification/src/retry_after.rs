//! The `Retry-After` hint: a wait in seconds or an absolute calendar time.

use vstd::prelude::*;
use crate::scan::{
    is_digit, spec_digits_end, spec_digits_val, digit_byte, digits_end, digits_value,
};

verus! {

/// An absolute point in time as an HTTP-date carries it: a calendar date and
/// a time of day, always in UTC (`GMT` on the wire).
#[derive(Clone, Copy, Debug, PartialEq, Eq)]
pub struct HttpDate {
    pub year: u16,
    pub month: u8,
    pub day: u8,
    pub hour: u8,
    pub minute: u8,
    pub second: u8,
}

pub open spec fn is_leap_year(y: u16) -> bool {
    (y % 4 == 0 && y % 100 != 0) || y % 400 == 0
}

pub open spec fn days_in_month(y: u16, m: u8) -> u8 {
    if m == 2 {
        if is_leap_year(y) {
            29
        } else {
            28
        }
    } else if m == 4 || m == 6 || m == 9 || m == 11 {
        30
    } else {
        31
    }
}

impl HttpDate {
    /// The fields describe a real calendar time.
    pub open spec fn wf(self) -> bool {
        &&& 1 <= self.month <= 12
        &&& 1 <= self.day <= days_in_month(self.year, self.month)
        &&& self.hour < 24
        &&& self.minute < 60
        &&& self.second < 60
    }
}

/// A server-supplied retry hint: either a number of seconds to wait, or an
/// absolute point in time to wait until. Parsed from the `Retry-After`
/// response header; a missing or unreadable header simply means "no hint".
#[derive(Clone, Copy, Debug, PartialEq, Eq)]
pub enum RetryAfter {
    Delay(u64),
    DateTime(HttpDate),
}

/// A header value that reads as a plain count of seconds: one to eighteen
/// decimal digits and nothing else. Longer runs are treated as unreadable
/// rather than clamped.
pub open spec fn spec_is_delay(s: Seq<u8>) -> bool {
    &&& 1 <= s.len() <= 18
    &&& forall|k: int| 0 <= k < s.len() ==> is_digit(s[k])
}

/// Month number for the three name bytes at positions 8..11 of an
/// IMF-fixdate, or 0 when they name no month.
pub open spec fn spec_month_num(s: Seq<u8>) -> u8 {
    if s[8] == 74 && s[9] == 97 && s[10] == 110 {
        1  // Jan
    } else if s[8] == 70 && s[9] == 101 && s[10] == 98 {
        2  // Feb
    } else if s[8] == 77 && s[9] == 97 && s[10] == 114 {
        3  // Mar
    } else if s[8] == 65 && s[9] == 112 && s[10] == 114 {
        4  // Apr
    } else if s[8] == 77 && s[9] == 97 && s[10] == 121 {
        5  // May
    } else if s[8] == 74 && s[9] == 117 && s[10] == 110 {
        6  // Jun
    } else if s[8] == 74 && s[9] == 117 && s[10] == 108 {
        7  // Jul
    } else if s[8] == 65 && s[9] == 117 && s[10] == 103 {
        8  // Aug
    } else if s[8] == 83 && s[9] == 101 && s[10] == 112 {
        9  // Sep
    } else if s[8] == 79 && s[9] == 99 && s[10] == 116 {
        10  // Oct
    } else if s[8] == 78 && s[9] == 111 && s[10] == 118 {
        11  // Nov
    } else if s[8] == 68 && s[9] == 101 && s[10] == 99 {
        12  // Dec
    } else {
        0
    }
}

/// The three bytes at positions 0..3 name a day of the week.
pub open spec fn spec_day_name_ok(s: Seq<u8>) -> bool {
    ||| s[0] == 77 && s[1] == 111 && s[2] == 110  // Mon
    ||| s[0] == 84 && s[1] == 117 && s[2] == 101  // Tue
    ||| s[0] == 87 && s[1] == 101 && s[2] == 100  // Wed
    ||| s[0] == 84 && s[1] == 104 && s[2] == 117  // Thu
    ||| s[0] == 70 && s[1] == 114 && s[2] == 105  // Fri
    ||| s[0] == 83 && s[1] == 97 && s[2] == 116  // Sat
    ||| s[0] == 83 && s[1] == 117 && s[2] == 110  // Sun
}

/// The calendar time spelled by a 29-byte IMF-fixdate, field by field.
/// Only meaningful where `spec_is_http_date` holds.
pub open spec fn spec_date_of(s: Seq<u8>) -> HttpDate {
    HttpDate {
        year: ((s[12] - 48) * 1000 + (s[13] - 48) * 100 + (s[14] - 48) * 10 + (s[15]
            - 48)) as u16,
        month: spec_month_num(s),
        day: ((s[5] - 48) * 10 + (s[6] - 48)) as u8,
        hour: ((s[17] - 48) * 10 + (s[18] - 48)) as u8,
        minute: ((s[20] - 48) * 10 + (s[21] - 48)) as u8,
        second: ((s[23] - 48) * 10 + (s[24] - 48)) as u8,
    }
}

/// The header value is an IMF-fixdate, the preferred HTTP-date form:
/// `Wed, 21 Oct 2015 07:28:00 GMT`, and it names a real calendar time.
/// The weekday name must be a weekday name, but is not checked against
/// the date it accompanies.
pub open spec fn spec_is_http_date(s: Seq<u8>) -> bool {
    &&& s.len() == 29
    &&& spec_day_name_ok(s)
    &&& s[3] == 44 && s[4] == 32
    &&& is_digit(s[5]) && is_digit(s[6]) && s[7] == 32
    &&& s[11] == 32
    &&& is_digit(s[12]) && is_digit(s[13]) && is_digit(s[14]) && is_digit(s[15]) && s[16] == 32
    &&& is_digit(s[17]) && is_digit(s[18]) && s[19] == 58
    &&& is_digit(s[20]) && is_digit(s[21]) && s[22] == 58
    &&& is_digit(s[23]) && is_digit(s[24]) && s[25] == 32
    &&& s[26] == 71 && s[27] == 77 && s[28] == 84
    &&& spec_date_of(s).wf()
}

/// What parsing a `Retry-After` header value yields: a delay for a digit
/// run, an absolute time for an IMF-fixdate, nothing for anything else.
pub open spec fn spec_retry_after(s: Seq<u8>) -> Option<RetryAfter> {
    if spec_is_delay(s) {
        Some(RetryAfter::Delay(spec_digits_val(s, 0, s.len() as int) as u64))
    } else if spec_is_http_date(s) {
        Some(RetryAfter::DateTime(spec_date_of(s)))
    } else {
        None
    }
}

/// Exec mirror of `days_in_month`.
fn days_in_month_of(y: u16, m: u8) -> (d: u8)
    requires
        1 <= m <= 12,
    ensures
        d == days_in_month(y, m),
{
    if m == 2 {
        if (y % 4 == 0 && y % 100 != 0) || y % 400 == 0 {
            29
        } else {
            28
        }
    } else if m == 4 || m == 6 || m == 9 || m == 11 {
        30
    } else {
        31
    }
}

/// Exec mirror of `spec_month_num`.
fn month_num(s: &Vec<u8>) -> (m: u8)
    requires
        s@.len() == 29,
    ensures
        m == spec_month_num(s@),
        m <= 12,
{
    let b8 = s[8];
    let b9 = s[9];
    let b10 = s[10];
    if b8 == 74 && b9 == 97 && b10 == 110 {
        1
    } else if b8 == 70 && b9 == 101 && b10 == 98 {
        2
    } else if b8 == 77 && b9 == 97 && b10 == 114 {
        3
    } else if b8 == 65 && b9 == 112 && b10 == 114 {
        4
    } else if b8 == 77 && b9 == 97 && b10 == 121 {
        5
    } else if b8 == 74 && b9 == 117 && b10 == 110 {
        6
    } else if b8 == 74 && b9 == 117 && b10 == 108 {
        7
    } else if b8 == 65 && b9 == 117 && b10 == 103 {
        8
    } else if b8 == 83 && b9 == 101 && b10 == 112 {
        9
    } else if b8 == 79 && b9 == 99 && b10 == 116 {
        10
    } else if b8 == 78 && b9 == 111 && b10 == 118 {
        11
    } else if b8 == 68 && b9 == 101 && b10 == 99 {
        12
    } else {
        0
    }
}

/// Exec mirror of `spec_day_name_ok`.
fn day_name_ok(s: &Vec<u8>) -> (r: bool)
    requires
        s@.len() == 29,
    ensures
        r == spec_day_name_ok(s@),
{
    let b0 = s[0];
    let b1 = s[1];
    let b2 = s[2];
    (b0 == 77 && b1 == 111 && b2 == 110) || (b0 == 84 && b1 == 117 && b2 == 101) || (b0 == 87 && b1
        == 101 && b2 == 100) || (b0 == 84 && b1 == 104 && b2 == 117) || (b0 == 70 && b1 == 114 && b2
        == 105) || (b0 == 83 && b1 == 97 && b2 == 116) || (b0 == 83 && b1 == 117 && b2 == 110)
}

/// Parse a 29-byte IMF-fixdate into its calendar fields, checking that the
/// fields name a real time of a real day.
fn parse_http_date(s: &Vec<u8>) -> (r: Option<HttpDate>)
    ensures
        match r {
            Some(d) => spec_is_http_date(s@) && d == spec_date_of(s@) && d.wf(),
            None => !spec_is_http_date(s@),
        },
{
    if s.len() != 29 {
        return None;
    }
    if !day_name_ok(s) {
        return None;
    }
    if !(s[3] == 44 && s[4] == 32) {
        return None;
    }
    if !(digit_byte(s[5]) && digit_byte(s[6]) && s[7] == 32) {
        return None;
    }
    let m = month_num(s);
    if m == 0 {
        return None;
    }
    if s[11] != 32 {
        return None;
    }
    if !(digit_byte(s[12]) && digit_byte(s[13]) && digit_byte(s[14]) && digit_byte(s[15]) && s[16]
        == 32) {
        return None;
    }
    if !(digit_byte(s[17]) && digit_byte(s[18]) && s[19] == 58) {
        return None;
    }
    if !(digit_byte(s[20]) && digit_byte(s[21]) && s[22] == 58) {
        return None;
    }
    if !(digit_byte(s[23]) && digit_byte(s[24]) && s[25] == 32) {
        return None;
    }
    if !(s[26] == 71 && s[27] == 77 && s[28] == 84) {
        return None;
    }
    let year: u16 = ((s[12] - 48) as u16) * 1000 + ((s[13] - 48) as u16) * 100 + ((s[14]
        - 48) as u16) * 10 + ((s[15] - 48) as u16);
    let day: u8 = (s[5] - 48) * 10 + (s[6] - 48);
    let hour: u8 = (s[17] - 48) * 10 + (s[18] - 48);
    let minute: u8 = (s[20] - 48) * 10 + (s[21] - 48);
    let second: u8 = (s[23] - 48) * 10 + (s[24] - 48);
    if day < 1 || day > days_in_month_of(year, m) {
        return None;
    }
    if hour > 23 || minute > 59 || second > 59 {
        return None;
    }
    let d = HttpDate { year, month: m, day, hour, minute, second };
    Some(d)
}

impl RetryAfter {
    /// Parse a `Retry-After` header value: a decimal count of seconds, or
    /// an IMF-fixdate naming an absolute time. Anything else — including
    /// the rarer obsolete HTTP-date forms — yields no hint.
    pub fn parse(header: &Vec<u8>) -> (r: Option<RetryAfter>)
        ensures
            r == spec_retry_after(header@),
    {
        let n = header.len();
        if n >= 1 && n <= 18 {
            let e = digits_end(header, 0);
            if e == n {
                let v = digits_value(header, 0, n);
                return Some(RetryAfter::Delay(v));
            }
            assert(!is_digit(header@[e as int]));
        }
        assert(!spec_is_delay(header@));
        match parse_http_date(header) {
            Some(d) => Some(RetryAfter::DateTime(d)),
            None => None,
        }
    }
}

} // verus!
