//! Local calendar time at the precision the forecast payload uses: hourly
//! rows carry a local date-and-minute value with no UTC offset, daily rows a
//! local date. Both are parsed from fixed-width text (`YYYY-MM-DDTHH:MM` and
//! `YYYY-MM-DD`) and ordered by a single integer key.

use vstd::prelude::*;

verus! {

/// A local calendar date.
#[derive(Clone, Copy, Debug, PartialEq, Eq, Structural)]
pub struct LocalDate {
    pub year: u32,
    pub month: u32,
    pub day: u32,
}

/// A local calendar date with a minute-precision time of day.
#[derive(Clone, Copy, Debug, PartialEq, Eq, Structural)]
pub struct LocalDateTime {
    pub year: u32,
    pub month: u32,
    pub day: u32,
    pub hour: u32,
    pub minute: u32,
}

pub open spec fn is_leap_year(y: int) -> bool {
    y % 4 == 0 && (y % 100 != 0 || y % 400 == 0)
}

pub open spec fn days_in_month(y: int, m: int) -> int {
    if m == 2 {
        if is_leap_year(y) {
            29
        } else {
            28
        }
    } else if m == 4 || m == 6 || m == 9 || m == 11 {
        30
    } else {
        31
    }
}

pub open spec fn valid_date(y: int, m: int, d: int) -> bool {
    0 <= y <= 9999 && 1 <= m <= 12 && 1 <= d <= days_in_month(y, m)
}

impl LocalDate {
    pub open spec fn wf(self) -> bool {
        valid_date(self.year as int, self.month as int, self.day as int)
    }

    /// A key that orders dates chronologically: later date, larger key.
    pub open spec fn key(self) -> int {
        (self.year as int * 13 + self.month as int) * 32 + self.day as int
    }
}

impl LocalDateTime {
    pub open spec fn wf(self) -> bool {
        valid_date(self.year as int, self.month as int, self.day as int)
            && self.hour <= 23
            && self.minute <= 59
    }

    /// A key that orders date-times chronologically: later instant, larger key.
    pub open spec fn key(self) -> int {
        (((self.year as int * 13 + self.month as int) * 32 + self.day as int) * 24
            + self.hour as int) * 60 + self.minute as int
    }
}

/// Whether `a` is strictly earlier than `b`.
pub fn date_before(a: &LocalDate, b: &LocalDate) -> (r: bool)
    requires
        a.wf(),
        b.wf(),
    ensures
        r == (a.key() < b.key()),
{
    let ka: u64 = (a.year as u64 * 13 + a.month as u64) * 32 + a.day as u64;
    let kb: u64 = (b.year as u64 * 13 + b.month as u64) * 32 + b.day as u64;
    ka < kb
}

/// Whether `a` is strictly earlier than `b`.
pub fn datetime_before(a: &LocalDateTime, b: &LocalDateTime) -> (r: bool)
    requires
        a.wf(),
        b.wf(),
    ensures
        r == (a.key() < b.key()),
{
    let ka: u64 = (((a.year as u64 * 13 + a.month as u64) * 32 + a.day as u64) * 24
        + a.hour as u64) * 60 + a.minute as u64;
    let kb: u64 = (((b.year as u64 * 13 + b.month as u64) * 32 + b.day as u64) * 24
        + b.hour as u64) * 60 + b.minute as u64;
    ka < kb
}

pub open spec fn is_digit(c: char) -> bool {
    48 <= c as u32 <= 57
}

pub open spec fn digit_val(c: char) -> int {
    c as u32 - 48
}

/// The value of the four-digit group starting at `i`.
pub open spec fn num4(s: Seq<char>, i: int) -> int {
    digit_val(s[i]) * 1000 + digit_val(s[i + 1]) * 100 + digit_val(s[i + 2]) * 10 + digit_val(
        s[i + 3],
    )
}

/// The value of the two-digit group starting at `i`.
pub open spec fn num2(s: Seq<char>, i: int) -> int {
    digit_val(s[i]) * 10 + digit_val(s[i + 1])
}

/// Text of the exact shape `YYYY-MM-DD` naming a valid calendar date.
pub open spec fn is_date_text(s: Seq<char>) -> bool {
    s.len() == 10 && is_digit(s[0]) && is_digit(s[1]) && is_digit(s[2]) && is_digit(s[3]) && s[4]
        == '-' && is_digit(s[5]) && is_digit(s[6]) && s[7] == '-' && is_digit(s[8]) && is_digit(
        s[9],
    ) && valid_date(num4(s, 0), num2(s, 5), num2(s, 8))
}

/// The date named by date text.
pub open spec fn date_of_text(s: Seq<char>) -> LocalDate {
    LocalDate { year: num4(s, 0) as u32, month: num2(s, 5) as u32, day: num2(s, 8) as u32 }
}

/// Text of the exact shape `YYYY-MM-DDTHH:MM` naming a valid local instant.
pub open spec fn is_datetime_text(s: Seq<char>) -> bool {
    s.len() == 16 && is_digit(s[0]) && is_digit(s[1]) && is_digit(s[2]) && is_digit(s[3]) && s[4]
        == '-' && is_digit(s[5]) && is_digit(s[6]) && s[7] == '-' && is_digit(s[8]) && is_digit(
        s[9],
    ) && s[10] == 'T' && is_digit(s[11]) && is_digit(s[12]) && s[13] == ':' && is_digit(s[14])
        && is_digit(s[15]) && valid_date(num4(s, 0), num2(s, 5), num2(s, 8)) && num2(s, 11) <= 23
        && num2(s, 14) <= 59
}

/// The instant named by date-time text.
pub open spec fn datetime_of_text(s: Seq<char>) -> LocalDateTime {
    LocalDateTime {
        year: num4(s, 0) as u32,
        month: num2(s, 5) as u32,
        day: num2(s, 8) as u32,
        hour: num2(s, 11) as u32,
        minute: num2(s, 14) as u32,
    }
}

/// Reads the digit at position `i`, or `None` if the character there is not
/// a decimal digit.
fn digit_at(s: &str, i: usize) -> (r: Option<u32>)
    requires
        i < s@.len(),
    ensures
        r is Some <==> is_digit(s@[i as int]),
        r is Some ==> r.unwrap() == digit_val(s@[i as int]),
{
    let c = s.get_char(i);
    let v = c as u32;
    if 48 <= v && v <= 57 {
        Some(v - 48)
    } else {
        None
    }
}

/// Whether the character at position `i` is exactly `want`.
fn char_is(s: &str, i: usize, want: char) -> (r: bool)
    requires
        i < s@.len(),
    ensures
        r == (s@[i as int] == want),
{
    s.get_char(i) == want
}

/// Parses `YYYY-MM-DD` text into a date. Returns `Some` exactly when the
/// text has that shape and names a valid calendar date.
pub fn parse_date(s: &str) -> (r: Option<LocalDate>)
    ensures
        r is Some <==> is_date_text(s@),
        r is Some ==> r.unwrap() == date_of_text(s@) && r.unwrap().wf(),
{
    if s.unicode_len() != 10 {
        return None;
    }
    let d0 = match digit_at(s, 0) {
        Some(v) => v,
        None => { return None },
    };
    let d1 = match digit_at(s, 1) {
        Some(v) => v,
        None => { return None },
    };
    let d2 = match digit_at(s, 2) {
        Some(v) => v,
        None => { return None },
    };
    let d3 = match digit_at(s, 3) {
        Some(v) => v,
        None => { return None },
    };
    if !char_is(s, 4, '-') {
        return None;
    }
    let d5 = match digit_at(s, 5) {
        Some(v) => v,
        None => { return None },
    };
    let d6 = match digit_at(s, 6) {
        Some(v) => v,
        None => { return None },
    };
    if !char_is(s, 7, '-') {
        return None;
    }
    let d8 = match digit_at(s, 8) {
        Some(v) => v,
        None => { return None },
    };
    let d9 = match digit_at(s, 9) {
        Some(v) => v,
        None => { return None },
    };
    let year: u32 = d0 * 1000 + d1 * 100 + d2 * 10 + d3;
    let month: u32 = d5 * 10 + d6;
    let day: u32 = d8 * 10 + d9;
    if !check_date(year, month, day) {
        return None;
    }
    Some(LocalDate { year, month, day })
}

/// Parses `YYYY-MM-DDTHH:MM` text into a local instant. Returns `Some`
/// exactly when the text has that shape and names a valid instant.
pub fn parse_datetime(s: &str) -> (r: Option<LocalDateTime>)
    ensures
        r is Some <==> is_datetime_text(s@),
        r is Some ==> r.unwrap() == datetime_of_text(s@) && r.unwrap().wf(),
{
    if s.unicode_len() != 16 {
        return None;
    }
    let d0 = match digit_at(s, 0) {
        Some(v) => v,
        None => { return None },
    };
    let d1 = match digit_at(s, 1) {
        Some(v) => v,
        None => { return None },
    };
    let d2 = match digit_at(s, 2) {
        Some(v) => v,
        None => { return None },
    };
    let d3 = match digit_at(s, 3) {
        Some(v) => v,
        None => { return None },
    };
    if !char_is(s, 4, '-') {
        return None;
    }
    let d5 = match digit_at(s, 5) {
        Some(v) => v,
        None => { return None },
    };
    let d6 = match digit_at(s, 6) {
        Some(v) => v,
        None => { return None },
    };
    if !char_is(s, 7, '-') {
        return None;
    }
    let d8 = match digit_at(s, 8) {
        Some(v) => v,
        None => { return None },
    };
    let d9 = match digit_at(s, 9) {
        Some(v) => v,
        None => { return None },
    };
    if !char_is(s, 10, 'T') {
        return None;
    }
    let d11 = match digit_at(s, 11) {
        Some(v) => v,
        None => { return None },
    };
    let d12 = match digit_at(s, 12) {
        Some(v) => v,
        None => { return None },
    };
    if !char_is(s, 13, ':') {
        return None;
    }
    let d14 = match digit_at(s, 14) {
        Some(v) => v,
        None => { return None },
    };
    let d15 = match digit_at(s, 15) {
        Some(v) => v,
        None => { return None },
    };
    let year: u32 = d0 * 1000 + d1 * 100 + d2 * 10 + d3;
    let month: u32 = d5 * 10 + d6;
    let day: u32 = d8 * 10 + d9;
    let hour: u32 = d11 * 10 + d12;
    let minute: u32 = d14 * 10 + d15;
    if !check_date(year, month, day) {
        return None;
    }
    if !(hour <= 23 && minute <= 59) {
        return None;
    }
    Some(LocalDateTime { year, month, day, hour, minute })
}

/// Whether the three numbers name a valid calendar date, February bounded by
/// the leap-year rule.
fn check_date(year: u32, month: u32, day: u32) -> (r: bool)
    ensures
        r == valid_date(year as int, month as int, day as int),
{
    if !(year <= 9999 && 1 <= month && month <= 12) {
        return false;
    }
    let max_day: u32 = if month == 2 {
        if year % 4 == 0 && (year % 100 != 0 || year % 400 == 0) {
            29
        } else {
            28
        }
    } else if month == 4 || month == 6 || month == 9 || month == 11 {
        30
    } else {
        31
    };
    1 <= day && day <= max_day
}

} // verus!
