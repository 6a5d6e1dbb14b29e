//! When a reminder is due: a calendar date and wall-clock time at a fixed UTC offset, the calls
//! into `chrono` that read one from text and place it in the local time zone, and its display.
use vstd::prelude::*;

use crate::text::{digits, zero_pad};
use chrono::{Datelike, Offset, TimeZone, Timelike};

verus! {

/// A point in time as the reminder journal keeps it: the local calendar date and wall-clock time,
/// and the offset of that local time from UTC in seconds (local = UTC + offset).
#[derive(Clone, Copy)]
pub struct Due {
    pub year: i32,
    pub month: u32,
    pub day: u32,
    pub hour: u32,
    pub minute: u32,
    pub second: u32,
    pub nanosecond: u32,
    pub offset_seconds: i32,
}

/// What `chrono::NaiveDate::parse_from_str(s, fmt)` gives: the date's year, month and day, or
/// the text of the parse error.
pub uninterp spec fn naive_date_from_str(s: Seq<char>, fmt: Seq<char>) -> Result<
    (int, int, int),
    Seq<char>,
>;

/// What `chrono::NaiveTime::parse_from_str(s, fmt)` gives: the time's hour, minute, second and
/// nanosecond, or the text of the parse error.
pub uninterp spec fn naive_time_from_str(s: Seq<char>, fmt: Seq<char>) -> Result<
    (int, int, int, int),
    Seq<char>,
>;

/// `chrono::NaiveDate::parse_from_str`. Claims that the outcome is `naive_date_from_str` of the
/// arguments, and that a parsed date is a valid calendar date in `NaiveDate`'s range, as every
/// `NaiveDate` is.
#[verifier::external_body]
pub(crate) fn parse_naive_date(s: &str, fmt: &str) -> (r: Result<(i32, u32, u32), String>)
    ensures
        match r {
            Ok((y, m, d)) => {
                &&& naive_date_from_str(s@, fmt@) == Ok::<(int, int, int), Seq<char>>((y as int, m as int, d as int))
                &&& valid_date(y as int, m as int, d as int)
            },
            Err(e) => naive_date_from_str(s@, fmt@) == Err::<(int, int, int), Seq<char>>(e@),
        },
{
    match chrono::NaiveDate::parse_from_str(s, fmt) {
        Ok(d) => Ok((d.year(), d.month(), d.day())),
        Err(e) => Err(e.to_string()),
    }
}

/// `chrono::NaiveTime::parse_from_str`. Claims that the outcome is `naive_time_from_str` of the
/// arguments, and that a parsed time is a valid wall-clock time, as every `NaiveTime` is.
#[verifier::external_body]
pub(crate) fn parse_naive_time(s: &str, fmt: &str) -> (r: Result<(u32, u32, u32, u32), String>)
    ensures
        match r {
            Ok((h, mi, sec, ns)) => {
                &&& naive_time_from_str(s@, fmt@) == Ok::<(int, int, int, int), Seq<char>>(
                    (h as int, mi as int, sec as int, ns as int),
                )
                &&& valid_time(h as int, mi as int, sec as int, ns as int)
            },
            Err(e) => naive_time_from_str(s@, fmt@) == Err::<(int, int, int, int), Seq<char>>(e@),
        },
{
    match chrono::NaiveTime::parse_from_str(s, fmt) {
        Ok(t) => Ok((t.hour(), t.minute(), t.second(), t.nanosecond())),
        Err(e) => Err(e.to_string()),
    }
}

/// Whether `r` is a possible outcome of looking the local date and time up in the machine's
/// time zone (`local_offset`). This relates the lookup to what it was asked; it does not claim
/// that two lookups of the same local time agree.
pub uninterp spec fn local_offset_outcome(
    y: int,
    m: int,
    d: int,
    h: int,
    mi: int,
    s: int,
    ns: int,
    r: Option<int>,
) -> bool;

/// `chrono::Local::from_local_datetime` on the local date and time built from the plain fields
/// (which `requires` makes a valid date and time, so building them cannot fail), kept only when
/// the local time maps to exactly one instant (`single`); gives that instant's offset from UTC
/// in seconds. The outcome rests on the machine's time zone, so the contract claims only that it
/// is an outcome of the lookup for these arguments (`local_offset_outcome`) and what every
/// `FixedOffset` satisfies: the offset lies strictly between -86400 and 86400.
#[verifier::external_body]
pub(crate) fn local_offset(y: i32, m: u32, d: u32, h: u32, mi: u32, s: u32, ns: u32) -> (r:
    Option<i32>)
    requires
        valid_date(y as int, m as int, d as int),
        valid_time(h as int, mi as int, s as int, ns as int),
    ensures
        r matches Some(o) ==> -86400 < o < 86400,
        local_offset_outcome(
            y as int,
            m as int,
            d as int,
            h as int,
            mi as int,
            s as int,
            ns as int,
            match r {
                Some(o) => Some(o as int),
                None => None,
            },
        ),
{
    let local = chrono::NaiveDate::from_ymd_opt(y, m, d).unwrap().and_hms_nano_opt(h, mi, s, ns).unwrap();
    match chrono::Local.from_local_datetime(&local).single() {
        Some(dt) => Some(dt.offset().fix().local_minus_utc()),
        None => None,
    }
}

/// The format in which the reminder list shows due times.
pub const DUE_FORMAT: &'static str = "%Y-%m-%d %H:%M";

/// A leap year of the proleptic Gregorian calendar.
pub open spec fn is_leap_year(y: int) -> bool {
    y % 4 == 0 && (y % 100 != 0 || y % 400 == 0)
}

/// The number of days in a month.
pub open spec fn days_in_month(y: int, m: int) -> int {
    if m == 2 {
        if is_leap_year(y) {
            29
        } else {
            28
        }
    } else if m == 4 || m == 6 || m == 9 || m == 11 {
        30
    } else {
        31
    }
}

/// A calendar date that `chrono::NaiveDate` can hold (years -262143 to 262142).
pub open spec fn valid_date(y: int, m: int, d: int) -> bool {
    &&& -262143 <= y <= 262142
    &&& 1 <= m <= 12
    &&& 1 <= d <= days_in_month(y, m)
}

/// A wall-clock time that `chrono::NaiveTime` can hold; a nanosecond count of a second or more
/// marks a leap second and is only allowed in the 59th second.
pub open spec fn valid_time(h: int, mi: int, s: int, ns: int) -> bool {
    &&& 0 <= h < 24
    &&& 0 <= mi < 60
    &&& 0 <= s < 60
    &&& 0 <= ns
    &&& (ns < 1_000_000_000 || (s == 59 && ns < 2_000_000_000))
}

/// A due time that `chrono::DateTime<FixedOffset>` can hold.
pub open spec fn due_valid(d: Due) -> bool {
    &&& valid_date(d.year as int, d.month as int, d.day as int)
    &&& valid_time(d.hour as int, d.minute as int, d.second as int, d.nanosecond as int)
    &&& -86400 < d.offset_seconds < 86400
}

/// `n` as two digits, zero padded, as `chrono` writes months, days, hours and minutes.
pub open spec fn two_digits(n: int) -> Seq<char> {
    zero_pad(digits(n as nat), 2)
}

/// The year as `chrono`'s `%Y` writes it: four digits, zero padded, for years 0 to 9999; other
/// years with a sign and at least four digits.
pub open spec fn year_text(y: int) -> Seq<char> {
    if 0 <= y <= 9999 {
        zero_pad(digits(y as nat), 4)
    } else if y > 9999 {
        seq!['+'] + zero_pad(digits(y as nat), 4)
    } else {
        seq!['-'] + zero_pad(digits((-y) as nat), 4)
    }
}

/// A local date and time as `DUE_FORMAT` (`%Y-%m-%d %H:%M`) writes it.
pub open spec fn minute_text(y: int, m: int, d: int, h: int, mi: int) -> Seq<char> {
    year_text(y) + seq!['-'] + two_digits(m) + seq!['-'] + two_digits(d) + seq![' ']
        + two_digits(h) + seq![':'] + two_digits(mi)
}

/// `chrono::NaiveDateTime::format(fmt).to_string()` on the date and time built from the plain
/// fields (which `requires` makes a valid date and time, so building them cannot fail). The
/// format is required to be `DUE_FORMAT`, whose items `chrono` writes as `minute_text` says:
/// the year by `%Y`, then month, day, hour and minute as two zero-padded digits.
#[verifier::external_body]
pub(crate) fn format_naive_datetime(
    y: i32,
    m: u32,
    d: u32,
    h: u32,
    mi: u32,
    s: u32,
    ns: u32,
    fmt: &str,
) -> (r: String)
    requires
        valid_date(y as int, m as int, d as int),
        valid_time(h as int, mi as int, s as int, ns as int),
        fmt@ == DUE_FORMAT@,
    ensures
        r@ == minute_text(y as int, m as int, d as int, h as int, mi as int),
{
    let date = chrono::NaiveDate::from_ymd_opt(y, m, d).unwrap();
    date.and_hms_nano_opt(h, mi, s, ns).unwrap().format(fmt).to_string()
}

/// The due time as the reminder list shows it. `DateTime<FixedOffset>::format` writes the date
/// and time fields of the local date and time, so this is the local date and time to the
/// minute in `DUE_FORMAT`.
pub open spec fn due_text(d: Due) -> Seq<char> {
    minute_text(d.year as int, d.month as int, d.day as int, d.hour as int, d.minute as int)
}

impl Due {
    /// Whether `chrono` can hold this due time.
    pub fn is_valid(&self) -> (r: bool)
        ensures
            r == due_valid(*self),
    {
        let y = self.year;
        let m = self.month;
        let leap = y % 4 == 0 && (y % 100 != 0 || y % 400 == 0);
        let days: u32 = if m == 2 {
            if leap {
                29
            } else {
                28
            }
        } else if m == 4 || m == 6 || m == 9 || m == 11 {
            30
        } else {
            31
        };
        -262143 <= y && y <= 262142 && 1 <= m && m <= 12 && 1 <= self.day && self.day <= days
            && self.hour < 24 && self.minute < 60 && self.second < 60 && (self.nanosecond
            < 1_000_000_000 || (self.second == 59 && self.nanosecond < 2_000_000_000))
            && -86400 < self.offset_seconds && self.offset_seconds < 86400
    }
}

/// Shows the due time as the reminder list does.
pub fn format_due(d: &Due) -> (r: String)
    requires
        due_valid(*d),
    ensures
        r@ == due_text(*d),
{
    format_naive_datetime(
        d.year,
        d.month,
        d.day,
        d.hour,
        d.minute,
        d.second,
        d.nanosecond,
        DUE_FORMAT,
    )
}

} // verus!
