use vstd::prelude::*;

verus! {

/// The character of a decimal digit.
pub open spec fn digit_char(d: nat) -> char {
    if d == 0 { '0' }
    else if d == 1 { '1' }
    else if d == 2 { '2' }
    else if d == 3 { '3' }
    else if d == 4 { '4' }
    else if d == 5 { '5' }
    else if d == 6 { '6' }
    else if d == 7 { '7' }
    else if d == 8 { '8' }
    else { '9' }
}

pub open spec fn is_digit(c: char) -> bool {
    '0' <= c && c <= '9'
}

/// `n` written in decimal, without leading zeros.
pub open spec fn decimal_text(n: nat) -> Seq<char>
    decreases n,
{
    if n < 10 {
        seq![digit_char(n)]
    } else {
        decimal_text(n / 10).push(digit_char(n % 10))
    }
}

/// The last two decimal digits of `n`, zero-padded.
pub open spec fn two_digits(n: nat) -> Seq<char> {
    seq![digit_char((n / 10) % 10), digit_char(n % 10)]
}

/// The last four decimal digits of `n`, zero-padded.
pub open spec fn four_digits(n: nat) -> Seq<char> {
    seq![
        digit_char((n / 1000) % 10),
        digit_char((n / 100) % 10),
        digit_char((n / 10) % 10),
        digit_char(n % 10),
    ]
}

pub open spec fn is_leap_year(y: int) -> bool {
    (y % 4 == 0 && y % 100 != 0) || y % 400 == 0
}

pub open spec fn days_in_month(y: int, m: int) -> int {
    if m == 2 {
        if is_leap_year(y) { 29 } else { 28 }
    } else if m == 4 || m == 6 || m == 9 || m == 11 {
        30
    } else {
        31
    }
}

/// A local wall-clock time to the second, in the proleptic Gregorian calendar.
#[derive(Clone, Copy, Debug, PartialEq, Eq, Structural)]
pub struct Timestamp {
    pub year: i32,
    pub month: u32,
    pub day: u32,
    pub hour: u32,
    pub minute: u32,
    pub second: u32,
}

/// A calendar date and time of day that exist, in a year of four digits.
pub open spec fn valid_time(year: int, month: int, day: int, hour: int, minute: int, second: int) -> bool {
    &&& 0 <= year <= 9999
    &&& 1 <= month <= 12
    &&& 1 <= day <= days_in_month(year, month)
    &&& 0 <= hour < 24
    &&& 0 <= minute < 60
    &&& 0 <= second < 60
}

/// `YYYY-MM-DD_HH-MM-SS`.
pub open spec fn stamp_text(year: int, month: int, day: int, hour: int, minute: int, second: int) -> Seq<char> {
    four_digits(year as nat) + seq!['-'] + two_digits(month as nat) + seq!['-'] + two_digits(day as nat)
        + seq!['_'] + two_digits(hour as nat) + seq!['-'] + two_digits(minute as nat) + seq!['-']
        + two_digits(second as nat)
}

impl Timestamp {
    pub open spec fn wf(&self) -> bool {
        valid_time(
            self.year as int,
            self.month as int,
            self.day as int,
            self.hour as int,
            self.minute as int,
            self.second as int,
        )
    }

    /// The timestamp as `YYYY-MM-DD_HH-MM-SS`.
    pub open spec fn text(&self) -> Seq<char> {
        stamp_text(
            self.year as int,
            self.month as int,
            self.day as int,
            self.hour as int,
            self.minute as int,
            self.second as int,
        )
    }

    /// The timestamp of the given fields, or `None` where they name no time of
    /// a year from 0 to 9999.
    pub fn new(year: i32, month: u32, day: u32, hour: u32, minute: u32, second: u32) -> (r: Option<
        Timestamp,
    >)
        ensures
            r is Some <==> valid_time(
                year as int,
                month as int,
                day as int,
                hour as int,
                minute as int,
                second as int,
            ),
            r matches Some(t) ==> t.wf() && t == (Timestamp { year, month, day, hour, minute, second }),
    {
        if year < 0 || year > 9999 || month < 1 || month > 12 || day < 1 || hour >= 24 || minute >= 60
            || second >= 60 {
            return None;
        }
        let leap: bool = (year % 4 == 0 && year % 100 != 0) || year % 400 == 0;
        let month_days: u32 = if month == 2 {
            if leap { 29 } else { 28 }
        } else if month == 4 || month == 6 || month == 9 || month == 11 {
            30
        } else {
            31
        };
        if day > month_days {
            return None;
        }
        Some(Timestamp { year, month, day, hour, minute, second })
    }

    /// The timestamp as `YYYY-MM-DD_HH-MM-SS`.
    pub fn format(&self) -> (r: String)
        requires
            self.wf(),
        ensures
            r@ == self.text(),
    {
        let r = format_date_time(self.year, self.month, self.day, self.hour, self.minute, self.second);
        r.unwrap()
    }
}

/// Relies on chrono's `NaiveDate::from_ymd_opt` and `NaiveDate::and_hms_opt`,
/// which give a value for every date and time of day that exist, and on
/// `NaiveDateTime::format` with `%Y-%m-%d_%H-%M-%S`, which writes a year from
/// 0 to 9999 as four zero-padded digits and each other field as two.
#[verifier::external_body]
fn format_date_time(year: i32, month: u32, day: u32, hour: u32, minute: u32, second: u32) -> (r: Option<
    String,
>)
    requires
        0 <= year <= 9999,
    ensures
        valid_time(year as int, month as int, day as int, hour as int, minute as int, second as int)
            ==> r is Some,
        r matches Some(s) ==> s@ == stamp_text(
            year as int,
            month as int,
            day as int,
            hour as int,
            minute as int,
            second as int,
        ),
{
    match chrono::NaiveDate::from_ymd_opt(year, month, day) {
        Some(date) => match date.and_hms_opt(hour, minute, second) {
            Some(time) => Some(time.format("%Y-%m-%d_%H-%M-%S").to_string()),
            None => None,
        },
        None => None,
    }
}

/// Relies on the `Display` impl of `u64`: the decimal digits, without leading
/// zeros.
#[verifier::external_body]
pub(crate) fn decimal_string(n: u64) -> (r: String)
    ensures
        r@ == decimal_text(n as nat),
{
    n.to_string()
}

} // verus!
