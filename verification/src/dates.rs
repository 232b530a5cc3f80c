//! Calendar dates and UTC date-times as plain values, with their canonical
//! query-string text forms.

use vstd::prelude::*;
use vstd::string::*;

use crate::params::{spec_u64_string, u64_string, ParamValue};

verus! {

/// Decimal text zero-padded on the left to at least two digits.
pub open spec fn spec_padded2(n: int) -> Seq<char> {
    if n < 10 {
        seq!['0'] + spec_u64_string(n)
    } else {
        spec_u64_string(n)
    }
}

/// Decimal text zero-padded on the left to at least four digits.
pub open spec fn spec_padded4(n: int) -> Seq<char> {
    if n < 10 {
        seq!['0', '0', '0'] + spec_u64_string(n)
    } else if n < 100 {
        seq!['0', '0'] + spec_u64_string(n)
    } else if n < 1000 {
        seq!['0'] + spec_u64_string(n)
    } else {
        spec_u64_string(n)
    }
}

/// The canonical `YYYY-MM-DD` text of a calendar date.
pub open spec fn spec_date_string(y: int, m: int, d: int) -> Seq<char> {
    spec_padded4(y) + seq!['-'] + spec_padded2(m) + seq!['-'] + spec_padded2(d)
}

/// The canonical RFC 3339 text of a UTC date-time, at second precision,
/// with an explicit `Z` suffix.
pub open spec fn spec_datetime_string(y: int, mo: int, d: int, h: int, mi: int, s: int) -> Seq<
    char,
> {
    spec_date_string(y, mo, d) + seq!['T'] + spec_padded2(h) + seq![':'] + spec_padded2(mi)
        + seq![':'] + spec_padded2(s) + seq!['Z']
}

/// Whether `y` is a leap year in the proleptic Gregorian calendar.
pub open spec fn spec_is_leap_year(y: int) -> bool {
    y % 4 == 0 && (y % 100 != 0 || y % 400 == 0)
}

/// The number of days of month `m` in year `y`.
pub open spec fn spec_days_in_month(y: int, m: int) -> int {
    if m == 2 {
        if spec_is_leap_year(y) {
            29
        } else {
            28
        }
    } else if m == 4 || m == 6 || m == 9 || m == 11 {
        30
    } else {
        31
    }
}

/// Whether year, month and day form a calendar date that this library
/// represents: years up to four digits, months and days within range.
pub open spec fn spec_valid_ymd(y: int, m: int, d: int) -> bool {
    &&& 0 <= y <= 9999
    &&& 1 <= m <= 12
    &&& 1 <= d <= spec_days_in_month(y, m)
}

fn pad2(n: u64) -> (r: String)
    ensures
        r@ == spec_padded2(n as int),
{
    let mut s = String::new();
    if n < 10 {
        s.append("0");
    }
    let digits = u64_string(n);
    s.append(digits.as_str());
    proof {
        reveal_strlit("0");
        assert(s@ =~= spec_padded2(n as int));
    }
    s
}

fn pad4(n: u64) -> (r: String)
    ensures
        r@ == spec_padded4(n as int),
{
    let mut s = String::new();
    if n < 10 {
        s.append("000");
    } else if n < 100 {
        s.append("00");
    } else if n < 1000 {
        s.append("0");
    }
    let digits = u64_string(n);
    s.append(digits.as_str());
    proof {
        reveal_strlit("0");
        reveal_strlit("00");
        reveal_strlit("000");
        assert(s@ =~= spec_padded4(n as int));
    }
    s
}

proof fn lemma_u64_string_len_small(n: int)
    requires
        0 <= n < 10000,
    ensures
        spec_u64_string(n).len() == if n < 10 {
            1int
        } else if n < 100 {
            2int
        } else if n < 1000 {
            3int
        } else {
            4int
        },
    decreases n,
{
    if n >= 10 {
        lemma_u64_string_len_small(n / 10);
    }
}

/// Zero-padded two-digit text really has two characters, for any number
/// below one hundred.
pub proof fn lemma_padded2_len(n: int)
    requires
        0 <= n < 100,
    ensures
        spec_padded2(n).len() == 2,
{
    lemma_u64_string_len_small(n);
}

/// Zero-padded four-digit text really has four characters, for any number
/// up to four digits.
pub proof fn lemma_padded4_len(n: int)
    requires
        0 <= n <= 9999,
    ensures
        spec_padded4(n).len() == 4,
{
    lemma_u64_string_len_small(n);
}

/// For every valid date the canonical text has exactly the `YYYY-MM-DD`
/// shape: ten characters — four year digits, a hyphen, the zero-padded
/// month, a hyphen, the zero-padded day.
pub proof fn lemma_date_encoding(d: Date)
    requires
        spec_valid_ymd(d.year_spec(), d.month_spec(), d.day_spec()),
    ensures
        d.value_spec().len() == 10,
        d.value_spec()[4] == '-',
        d.value_spec()[7] == '-',
        d.value_spec().subrange(0, 4) == spec_padded4(d.year_spec()),
        d.value_spec().subrange(5, 7) == spec_padded2(d.month_spec()),
        d.value_spec().subrange(8, 10) == spec_padded2(d.day_spec()),
{
    lemma_padded4_len(d.year_spec());
    lemma_padded2_len(d.month_spec());
    lemma_padded2_len(d.day_spec());
    assert(d.value_spec().subrange(0, 4) =~= spec_padded4(d.year_spec()));
    assert(d.value_spec().subrange(5, 7) =~= spec_padded2(d.month_spec()));
    assert(d.value_spec().subrange(8, 10) =~= spec_padded2(d.day_spec()));
}

/// A calendar date, held as plain year, month and day numbers. Values built
/// by [`Date::from_ymd`] always satisfy [`spec_valid_ymd`].
#[derive(Debug, Clone, Copy, PartialEq, Eq)]
pub struct Date {
    year: u64,
    month: u64,
    day: u64,
}

impl Date {
    /// The year held.
    pub closed spec fn year_spec(&self) -> int {
        self.year as int
    }

    /// The month held.
    pub closed spec fn month_spec(&self) -> int {
        self.month as int
    }

    /// The day held.
    pub closed spec fn day_spec(&self) -> int {
        self.day as int
    }

    /// Build a date from year, month and day, or nothing when the three do
    /// not form a valid calendar date.
    pub fn from_ymd(year: u64, month: u64, day: u64) -> (r: Option<Date>)
        ensures
            r is Some <==> spec_valid_ymd(year as int, month as int, day as int),
            r matches Some(date) ==> {
                &&& date.year_spec() == year
                &&& date.month_spec() == month
                &&& date.day_spec() == day
            },
    {
        if year > 9999 || month < 1 || month > 12 {
            return None;
        }
        let leap = year % 4 == 0 && (year % 100 != 0 || year % 400 == 0);
        let days: u64 = if month == 2 {
            if leap {
                29
            } else {
                28
            }
        } else if month == 4 || month == 6 || month == 9 || month == 11 {
            30
        } else {
            31
        };
        if day < 1 || day > days {
            return None;
        }
        Some(Date { year, month, day })
    }

    /// The year held.
    pub fn year(&self) -> (r: u64)
        ensures
            r == self.year_spec(),
    {
        self.year
    }

    /// The month held.
    pub fn month(&self) -> (r: u64)
        ensures
            r == self.month_spec(),
    {
        self.month
    }

    /// The day held.
    pub fn day(&self) -> (r: u64)
        ensures
            r == self.day_spec(),
    {
        self.day
    }
}

impl ParamValue for Date {
    /// A date encodes as `YYYY-MM-DD`, with zero-padded month and day.
    open spec fn value_spec(&self) -> Seq<char> {
        spec_date_string(self.year_spec(), self.month_spec(), self.day_spec())
    }

    fn as_value(&self) -> (r: String) {
        let mut s = pad4(self.year);
        s.append("-");
        let m = pad2(self.month);
        s.append(m.as_str());
        s.append("-");
        let d = pad2(self.day);
        s.append(d.as_str());
        proof {
            reveal_strlit("-");
            assert(s@ =~= self.value_spec());
        }
        s
    }
}

/// A UTC date-time at second precision, held as a date and plain hour,
/// minute and second numbers.
#[derive(Debug, Clone, Copy, PartialEq, Eq)]
pub struct DateTimeUtc {
    date: Date,
    hour: u64,
    minute: u64,
    second: u64,
}

impl DateTimeUtc {
    /// The date held.
    pub closed spec fn date_spec(&self) -> Date {
        self.date
    }

    /// The hour held.
    pub closed spec fn hour_spec(&self) -> int {
        self.hour as int
    }

    /// The minute held.
    pub closed spec fn minute_spec(&self) -> int {
        self.minute as int
    }

    /// The second held.
    pub closed spec fn second_spec(&self) -> int {
        self.second as int
    }

    /// Build a date-time from a date and hour, minute and second, or
    /// nothing when the time of day is out of range.
    pub fn from_date_hms(date: Date, hour: u64, minute: u64, second: u64) -> (r: Option<
        DateTimeUtc,
    >)
        ensures
            r is Some <==> hour < 24 && minute < 60 && second < 60,
            r matches Some(dt) ==> {
                &&& dt.date_spec() == date
                &&& dt.hour_spec() == hour
                &&& dt.minute_spec() == minute
                &&& dt.second_spec() == second
            },
    {
        if hour >= 24 || minute >= 60 || second >= 60 {
            return None;
        }
        Some(DateTimeUtc { date, hour, minute, second })
    }
}

impl ParamValue for DateTimeUtc {
    /// A date-time encodes as RFC 3339 text at second precision in UTC,
    /// with an explicit `Z` suffix.
    open spec fn value_spec(&self) -> Seq<char> {
        spec_datetime_string(
            self.date_spec().year_spec(),
            self.date_spec().month_spec(),
            self.date_spec().day_spec(),
            self.hour_spec(),
            self.minute_spec(),
            self.second_spec(),
        )
    }

    fn as_value(&self) -> (r: String) {
        let mut s = self.date.as_value();
        s.append("T");
        let h = pad2(self.hour);
        s.append(h.as_str());
        s.append(":");
        let mi = pad2(self.minute);
        s.append(mi.as_str());
        s.append(":");
        let sec = pad2(self.second);
        s.append(sec.as_str());
        s.append("Z");
        proof {
            reveal_strlit("T");
            reveal_strlit(":");
            reveal_strlit("Z");
            assert(s@ =~= self.value_spec());
        }
        s
    }
}

} // verus!
