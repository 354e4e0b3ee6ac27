//! Calendar dates: validation, parsing, day numbering and temporal
//! classification.
//!
//! Dates follow the proleptic Gregorian calendar.  A date is written on the
//! command line as `YYYY-MM-DD`, with exactly four digits for the year and
//! two for month and day.  A string that does not have that shape is a
//! format error; one that has the shape but does not name a real calendar
//! day (such as a thirty-second of December) is a value error.  Date
//! validation is strict throughout: an invalid date string fails the
//! request instead of degrading to a current-weather query.

use vstd::prelude::*;

use crate::error::WeatherError;

verus! {

/// A calendar date in the proleptic Gregorian calendar, with the year
/// restricted to the four-digit range that the date syntax can express.
#[derive(Clone, Copy, Debug, PartialEq, Eq, Structural)]
pub struct Date {
    pub year: u32,
    pub month: u32,
    pub day: u32,
}

/// A year has 366 days when it is divisible by four, except that century
/// years need to be divisible by four hundred.
pub open spec fn is_leap_year(y: int) -> bool {
    (y % 4 == 0 && y % 100 != 0) || y % 400 == 0
}

/// How many days the given month of the given year has; zero for a month
/// number outside one to twelve.
pub open spec fn days_in_month(y: int, m: int) -> int {
    if m == 1 {
        31
    } else if m == 2 {
        if is_leap_year(y) {
            29
        } else {
            28
        }
    } else if m == 3 {
        31
    } else if m == 4 {
        30
    } else if m == 5 {
        31
    } else if m == 6 {
        30
    } else if m == 7 {
        31
    } else if m == 8 {
        31
    } else if m == 9 {
        30
    } else if m == 10 {
        31
    } else if m == 11 {
        30
    } else if m == 12 {
        31
    } else {
        0
    }
}

/// A real calendar day with a four-digit year.
pub open spec fn valid_date(y: int, m: int, d: int) -> bool {
    &&& 0 <= y <= 9999
    &&& 1 <= m <= 12
    &&& 1 <= d <= days_in_month(y, m)
}

impl Date {
    /// The date names a real calendar day.
    pub open spec fn wf(self) -> bool {
        valid_date(self.year as int, self.month as int, self.day as int)
    }
}

/// Whether `a` is strictly before `b` in calendar order.
pub open spec fn date_lt(a: Date, b: Date) -> bool {
    ||| a.year < b.year
    ||| (a.year == b.year && a.month < b.month)
    ||| (a.year == b.year && a.month == b.month && a.day < b.day)
}

/// Whether `a` is on or before `b` in calendar order.
pub open spec fn date_le(a: Date, b: Date) -> bool {
    date_lt(a, b) || a == b
}

/// Leap year test.
pub fn leap_year(y: u32) -> (r: bool)
    ensures
        r == is_leap_year(y as int),
{
    (y % 4 == 0 && y % 100 != 0) || y % 400 == 0
}

/// The number of days in a month; zero for a month number outside one to
/// twelve.
pub fn month_length(y: u32, m: u32) -> (r: u32)
    ensures
        r == days_in_month(y as int, m as int),
{
    if m == 2 {
        if leap_year(y) {
            29
        } else {
            28
        }
    } else if m == 4 || m == 6 || m == 9 || m == 11 {
        30
    } else if 1 <= m && m <= 12 {
        31
    } else {
        0
    }
}

/// Whether `a` is strictly before `b` in calendar order.
pub fn date_before(a: &Date, b: &Date) -> (r: bool)
    ensures
        r == date_lt(*a, *b),
{
    a.year < b.year || (a.year == b.year && (a.month < b.month || (a.month == b.month && a.day
        < b.day)))
}

/// The length of a year in days.
pub open spec fn year_length(y: int) -> int {
    if is_leap_year(y) {
        366
    } else {
        365
    }
}

/// Days in all years before `y`, counted from the first day of year zero.
pub open spec fn days_before_year(y: int) -> int
    decreases y,
{
    if y <= 0 {
        0
    } else {
        days_before_year(y - 1) + year_length(y - 1)
    }
}

/// Days in all months of year `y` before month `m`.
pub open spec fn days_before_month(y: int, m: int) -> int
    decreases m,
{
    if m <= 1 {
        0
    } else {
        days_before_month(y, m - 1) + days_in_month(y, m - 1)
    }
}

/// The rank of a date among all days of the calendar: the number of days
/// between the first day of year zero and the given date.
pub open spec fn day_number(d: Date) -> int {
    days_before_year(d.year as int) + days_before_month(d.year as int, d.month as int) + d.day - 1
}

/// The day number of the Unix epoch, 1970-01-01.
pub open spec fn epoch_day_number() -> int {
    day_number(Date { year: 1970, month: 1, day: 1 })
}

/// The Unix timestamp of midday UTC on the given date.
pub open spec fn midday_timestamp(d: Date) -> int {
    (day_number(d) - epoch_day_number()) * 86400 + 43200
}

proof fn lemma_days_before_year_mono(y1: int, y2: int)
    requires
        0 <= y1 <= y2,
    ensures
        days_before_year(y1) + 365 * (y2 - y1) <= days_before_year(y2),
    decreases y2 - y1,
{
    if y1 < y2 {
        lemma_days_before_year_mono(y1, y2 - 1);
    }
}

proof fn lemma_days_before_month_mono(y: int, m1: int, m2: int)
    requires
        1 <= m1 <= m2 <= 13,
    ensures
        days_before_month(y, m1) <= days_before_month(y, m2),
    decreases m2 - m1,
{
    if m1 < m2 {
        lemma_days_before_month_mono(y, m1, m2 - 1);
    }
}

proof fn lemma_year_end(y: int)
    ensures
        days_before_month(y, 13) == year_length(y),
{
    reveal_with_fuel(days_before_month, 13);
}

/// Within its year, a valid date falls strictly before the year's end.
proof fn lemma_day_in_year_bound(d: Date)
    requires
        d.wf(),
    ensures
        0 <= days_before_month(d.year as int, d.month as int) + d.day - 1 < year_length(
            d.year as int,
        ),
{
    let y = d.year as int;
    let m = d.month as int;
    lemma_days_before_month_mono(y, 1, m);
    assert(days_before_month(y, m + 1) == days_before_month(y, m) + days_in_month(y, m));
    lemma_days_before_month_mono(y, m + 1, 13);
    lemma_year_end(y);
}

proof fn lemma_date_lt_day_number(a: Date, b: Date)
    requires
        a.wf(),
        b.wf(),
        date_lt(a, b),
    ensures
        day_number(a) < day_number(b),
{
    if a.year < b.year {
        lemma_day_in_year_bound(a);
        assert(days_before_year(a.year as int + 1) == days_before_year(a.year as int)
            + year_length(a.year as int));
        lemma_days_before_year_mono(a.year as int + 1, b.year as int);
        lemma_days_before_month_mono(b.year as int, 1, b.month as int);
    } else if a.month < b.month {
        let y = a.year as int;
        assert(days_before_month(y, a.month as int + 1) == days_before_month(y, a.month as int)
            + days_in_month(y, a.month as int));
        lemma_days_before_month_mono(y, a.month as int + 1, b.month as int);
    }
}

/// Day numbering agrees with calendar order: one date lies strictly before
/// another exactly when its day number is smaller, and two valid dates are
/// equal exactly when their day numbers coincide.
pub proof fn lemma_day_number_orders_dates(a: Date, b: Date)
    requires
        a.wf(),
        b.wf(),
    ensures
        date_lt(a, b) <==> day_number(a) < day_number(b),
        (a == b) <==> day_number(a) == day_number(b),
{
    if date_lt(a, b) {
        lemma_date_lt_day_number(a, b);
    }
    if date_lt(b, a) {
        lemma_date_lt_day_number(b, a);
    }
    if !date_lt(a, b) && !date_lt(b, a) {
        assert(a.year == b.year && a.month == b.month && a.day == b.day);
        assert(a == b);
    }
}

impl Date {
    /// Computes the day number of a valid date.
    pub fn to_day_number(&self) -> (n: u32)
        requires
            self.wf(),
        ensures
            n == day_number(*self),
            n < 3700000,
    {
        let mut days: u32 = 0;
        let mut y: u32 = 0;
        while y < self.year
            invariant
                y <= self.year <= 9999,
                days == days_before_year(y as int),
                days <= 366 * y,
            decreases self.year - y,
        {
            if leap_year(y) {
                days = days + 366;
            } else {
                days = days + 365;
            }
            y = y + 1;
        }
        let mut m: u32 = 1;
        while m < self.month
            invariant
                self.wf(),
                1 <= m <= self.month,
                days == days_before_year(self.year as int) + days_before_month(
                    self.year as int,
                    m as int,
                ),
                days <= 366 * self.year + 31 * (m - 1),
            decreases self.month - m,
        {
            days = days + month_length(self.year, m);
            m = m + 1;
        }
        days + self.day - 1
    }

    /// The Unix timestamp of midday UTC on this date.
    pub fn to_midday_timestamp(&self) -> (t: i64)
        requires
            self.wf(),
        ensures
            t == midday_timestamp(*self),
    {
        let dn = self.to_day_number();
        let epoch = Date { year: 1970, month: 1, day: 1 };
        let en = epoch.to_day_number();
        (dn as i64 - en as i64) * 86400 + 43200
    }
}

/// Which request shape a dated query takes: a date on or before today is
/// answered from history, a later date from the forecast.
#[derive(Clone, Copy, Debug, PartialEq, Eq, Structural)]
pub enum TemporalMode {
    Historical,
    Forecast { days_from_now: i64 },
}

/// Classifies a requested date against today's date.
///
/// A date on or before today is historical.  A future date is a forecast
/// request whose window length counts today through the target date
/// inclusively: one more day than the distance in days.
pub fn classify_date(target: &Date, today: &Date) -> (m: TemporalMode)
    requires
        target.wf(),
        today.wf(),
    ensures
        date_le(*target, *today) ==> m == TemporalMode::Historical,
        date_lt(*today, *target) ==> (m matches TemporalMode::Forecast { days_from_now }
            && days_from_now == day_number(*target) - day_number(*today) + 1 && days_from_now
            >= 2),
{
    if date_before(today, target) {
        let dt = target.to_day_number();
        let dn = today.to_day_number();
        proof {
            lemma_date_lt_day_number(*today, *target);
        }
        TemporalMode::Forecast { days_from_now: dt as i64 - dn as i64 + 1 }
    } else {
        proof {
            if !date_lt(*target, *today) {
                assert(target.year == today.year && target.month == today.month && target.day
                    == today.day);
                assert(*target == *today);
            }
        }
        TemporalMode::Historical
    }
}

/// Relies on chrono::Local::now and chrono::Datelike's year, month and day
/// of the naive local date: the result is today's date in the machine's
/// local time zone, and a chrono date always names a real calendar day.
#[verifier::external_body]
fn local_now_ymd() -> (r: (i64, u32, u32))
    ensures
        1 <= r.1 <= 12,
        1 <= r.2 <= days_in_month(r.0 as int, r.1 as int),
{
    let now = chrono::Local::now().date_naive();
    (
        chrono::Datelike::year(&now) as i64,
        chrono::Datelike::month(&now),
        chrono::Datelike::day(&now),
    )
}

/// Today's date by the local clock, if it falls in the four-digit year
/// range that the date syntax can express.
pub fn today() -> (r: Option<Date>)
    ensures
        r matches Some(d) ==> d.wf(),
{
    let (y, m, d) = local_now_ymd();
    if 0 <= y && y <= 9999 {
        Some(Date { year: y as u32, month: m, day: d })
    } else {
        None
    }
}

/// A decimal digit character.
pub open spec fn is_digit(c: char) -> bool {
    48 <= c as u32 <= 57
}

/// The numeric value of a decimal digit character.
pub open spec fn digit_val(c: char) -> int {
    c as u32 - 48
}

/// The fixed lexical shape of a date string: four digits, a dash, two
/// digits, a dash, two digits.
pub open spec fn is_date_shape(s: Seq<char>) -> bool {
    &&& s.len() == 10
    &&& is_digit(s[0])
    &&& is_digit(s[1])
    &&& is_digit(s[2])
    &&& is_digit(s[3])
    &&& s[4] == '-'
    &&& is_digit(s[5])
    &&& is_digit(s[6])
    &&& s[7] == '-'
    &&& is_digit(s[8])
    &&& is_digit(s[9])
}

/// The year written in a date-shaped string.
pub open spec fn parsed_year(s: Seq<char>) -> int {
    digit_val(s[0]) * 1000 + digit_val(s[1]) * 100 + digit_val(s[2]) * 10 + digit_val(s[3])
}

/// The month written in a date-shaped string.
pub open spec fn parsed_month(s: Seq<char>) -> int {
    digit_val(s[5]) * 10 + digit_val(s[6])
}

/// The day written in a date-shaped string.
pub open spec fn parsed_day(s: Seq<char>) -> int {
    digit_val(s[8]) * 10 + digit_val(s[9])
}

/// The date written in a date-shaped string.
pub open spec fn parsed_date(s: Seq<char>) -> Date {
    Date {
        year: parsed_year(s) as u32,
        month: parsed_month(s) as u32,
        day: parsed_day(s) as u32,
    }
}

/// Reads one character of a date string as a digit, or fails.
fn read_digit(s: &str, i: usize) -> (r: Result<u32, WeatherError>)
    requires
        i < s@.len(),
    ensures
        is_digit(s@[i as int]) <==> r is Ok,
        r is Ok ==> r->Ok_0 == digit_val(s@[i as int]) && r->Ok_0 <= 9,
        r is Err ==> r == Err::<u32, WeatherError>(WeatherError::InvalidDateFormat),
{
    let c: u32 = s.get_char(i) as u32;
    if 48 <= c && c <= 57 {
        Ok(c - 48)
    } else {
        Err(WeatherError::InvalidDateFormat)
    }
}

/// Parses a `YYYY-MM-DD` date string.
///
/// A string without the fixed lexical shape is an `InvalidDateFormat`
/// error; a well-shaped string that does not name a real calendar day is an
/// `InvalidDateValue` error.
pub fn parse_date(s: &str) -> (r: Result<Date, WeatherError>)
    ensures
        !is_date_shape(s@) ==> r == Err::<Date, WeatherError>(WeatherError::InvalidDateFormat),
        is_date_shape(s@) && !valid_date(parsed_year(s@), parsed_month(s@), parsed_day(s@)) ==> r
            == Err::<Date, WeatherError>(WeatherError::InvalidDateValue),
        is_date_shape(s@) && valid_date(parsed_year(s@), parsed_month(s@), parsed_day(s@)) ==> {
            &&& r == Ok::<Date, WeatherError>(parsed_date(s@))
            &&& parsed_date(s@).wf()
        },
{
    if s.unicode_len() != 10 {
        return Err(WeatherError::InvalidDateFormat);
    }
    if s.get_char(4) != '-' || s.get_char(7) != '-' {
        return Err(WeatherError::InvalidDateFormat);
    }
    let y0 = match read_digit(s, 0) {
        Ok(v) => v,
        Err(e) => {
            return Err(e);
        },
    };
    let y1 = match read_digit(s, 1) {
        Ok(v) => v,
        Err(e) => {
            return Err(e);
        },
    };
    let y2 = match read_digit(s, 2) {
        Ok(v) => v,
        Err(e) => {
            return Err(e);
        },
    };
    let y3 = match read_digit(s, 3) {
        Ok(v) => v,
        Err(e) => {
            return Err(e);
        },
    };
    let m0 = match read_digit(s, 5) {
        Ok(v) => v,
        Err(e) => {
            return Err(e);
        },
    };
    let m1 = match read_digit(s, 6) {
        Ok(v) => v,
        Err(e) => {
            return Err(e);
        },
    };
    let d0 = match read_digit(s, 8) {
        Ok(v) => v,
        Err(e) => {
            return Err(e);
        },
    };
    let d1 = match read_digit(s, 9) {
        Ok(v) => v,
        Err(e) => {
            return Err(e);
        },
    };
    let year: u32 = y0 * 1000 + y1 * 100 + y2 * 10 + y3;
    let month: u32 = m0 * 10 + m1;
    let day: u32 = d0 * 10 + d1;
    if month < 1 || month > 12 {
        return Err(WeatherError::InvalidDateValue);
    }
    if day < 1 || day > month_length(year, month) {
        return Err(WeatherError::InvalidDateValue);
    }
    Ok(Date { year, month, day })
}

} // verus!

