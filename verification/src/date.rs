//! Calendar dates in the proleptic Gregorian calendar.
//!
//! A [`Date`] is a plain year/month/day triple; its meaning is given by
//! [`day_number`], the count of days with 0001-01-01 as day 1.  Arithmetic on
//! dates goes through `chrono`, whose behaviour on these values is stated by
//! the contracts of the private items at the end of this file.

use vstd::prelude::*;
use chrono::Datelike;

verus! {

/// Smallest year that a date can carry.
pub const MIN_YEAR: i32 = -262143;

/// Largest year that a date can carry.
pub const MAX_YEAR: i32 = 262142;

pub open spec fn is_leap_year(y: int) -> bool {
    y % 4 == 0 && (y % 100 != 0 || y % 400 == 0)
}

/// Number of days in month `m` (1..=12) of year `y`.
pub open spec fn month_length(y: int, m: int) -> int {
    if m == 2 {
        if is_leap_year(y) { 29 } else { 28 }
    } else if m == 4 || m == 6 || m == 9 || m == 11 {
        30
    } else {
        31
    }
}

/// Days of year `y` that come before the first of month `m` (1..=13).
pub open spec fn days_before_month(y: int, m: int) -> int {
    let common: int = if m <= 1 { 0 }
        else if m == 2 { 31 }
        else if m == 3 { 59 }
        else if m == 4 { 90 }
        else if m == 5 { 120 }
        else if m == 6 { 151 }
        else if m == 7 { 181 }
        else if m == 8 { 212 }
        else if m == 9 { 243 }
        else if m == 10 { 273 }
        else if m == 11 { 304 }
        else if m == 12 { 334 }
        else { 365 };
    if m > 2 && is_leap_year(y) { common + 1 } else { common }
}

/// Days before January 1 of year `y`, counted from January 1 of year 1.
pub open spec fn days_before_year(y: int) -> int {
    let p = y - 1;
    365 * p + p / 4 - p / 100 + p / 400
}

/// The day number of a calendar date: 0001-01-01 is day 1.
pub open spec fn day_number(y: int, m: int, d: int) -> int {
    days_before_year(y) + days_before_month(y, m) + d
}

pub open spec fn is_valid_ymd(y: int, m: int, d: int) -> bool {
    &&& MIN_YEAR <= y <= MAX_YEAR
    &&& 1 <= m <= 12
    &&& 1 <= d <= month_length(y, m)
}

/// Day number of the first representable date.
pub open spec fn min_day_number() -> int {
    day_number(MIN_YEAR as int, 1, 1)
}

/// Day number of the last representable date.
pub open spec fn max_day_number() -> int {
    day_number(MAX_YEAR as int, 12, 31)
}

/// The date that chrono reads from `s` in the format `%Y-%m-%d`, if any.
pub uninterp spec fn parsed_date(s: Seq<char>) -> Option<Date>;

/// The character of a decimal digit.
pub open spec fn digit_char(v: int) -> char {
    (48 + v) as char
}

/// Decimal digits of `n`, without leading zeros.
pub open spec fn decimal(n: nat) -> Seq<char>
    decreases n,
{
    if n < 10 {
        seq![digit_char(n as int)]
    } else {
        decimal(n / 10).push(digit_char((n % 10) as int))
    }
}

/// `s` with zeros put in front until it is `w` characters long.
pub open spec fn zero_pad(s: Seq<char>, w: nat) -> Seq<char>
    decreases w - s.len(),
{
    if s.len() >= w {
        s
    } else {
        zero_pad(seq!['0'] + s, w)
    }
}

/// A year as `%Y` writes it: four digits at least, with a sign outside 0..=9999.
pub open spec fn year_text(y: int) -> Seq<char> {
    if 0 <= y <= 9999 {
        zero_pad(decimal(y as nat), 4)
    } else if y < 0 {
        seq!['-'] + zero_pad(decimal((-y) as nat), 4)
    } else {
        seq!['+'] + zero_pad(decimal(y as nat), 4)
    }
}

/// A date as `%Y-%m-%d` writes it.
pub open spec fn ymd_text(d: Date) -> Seq<char> {
    year_text(d.year as int) + seq!['-'] + zero_pad(decimal(d.month as nat), 2) + seq!['-']
        + zero_pad(decimal(d.day as nat), 2)
}

/// A month's abbreviated English name, as `%b` writes it.
pub open spec fn month_abbrev(m: int) -> Seq<char> {
    if m == 1 { "Jan"@ } else if m == 2 { "Feb"@ } else if m == 3 { "Mar"@ } else if m == 4 { "Apr"@ }
    else if m == 5 { "May"@ } else if m == 6 { "Jun"@ } else if m == 7 { "Jul"@ } else if m == 8 { "Aug"@ }
    else if m == 9 { "Sep"@ } else if m == 10 { "Oct"@ } else if m == 11 { "Nov"@ } else { "Dec"@ }
}

/// A month's full English name, as `%B` writes it.
pub open spec fn month_full(m: int) -> Seq<char> {
    if m == 1 { "January"@ } else if m == 2 { "February"@ } else if m == 3 { "March"@ } else if m == 4 { "April"@ }
    else if m == 5 { "May"@ } else if m == 6 { "June"@ } else if m == 7 { "July"@ } else if m == 8 { "August"@ }
    else if m == 9 { "September"@ } else if m == 10 { "October"@ } else if m == 11 { "November"@ } else { "December"@ }
}

/// A weekday's full English name, counted from Monday, as `%A` writes it.
pub open spec fn weekday_full(w: int) -> Seq<char> {
    if w == 0 { "Monday"@ } else if w == 1 { "Tuesday"@ } else if w == 2 { "Wednesday"@ } else if w == 3 { "Thursday"@ }
    else if w == 4 { "Friday"@ } else if w == 5 { "Saturday"@ } else { "Sunday"@ }
}

/// A date as `%b %-d` writes it: `Jun 5`.
pub open spec fn short_text(d: Date) -> Seq<char> {
    month_abbrev(d.month as int) + seq![' '] + decimal(d.day as nat)
}

/// A date as `%b %d` writes it: `Jun 05`.
pub open spec fn short_padded_text(d: Date) -> Seq<char> {
    month_abbrev(d.month as int) + seq![' '] + zero_pad(decimal(d.day as nat), 2)
}

/// A date as `%b %d, %Y` writes it: `Jun 05, 2026`.
pub open spec fn medium_text(d: Date) -> Seq<char> {
    short_padded_text(d) + seq![',', ' '] + year_text(d.year as int)
}

/// A date as `%A, %B %d, %Y` writes it: `Friday, June 05, 2026`.
pub open spec fn long_text(d: Date) -> Seq<char> {
    weekday_full(d.spec_weekday_from_monday()) + seq![',', ' '] + month_full(d.month as int) + seq![' ']
        + zero_pad(decimal(d.day as nat), 2) + seq![',', ' '] + year_text(d.year as int)
}

/// A calendar date.
#[derive(Clone, Copy, Debug, PartialEq, Eq, Structural, PartialOrd, Ord, Hash)]
pub struct Date {
    pub year: i32,
    pub month: u32,
    pub day: u32,
}

impl Date {
    pub open spec fn valid(self) -> bool {
        is_valid_ymd(self.year as int, self.month as int, self.day as int)
    }

    /// The day number of this date (0001-01-01 is day 1).
    pub open spec fn days(self) -> int {
        day_number(self.year as int, self.month as int, self.day as int)
    }

    /// Weekday counted from Monday (Monday is 0, Sunday is 6).
    pub open spec fn spec_weekday_from_monday(self) -> int {
        (self.days() - 1) % 7
    }

    /// Weekday counted from Sunday (Sunday is 0, Saturday is 6).
    pub open spec fn spec_weekday_from_sunday(self) -> int {
        self.days() % 7
    }

    /// Makes a date from a year, a month and a day; `None` when no such date exists.
    pub fn from_ymd_opt(year: i32, month: u32, day: u32) -> (r: Option<Date>)
        ensures
            r == (if is_valid_ymd(year as int, month as int, day as int) {
                Some(Date { year, month, day })
            } else {
                None::<Date>
            }),
    {
        chrono_from_ymd(year, month, day)
    }

    /// The day number of this date (0001-01-01 is day 1).
    pub fn num_days_from_ce(&self) -> (r: i32)
        requires
            self.valid(),
        ensures
            r == self.days(),
    {
        chrono_num_days_from_ce(self)
    }

    /// The date with the given day number, when it is representable.
    pub fn from_num_days_from_ce_opt(n: i32) -> (r: Option<Date>)
        ensures
            r is Some <==> min_day_number() <= n <= max_day_number(),
            r matches Some(d) ==> d.valid() && d.days() == n,
    {
        chrono_from_num_days(n)
    }

    /// Weekday counted from Monday (Monday is 0).
    pub fn weekday_from_monday(&self) -> (r: u32)
        requires
            self.valid(),
        ensures
            r == self.spec_weekday_from_monday(),
            r < 7,
    {
        chrono_weekday_from_monday(self)
    }

    /// Weekday counted from Sunday (Sunday is 0).
    pub fn weekday_from_sunday(&self) -> (r: u32)
        requires
            self.valid(),
        ensures
            r == self.spec_weekday_from_sunday(),
            r < 7,
    {
        let w = chrono_weekday_from_monday(self);
        proof {
            lemma_weekday_shift(self.days());
        }
        if w == 6 { 0 } else { w + 1 }
    }

    /// The date `n` days after this one (before it when `n` is negative), when representable.
    pub fn add_days(&self, n: i64) -> (r: Option<Date>)
        requires
            self.valid(),
        ensures
            r is Some <==> min_day_number() <= self.days() + n <= max_day_number(),
            r matches Some(d) ==> d.valid() && d.days() == self.days() + n,
    {
        let base = chrono_num_days_from_ce(self);
        proof {
            lemma_day_number_bounds(self.year as int, self.month as int, self.day as int);
        }
        if n < -300_000_000 || n > 300_000_000 {
            return None;
        }
        let target: i64 = base as i64 + n;
        if target < i32::MIN as i64 || target > i32::MAX as i64 {
            return None;
        }
        chrono_from_num_days(target as i32)
    }

    /// Reads a date written `YYYY-MM-DD`, as `chrono` does with `%Y-%m-%d`;
    /// what `format_ymd` writes reads back as the same date.
    pub fn parse_ymd(s: &str) -> (r: Option<Date>)
        ensures
            r == parsed_date(s@),
            r matches Some(d) ==> d.valid(),
            forall|d: Date| d.valid() && s@ == #[trigger] ymd_text(d) ==> r == Some(d),
    {
        chrono_parse_ymd(s)
    }

    /// The date written `YYYY-MM-DD`.
    pub fn format_ymd(&self) -> (r: String)
        requires
            self.valid(),
        ensures
            r@ == ymd_text(*self),
    {
        chrono_format_date(self, "%Y-%m-%d")
    }

    /// The date written `Jun 5`.
    pub fn format_short(&self) -> (r: String)
        requires
            self.valid(),
        ensures
            r@ == short_text(*self),
    {
        chrono_format_date(self, "%b %-d")
    }

    /// The date written `Jun 05`.
    pub fn format_short_padded(&self) -> (r: String)
        requires
            self.valid(),
        ensures
            r@ == short_padded_text(*self),
    {
        chrono_format_date(self, "%b %d")
    }

    /// The date written `Jun 05, 2026`.
    pub fn format_medium(&self) -> (r: String)
        requires
            self.valid(),
        ensures
            r@ == medium_text(*self),
    {
        chrono_format_date(self, "%b %d, %Y")
    }

    /// The date written `Friday, June 05, 2026`.
    pub fn format_long(&self) -> (r: String)
        requires
            self.valid(),
        ensures
            r@ == long_text(*self),
    {
        chrono_format_date(self, "%A, %B %d, %Y")
    }

    /// The day after this one, when representable.
    pub fn succ_opt(&self) -> (r: Option<Date>)
        requires
            self.valid(),
        ensures
            r is Some <==> self.days() + 1 <= max_day_number(),
            r matches Some(d) ==> d.valid() && d.days() == self.days() + 1,
    {
        proof {
            lemma_day_number_bounds(self.year as int, self.month as int, self.day as int);
        }
        self.add_days(1)
    }

    /// The day before this one, when representable.
    pub fn pred_opt(&self) -> (r: Option<Date>)
        requires
            self.valid(),
        ensures
            r is Some <==> min_day_number() <= self.days() - 1,
            r matches Some(d) ==> d.valid() && d.days() == self.days() - 1,
    {
        proof {
            lemma_day_number_bounds(self.year as int, self.month as int, self.day as int);
        }
        self.add_days(-1)
    }
}

/// Counting from Sunday is counting from Monday shifted by one day.
pub proof fn lemma_weekday_shift(k: int)
    ensures
        (k - 1) % 7 == 6 ==> k % 7 == 0,
        (k - 1) % 7 != 6 ==> k % 7 == (k - 1) % 7 + 1,
{
}

/// Every valid date lies between the first and the last representable day,
/// and its day number fits comfortably in an `i32`.
pub proof fn lemma_day_number_bounds(y: int, m: int, d: int)
    requires
        is_valid_ymd(y, m, d),
    ensures
        min_day_number() <= day_number(y, m, d) <= max_day_number(),
        -100_000_000 < day_number(y, m, d) < 100_000_000,
{
    assert(days_before_year(y) <= days_before_year(MAX_YEAR as int)) by {
        lemma_days_before_year_monotonic(y, MAX_YEAR as int);
    }
    assert(days_before_year(MIN_YEAR as int) <= days_before_year(y)) by {
        lemma_days_before_year_monotonic(MIN_YEAR as int, y);
    }
}

/// A valid date's day falls within its year.
proof fn lemma_day_within_year(y: int, m: int, d: int)
    requires
        is_valid_ymd(y, m, d),
    ensures
        1 <= days_before_month(y, m) + d <= (if is_leap_year(y) { 366int } else { 365int }),
{
}

/// Within one year, the days of an earlier month come before those of a later one.
proof fn lemma_months_ordered(y: int, m1: int, d1: int, m2: int, d2: int)
    requires
        is_valid_ymd(y, m1, d1),
        is_valid_ymd(y, m2, d2),
        m1 < m2,
    ensures
        days_before_month(y, m1) + d1 < days_before_month(y, m2) + d2,
{
}

/// Two valid dates with the same day number are the same date.
pub proof fn law_day_number_identifies_date(a: Date, b: Date)
    requires
        a.valid(),
        b.valid(),
        a.days() == b.days(),
    ensures
        a == b,
{
    lemma_day_within_year(a.year as int, a.month as int, a.day as int);
    lemma_day_within_year(b.year as int, b.month as int, b.day as int);
    if a.year < b.year {
        lemma_days_before_year_step(a.year as int);
        lemma_days_before_year_monotonic(a.year as int + 1, b.year as int);
    } else if b.year < a.year {
        lemma_days_before_year_step(b.year as int);
        lemma_days_before_year_monotonic(b.year as int + 1, a.year as int);
    } else if a.month < b.month {
        lemma_months_ordered(a.year as int, a.month as int, a.day as int, b.month as int, b.day as int);
    } else if b.month < a.month {
        lemma_months_ordered(a.year as int, b.month as int, b.day as int, a.month as int, a.day as int);
    }
}

/// Day numbers of Januaries grow with the year.
pub proof fn lemma_days_before_year_monotonic(a: int, b: int)
    requires
        a <= b,
    ensures
        days_before_year(a) + 365 * (b - a) <= days_before_year(b),
        days_before_year(b) <= days_before_year(a) + 366 * (b - a),
    decreases b - a,
{
    if a < b {
        lemma_days_before_year_monotonic(a, b - 1);
        lemma_days_before_year_step(b - 1);
    }
}

/// Consecutive years differ by the length of the first.
pub proof fn lemma_days_before_year_step(y: int)
    ensures
        days_before_year(y + 1) == days_before_year(y) + (if is_leap_year(y) { 366int } else { 365int }),
{
    let p = y - 1;
    assert((p + 1) / 4 == p / 4 + (if y % 4 == 0 { 1int } else { 0int }));
    assert((p + 1) / 100 == p / 100 + (if y % 100 == 0 { 1int } else { 0int }));
    assert((p + 1) / 400 == p / 400 + (if y % 400 == 0 { 1int } else { 0int }));
}

/// The decimal digits of `n` are digits, and there is at least one.
proof fn lemma_decimal_digits(n: nat)
    ensures
        decimal(n).len() > 0,
        forall|i: int| 0 <= i < decimal(n).len() ==> '0' <= #[trigger] decimal(n)[i] <= '9',
    decreases n,
{
    if n >= 10 {
        lemma_decimal_digits(n / 10);
    }
}

/// Padding keeps the last character, and puts a zero or the first character first.
proof fn lemma_zero_pad_ends(s: Seq<char>, w: nat)
    requires
        s.len() > 0,
    ensures
        zero_pad(s, w).len() > 0,
        zero_pad(s, w).last() == s.last(),
        zero_pad(s, w)[0] == '0' || zero_pad(s, w)[0] == s[0],
    decreases w - s.len(),
{
    if s.len() < w {
        lemma_zero_pad_ends(seq!['0'] + s, w);
    }
}

/// A date written `YYYY-MM-DD` has no white space at either end.
pub proof fn lemma_ymd_text_trimmed(d: Date)
    ensures
        crate::text::trimmed(ymd_text(d)) == ymd_text(d),
{
    let t = ymd_text(d);
    let y = d.year as int;
    let yn: nat = if y < 0 { (-y) as nat } else { y as nat };
    lemma_decimal_digits(yn);
    lemma_decimal_digits(d.day as nat);
    lemma_zero_pad_ends(decimal(yn), 4);
    lemma_zero_pad_ends(decimal(d.day as nat), 2);
    let yt = year_text(y);
    let dt = zero_pad(decimal(d.day as nat), 2);
    assert(yt.len() > 0);
    assert(t[0] == yt[0]);
    assert(t.last() == dt.last());
    assert(decimal(d.day as nat).last() == decimal(d.day as nat)[decimal(d.day as nat).len() - 1]);
    assert(decimal(yn)[0] == decimal(yn)[0]);
    assert(!crate::text::is_white_space(t[0]));
    assert(!crate::text::is_white_space(t[t.len() - 1]));
    crate::text::lemma_trimmed(t, 0, t.len() as int);
    assert(t.subrange(0, t.len() as int) =~= t);
}

// ---------------------------------------------------------------------------
// chrono
// ---------------------------------------------------------------------------

/// `chrono::NaiveDate::from_ymd_opt`: a date exists exactly when the month is
/// 1..=12, the day lies within that month of that year, and the year is within
/// chrono's range.
#[verifier::external_body]
fn chrono_from_ymd(year: i32, month: u32, day: u32) -> (r: Option<Date>)
    ensures
        r == (if is_valid_ymd(year as int, month as int, day as int) {
            Some(Date { year, month, day })
        } else {
            None::<Date>
        }),
{
    chrono::NaiveDate::from_ymd_opt(year, month, day).map(|d| Date { year: d.year(), month: d.month(), day: d.day() })
}

/// `chrono::Datelike::num_days_from_ce`: the day number with 0001-01-01 as day 1.
#[verifier::external_body]
fn chrono_num_days_from_ce(d: &Date) -> (r: i32)
    requires
        d.valid(),
    ensures
        r == d.days(),
{
    chrono::NaiveDate::from_ymd_opt(d.year, d.month, d.day).unwrap().num_days_from_ce()
}

/// `chrono::NaiveDate::from_num_days_from_ce_opt`: the date with the given day
/// number, `None` outside chrono's range.
#[verifier::external_body]
fn chrono_from_num_days(n: i32) -> (r: Option<Date>)
    ensures
        r is Some <==> min_day_number() <= n <= max_day_number(),
        r matches Some(d) ==> d.valid() && d.days() == n,
{
    chrono::NaiveDate::from_num_days_from_ce_opt(n).map(|d| Date { year: d.year(), month: d.month(), day: d.day() })
}

/// `chrono::Weekday::num_days_from_monday` of a date's weekday: 0001-01-01 is a
/// Monday, and weekdays repeat every seven days.
#[verifier::external_body]
fn chrono_weekday_from_monday(d: &Date) -> (r: u32)
    requires
        d.valid(),
    ensures
        r == (d.days() - 1) % 7,
{
    chrono::NaiveDate::from_ymd_opt(d.year, d.month, d.day).unwrap().weekday().num_days_from_monday()
}

/// `chrono::NaiveDate::parse_from_str` with the format `%Y-%m-%d`: the parsed
/// date is named by `parsed_date`; a parsed date is always a valid date, and a
/// date written as `format` writes it with `%Y-%m-%d` (four digits at least
/// for the year, a sign outside 0..=9999) reads back as that date.
#[verifier::external_body]
fn chrono_parse_ymd(s: &str) -> (r: Option<Date>)
    ensures
        r == parsed_date(s@),
        r matches Some(d) ==> d.valid(),
        forall|d: Date| d.valid() && s@ == #[trigger] ymd_text(d) ==> r == Some(d),
{
    chrono::NaiveDate::parse_from_str(s, "%Y-%m-%d").ok().map(|d| Date { year: d.year(), month: d.month(), day: d.day() })
}

/// `chrono::NaiveDate::format`, written to a `String`, for the formats the
/// panels use: `%Y` is the year zero-padded to four digits (with a sign
/// outside 0..=9999), `%m` and `%d` are zero-padded to two digits, `%-d` is the
/// day without padding, `%b` and `%B` are the month's abbreviated and full
/// English names, `%A` is the weekday's full English name.  Only these five
/// formats are admitted: chrono reports a pattern it cannot write as an error,
/// on which `to_string` panics.
#[verifier::external_body]
fn chrono_format_date(d: &Date, fmt: &str) -> (r: String)
    requires
        d.valid(),
        fmt@ == "%Y-%m-%d"@ || fmt@ == "%b %-d"@ || fmt@ == "%b %d"@ || fmt@ == "%b %d, %Y"@ || fmt@
            == "%A, %B %d, %Y"@,
    ensures
        fmt@ == "%Y-%m-%d"@ ==> r@ == ymd_text(*d),
        fmt@ == "%b %-d"@ ==> r@ == short_text(*d),
        fmt@ == "%b %d"@ ==> r@ == short_padded_text(*d),
        fmt@ == "%b %d, %Y"@ ==> r@ == medium_text(*d),
        fmt@ == "%A, %B %d, %Y"@ ==> r@ == long_text(*d),
{
    chrono::NaiveDate::from_ymd_opt(d.year, d.month, d.day).unwrap().format(fmt).to_string()
}

} // verus!
