//! Proleptic Gregorian calendar dates: validity, a day count that orders
//! them, stepping back by days, and the `YYYY-MM-DD` rendering.

use vstd::prelude::*;

use crate::text::{digit_of, push_char, pad2, pad4};
use chrono::Datelike;

verus! {

/// One calendar date. `month` runs from 1 to 12 and `day` from 1 to the
/// length of that month, as `valid` states.
#[derive(Clone, Copy, PartialEq, Eq, Structural, Debug)]
pub struct Date {
    pub year: i32,
    pub month: u8,
    pub day: u8,
}

/// Whether `y` is a leap year of the proleptic Gregorian calendar,
/// meaningful for `y >= 0`.
pub open spec fn is_leap_year(y: int) -> bool {
    (y % 4 == 0 && y % 100 != 0) || y % 400 == 0
}

/// The number of days in month `m` of year `y`, meaningful for `1 <= m <= 12`.
pub open spec fn days_in_month(y: int, m: int) -> int {
    if m == 2 {
        if is_leap_year(y) {
            29
        } else {
            28
        }
    } else if m == 4 || m == 6 || m == 9 || m == 11 {
        30
    } else {
        31
    }
}

/// The number of days of year `y` that lie before month `m`.
pub open spec fn days_before_month(y: int, m: int) -> int
    recommends
        1 <= m <= 12,
    decreases m,
{
    if m <= 1 {
        0
    } else {
        days_before_month(y, m - 1) + days_in_month(y, m - 1)
    }
}

/// The number of days in year `y`.
pub open spec fn days_in_year(y: int) -> int {
    if is_leap_year(y) {
        366
    } else {
        365
    }
}

/// The number of days that lie before January 1 of year `y`, counting from
/// January 1 of year 0.
pub open spec fn days_before_year(y: int) -> int
    recommends
        0 <= y,
    decreases y,
{
    if y <= 0 {
        0
    } else {
        days_before_year(y - 1) + days_in_year(y - 1)
    }
}

/// The position of `d` in the run of days, with year 0, January 1 as day 0.
/// Meaningful for valid dates with `year >= 0`.
pub open spec fn day_number(d: Date) -> int {
    days_before_year(d.year as int) + days_before_month(d.year as int, d.month as int) + d.day - 1
}

impl Date {
    /// The date names an existing day of its month.
    pub open spec fn valid(self) -> bool {
        &&& 1 <= self.month <= 12
        &&& 1 <= self.day <= days_in_month(self.year as int, self.month as int)
    }
}

/// Whether `year` is a leap year.
pub fn leap_year(year: i32) -> (r: bool)
    requires
        0 <= year,
    ensures
        r == is_leap_year(year as int),
{
    year % 4 == 0 && (year % 100 != 0 || year % 400 == 0)
}

/// The number of days in the given month.
pub fn month_len(year: i32, month: u8) -> (r: u8)
    requires
        0 <= year,
        1 <= month <= 12,
    ensures
        r == days_in_month(year as int, month as int),
{
    if month == 2 {
        if leap_year(year) {
            29
        } else {
            28
        }
    } else if month == 4 || month == 6 || month == 9 || month == 11 {
        30
    } else {
        31
    }
}

/// Days of a year that lie before any of its months are never negative.
proof fn lemma_days_before_month_nonneg(y: int, m: int)
    requires
        1 <= m,
    ensures
        days_before_month(y, m) >= 0,
    decreases m,
{
    if m > 1 {
        lemma_days_before_month_nonneg(y, m - 1);
    }
}

/// Days before a year are never negative.
proof fn lemma_days_before_year_nonneg(y: int)
    requires
        0 <= y,
    ensures
        days_before_year(y) >= 0,
    decreases y,
{
    if y > 0 {
        lemma_days_before_year_nonneg(y - 1);
    }
}

/// From year 1 on, at least one full year of days lies behind.
proof fn lemma_days_before_year_lower(y: int)
    requires
        1 <= y,
    ensures
        days_before_year(y) >= 365,
{
    lemma_days_before_year_nonneg(y - 1);
}

/// The twelve month lengths of year `y` sum to the length of the year.
proof fn lemma_months_cover_year(y: int)
    ensures
        days_before_month(y, 12) + 31 == days_in_year(y),
{
    assert(days_before_month(y, 1) == 0);
    assert(days_before_month(y, 2) == 31);
    assert(days_before_month(y, 3) == days_before_month(y, 2) + days_in_month(y, 2));
    assert(days_before_month(y, 4) == days_before_month(y, 3) + 31);
    assert(days_before_month(y, 5) == days_before_month(y, 4) + 30);
    assert(days_before_month(y, 6) == days_before_month(y, 5) + 31);
    assert(days_before_month(y, 7) == days_before_month(y, 6) + 30);
    assert(days_before_month(y, 8) == days_before_month(y, 7) + 31);
    assert(days_before_month(y, 9) == days_before_month(y, 8) + 31);
    assert(days_before_month(y, 10) == days_before_month(y, 9) + 30);
    assert(days_before_month(y, 11) == days_before_month(y, 10) + 31);
    assert(days_before_month(y, 12) == days_before_month(y, 11) + 30);
}

/// The calendar day just before `d`.
pub fn prev_day(d: Date) -> (r: Date)
    requires
        d.valid(),
        0 <= d.year,
        day_number(d) >= 1,
    ensures
        r.valid(),
        0 <= r.year <= d.year,
        day_number(r) == day_number(d) - 1,
{
    if d.day > 1 {
        Date { year: d.year, month: d.month, day: d.day - 1 }
    } else if d.month > 1 {
        let pm = d.month - 1;
        Date { year: d.year, month: pm, day: month_len(d.year, pm) }
    } else {
        proof {
            if d.year == 0 {
                assert(day_number(d) == 0);
            }
            lemma_months_cover_year(d.year - 1);
        }
        Date { year: d.year - 1, month: 12, day: 31 }
    }
}

/// The calendar day exactly one week before `d`.
pub fn week_before(d: Date) -> (r: Date)
    requires
        d.valid(),
        1 <= d.year,
    ensures
        r.valid(),
        0 <= r.year <= d.year,
        day_number(r) == day_number(d) - 7,
{
    proof {
        lemma_days_before_year_lower(d.year as int);
        lemma_days_before_month_nonneg(d.year as int, d.month as int);
    }
    let mut cur = d;
    let mut i: u8 = 0;
    while i < 7
        invariant
            i <= 7,
            cur.valid(),
            0 <= cur.year <= d.year,
            day_number(cur) == day_number(d) - i,
            day_number(d) >= 7,
        decreases 7 - i,
    {
        cur = prev_day(cur);
        i = i + 1;
    }
    cur
}

/// The date rendered as `YYYY-MM-DD`, fields zero padded.
pub open spec fn date_str(d: Date) -> Seq<char> {
    pad4(d.year as int) + seq!['-'] + pad2(d.month as int) + seq!['-'] + pad2(d.day as int)
}

/// Renders the date as `YYYY-MM-DD`.
pub fn format_date(d: Date) -> (r: String)
    requires
        d.valid(),
        0 <= d.year <= 9999,
    ensures
        r@ == date_str(d),
        r@.len() == 10,
{
    let y = d.year as u32;
    let m = d.month as u32;
    let dd = d.day as u32;
    let mut s = String::new();
    push_char(&mut s, digit_of(y / 1000));
    push_char(&mut s, digit_of((y / 100) % 10));
    push_char(&mut s, digit_of((y / 10) % 10));
    push_char(&mut s, digit_of(y % 10));
    push_char(&mut s, '-');
    push_char(&mut s, digit_of(m / 10));
    push_char(&mut s, digit_of(m % 10));
    push_char(&mut s, '-');
    push_char(&mut s, digit_of(dd / 10));
    push_char(&mut s, digit_of(dd % 10));
    proof {
        assert(s@ =~= date_str(d));
    }
    s
}

/// Relies on chrono: `Local::now().date_naive()` is the current local
/// calendar date, and on a `NaiveDate` the `Datelike` accessors `year`,
/// `month` and `day` always name a valid proleptic Gregorian date whose year
/// lies between -262143 and 262142.  `Local::now` itself aborts on a system
/// clock outside chrono's range; with no argument to constrain, that cannot
/// be excluded here.
#[verifier::external_body]
pub(crate) fn current_local_date() -> (d: Date)
    ensures
        d.valid(),
        -262143 <= d.year <= 262142,
{
    let now = chrono::Local::now().date_naive();
    Date { year: now.year(), month: now.month() as u8, day: now.day() as u8 }
}

} // verus!
