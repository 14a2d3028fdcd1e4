//! Calendar dates, their textual keys, and the per-day lookup results.

use chrono::Datelike;
use vstd::prelude::*;
use crate::text::{append_decimal, decimal, decimal_string, decimal_nat, is_decimal_digit, lemma_decimal_nat_shape};

verus! {

/// Years between the Gregorian era and the Buddhist era.
pub const BUDDHIST_ERA_OFFSET: i32 = 543;

/// The smallest year that the calendar library represents.
pub const MIN_SUPPORTED_YEAR: i32 = -262143;

/// The largest year that the calendar library represents.
pub const MAX_SUPPORTED_YEAR: i32 = 262142;

/// A Gregorian calendar date.
#[derive(Debug, Clone, Copy, PartialEq, Eq)]
pub struct DateTime {
    pub day: i32,
    pub month: i32,
    pub year: i32,
}

/// The two dates a lookup covers, and the Buddhist-era year that keys the
/// calendar feed.
#[derive(Debug, Clone, Copy)]
pub struct BuddhaDate {
    pub today: DateTime,
    pub tomorrow: DateTime,
    pub year: i32,
}

/// Whether one day is an observance day, with the text announcing it.
#[derive(Debug, Clone)]
pub struct BuddhaDay {
    pub description: String,
    pub found: bool,
}

/// The lookup results for today and for tomorrow.
#[derive(Debug, Clone)]
pub struct Buddha {
    pub today: BuddhaDay,
    pub tomorrow: BuddhaDay,
}

/// The query of a notification request.
#[derive(Debug, Clone)]
pub struct QueryParams {
    pub key: String,
}

pub open spec fn is_leap_year(y: int) -> bool {
    y % 4 == 0 && (y % 100 != 0 || y % 400 == 0)
}

pub open spec fn days_in_month(y: int, m: int) -> int {
    if m == 2 {
        if is_leap_year(y) { 29 } else { 28 }
    } else if m == 4 || m == 6 || m == 9 || m == 11 {
        30
    } else {
        31
    }
}

/// A proleptic Gregorian date within the range the calendar library handles.
pub open spec fn is_valid_date(y: int, m: int, d: int) -> bool {
    MIN_SUPPORTED_YEAR <= y <= MAX_SUPPORTED_YEAR && 1 <= m <= 12 && 1 <= d <= days_in_month(y, m)
}

/// The calendar day after a valid date.
pub open spec fn next_date(y: int, m: int, d: int) -> (int, int, int) {
    if d < days_in_month(y, m) {
        (y, m, d + 1)
    } else if m < 12 {
        (y, m + 1, 1)
    } else {
        (y + 1, 1, 1)
    }
}

/// Whether a valid date has a successor the calendar library can represent.
pub open spec fn has_next_date(y: int, m: int, d: int) -> bool {
    is_valid_date(y, m, d) && !(y == MAX_SUPPORTED_YEAR && m == 12 && d == 31)
}

/// Relies on chrono's `NaiveDate::from_ymd_opt`, which accepts exactly the
/// valid proleptic Gregorian dates of its year range, and `NaiveDate::succ_opt`,
/// which gives the following day unless the date is the last representable one.
#[verifier::external_body]
fn next_day(year: i32, month: u32, day: u32) -> (r: Option<(i32, u32, u32)>)
    ensures
        r is Some <==> has_next_date(year as int, month as int, day as int),
        match r {
            Some(t) => next_date(year as int, month as int, day as int) == (
                t.0 as int,
                t.1 as int,
                t.2 as int,
            ),
            None => true,
        },
{
    chrono::NaiveDate::from_ymd_opt(year, month, day)
        .and_then(|d| d.succ_opt())
        .map(|n| (n.year(), n.month(), n.day()))
}

/// Renders a month or a day number on at least two digits.
pub open spec fn two_digits(n: int) -> Seq<char> {
    if n > 9 {
        decimal(n)
    } else {
        seq!['0'] + decimal(n)
    }
}

/// The `YYYYMMDD` key of a date.
pub open spec fn date_key(d: DateTime) -> Seq<char> {
    decimal(d.year as int) + two_digits(d.month as int) + two_digits(d.day as int)
}

/// For a four-digit year and month and day numbers below a hundred, the key
/// of a date is eight digits: the year, then month and day each padded to
/// two digits.
pub proof fn lemma_date_key_shape(d: DateTime)
    requires
        1000 <= d.year <= 9999,
        0 <= d.month <= 99,
        0 <= d.day <= 99,
    ensures
        date_key(d).len() == 8,
        forall|i: int| 0 <= i < 8 ==> is_decimal_digit(#[trigger] date_key(d)[i]),
        date_key(d).subrange(0, 4) == decimal(d.year as int),
        date_key(d).subrange(4, 6) == two_digits(d.month as int),
        date_key(d).subrange(6, 8) == two_digits(d.day as int),
{
    lemma_decimal_nat_shape(d.year as nat);
    lemma_decimal_nat_shape(d.month as nat);
    lemma_decimal_nat_shape(d.day as nat);
    let y = decimal(d.year as int);
    let m = two_digits(d.month as int);
    let a = two_digits(d.day as int);
    assert(y.len() == 4);
    assert(m.len() == 2);
    assert(a.len() == 2);
    assert forall|i: int| 0 <= i < 2 implies is_decimal_digit(#[trigger] m[i]) by {
        if d.month <= 9 && i == 1 {
            assert(m[1] == decimal_nat(d.month as nat)[0]);
        }
    }
    assert forall|i: int| 0 <= i < 2 implies is_decimal_digit(#[trigger] a[i]) by {
        if d.day <= 9 && i == 1 {
            assert(a[1] == decimal_nat(d.day as nat)[0]);
        }
    }
    let k = date_key(d);
    assert(k =~= y + m + a);
    assert forall|i: int| 0 <= i < 8 implies is_decimal_digit(#[trigger] k[i]) by {
        if i < 4 {
            assert(k[i] == y[i]);
        } else if i < 6 {
            assert(k[i] == m[i - 4]);
        } else {
            assert(k[i] == a[i - 6]);
        }
    }
    assert(k.subrange(0, 4) =~= y);
    assert(k.subrange(4, 6) =~= m);
    assert(k.subrange(6, 8) =~= a);
}

/// The date that follows `d`, or `d` itself where no successor can be had.
pub open spec fn tomorrow_of(d: DateTime) -> DateTime {
    if d.month >= 0 && d.day >= 0 && has_next_date(d.year as int, d.month as int, d.day as int) {
        let n = next_date(d.year as int, d.month as int, d.day as int);
        DateTime { day: n.2 as i32, month: n.1 as i32, year: n.0 as i32 }
    } else {
        d
    }
}

/// Renders `n` with a leading zero when it is below ten.
pub fn format_number(n: i32) -> (r: String)
    ensures
        r@ == two_digits(n as int),
{
    if n > 9 {
        decimal_string(n as i64)
    } else {
        proof {
            reveal_strlit("0");
        }
        let mut s = String::from_str("0");
        append_decimal(&mut s, n as i64);
        s
    }
}

impl DateTime {
    /// The `YYYYMMDD` key under which the calendar feed lists this date.
    pub fn format_date(&self) -> (r: String)
        ensures
            r@ == date_key(*self),
    {
        let mut s = decimal_string(self.year as i64);
        let m = format_number(self.month);
        let d = format_number(self.day);
        s.append(m.as_str());
        s.append(d.as_str());
        s
    }
}

impl BuddhaDate {
    /// The lookup dates for a given day: that day, the day after it (or the
    /// day itself where no successor exists), and its Buddhist-era year.
    pub fn from_date(year: i32, month: i32, day: i32) -> (r: BuddhaDate)
        requires
            year + BUDDHIST_ERA_OFFSET <= i32::MAX,
        ensures
            r.today == (DateTime { day, month, year }),
            r.tomorrow == tomorrow_of(r.today),
            r.year == year + BUDDHIST_ERA_OFFSET,
    {
        let today = DateTime { day, month, year };
        let tomorrow = if month >= 0 && day >= 0 {
            match next_day(year, month as u32, day as u32) {
                Some(n) => DateTime { day: n.2 as i32, month: n.1 as i32, year: n.0 },
                None => today,
            }
        } else {
            today
        };
        BuddhaDate { today, tomorrow, year: year + BUDDHIST_ERA_OFFSET }
    }
}

/// The result for a day before any lookup.
pub open spec fn is_default_day(d: BuddhaDay) -> bool {
    d.description@.len() == 0 && !d.found
}

impl BuddhaDay {
    /// A day that is not an observance day.
    pub fn not_found() -> (r: BuddhaDay)
        ensures
            is_default_day(r),
    {
        BuddhaDay { description: String::new(), found: false }
    }
}

impl Buddha {
    /// Both days marked as not found, with empty descriptions.
    pub fn new() -> (r: Buddha)
        ensures
            is_default_day(r.today),
            is_default_day(r.tomorrow),
    {
        Buddha { today: BuddhaDay::not_found(), tomorrow: BuddhaDay::not_found() }
    }
}

} // verus!
