//! Field arithmetic of the proleptic Gregorian calendar: leap years, month and
//! year lengths, the day of the year, and the Julian day number of a date.
//!
//! Everything here is a pure function of integers. The spec functions are the
//! mathematical model that the contracts of the date and time types speak of;
//! the executable functions compute them on machine integers.

use vstd::prelude::*;
use vstd::arithmetic::div_mod::{
    lemma_div_pos_is_pos, lemma_fundamental_div_mod, lemma_fundamental_div_mod_converse,
    lemma_mod_add_multiples_vanish, lemma_mod_bound,
};

verus! {

/// Smallest year a date of this library can hold.
pub const MIN_YEAR: i32 = -9999;

/// Largest year a date of this library can hold.
pub const MAX_YEAR: i32 = 9999;

/// Julian day number of the first representable date, -9999-01-01.
pub const MIN_JULIAN_DAY: i32 = -1_930_999;

/// Julian day number of the last representable date, 9999-12-31.
pub const MAX_JULIAN_DAY: i32 = 5_373_484;

/// Julian day number of 1970-01-01, the day that epoch counts start from.
pub const EPOCH_JULIAN_DAY: i32 = 2_440_588;

/// Whether `year` is a leap year: divisible by 4, and not by 100 unless also by 400.
pub open spec fn is_leap_year(year: int) -> bool {
    year % 4 == 0 && (year % 100 != 0 || year % 400 == 0)
}

/// Number of days in `year`.
pub open spec fn days_in_year(year: int) -> int {
    if is_leap_year(year) {
        366
    } else {
        365
    }
}

/// Number of days in month `month` (1 to 12) of a leap year or of a common year.
pub open spec fn month_days(month: int, leap: bool) -> int {
    if month == 2 {
        if leap {
            29
        } else {
            28
        }
    } else if month == 4 || month == 6 || month == 9 || month == 11 {
        30
    } else {
        31
    }
}

/// Number of days in month `month` (1 to 12) of `year`.
pub open spec fn days_in_month(year: int, month: int) -> int {
    month_days(month, is_leap_year(year))
}

/// Number of days of `year` that lie before the first day of month `month`.
pub open spec fn days_before_month(year: int, month: int) -> int {
    let common: int = if month <= 1 {
        0
    } else if month == 2 {
        31
    } else if month == 3 {
        59
    } else if month == 4 {
        90
    } else if month == 5 {
        120
    } else if month == 6 {
        151
    } else if month == 7 {
        181
    } else if month == 8 {
        212
    } else if month == 9 {
        243
    } else if month == 10 {
        273
    } else if month == 11 {
        304
    } else {
        334
    };
    if month > 2 && is_leap_year(year) {
        common + 1
    } else {
        common
    }
}

/// One-based position of the date within its year.
pub open spec fn day_of_year(year: int, month: int, day: int) -> int {
    days_before_month(year, month) + day
}

/// Whether (`year`, `month`, `day`) names a day of the calendar that this
/// library can represent.
pub open spec fn valid_date(year: int, month: int, day: int) -> bool {
    &&& MIN_YEAR <= year <= MAX_YEAR
    &&& 1 <= month <= 12
    &&& 1 <= day <= days_in_month(year, month)
}

/// Number of days between 0001-01-01 and the first day of `year`
/// (negative for years before 1).
pub open spec fn days_before_year(year: int) -> int {
    365 * (year - 1) + (year - 1) / 4 - (year - 1) / 100 + (year - 1) / 400
}

/// The Julian day number of a date: the count of days since -4713-11-24, so that
/// 0001-01-01 is day 1_721_426 and 1970-01-01 is day 2_440_588.
#[verifier::opaque]
pub open spec fn julian_day_number(year: int, month: int, day: int) -> int {
    days_before_year(year) + day_of_year(year, month, day) + 1_721_425
}

/// Whether the first date comes strictly before the second, field by field.
pub open spec fn date_precedes(y1: int, m1: int, d1: int, y2: int, m2: int, d2: int) -> bool {
    y1 < y2 || (y1 == y2 && (m1 < m2 || (m1 == m2 && d1 < d2)))
}

/// Each month starts where the one before it ends.
pub proof fn lemma_days_before_month_step(year: int, month: int)
    requires
        1 <= month < 12,
    ensures
        days_before_month(year, month + 1) == days_before_month(year, month) + days_in_month(
            year,
            month,
        ),
        days_before_month(year, 1) == 0,
        days_before_month(year, 12) + 31 == days_in_year(year),
{
}

/// The day of the year of a valid date lies within the year.
pub proof fn lemma_day_of_year_bounds(year: int, month: int, day: int)
    requires
        1 <= month <= 12,
        1 <= day <= days_in_month(year, month),
    ensures
        1 <= day_of_year(year, month, day) <= days_in_year(year),
        month < 12 ==> day_of_year(year, month, day) <= days_before_month(year, month + 1),
{
}

/// Each year starts where the one before it ends.
pub proof fn lemma_days_before_year_step(year: int)
    ensures
        days_before_year(year + 1) == days_before_year(year) + days_in_year(year),
{
    let y = year - 1;
    assert((y + 1) / 4 == if (y + 1) % 4 == 0 { y / 4 + 1 } else { y / 4 });
    assert((y + 1) / 100 == if (y + 1) % 100 == 0 { y / 100 + 1 } else { y / 100 });
    assert((y + 1) / 400 == if (y + 1) % 400 == 0 { y / 400 + 1 } else { y / 400 });
    assert((y + 1) % 400 == 0 ==> (y + 1) % 100 == 0);
    assert((y + 1) % 100 == 0 ==> (y + 1) % 4 == 0);
}

/// A later year starts at least 365 days per year later.
pub proof fn lemma_days_before_year_grows(y1: int, y2: int)
    requires
        y1 <= y2,
    ensures
        days_before_year(y2) - days_before_year(y1) >= 365 * (y2 - y1),
        days_before_year(y2) - days_before_year(y1) <= 366 * (y2 - y1),
    decreases y2 - y1,
{
    if y1 < y2 {
        lemma_days_before_year_grows(y1, y2 - 1);
        lemma_days_before_year_step(y2 - 1);
    }
}

/// Dates are ordered as their Julian day numbers are.
pub proof fn lemma_julian_day_monotonic(y1: int, m1: int, d1: int, y2: int, m2: int, d2: int)
    requires
        1 <= m1 <= 12,
        1 <= d1 <= days_in_month(y1, m1),
        1 <= m2 <= 12,
        1 <= d2 <= days_in_month(y2, m2),
    ensures
        date_precedes(y1, m1, d1, y2, m2, d2) <==> julian_day_number(y1, m1, d1)
            < julian_day_number(y2, m2, d2),
        (y1 == y2 && m1 == m2 && d1 == d2) <==> julian_day_number(y1, m1, d1)
            == julian_day_number(y2, m2, d2),
{
    reveal(julian_day_number);
    lemma_day_of_year_bounds(y1, m1, d1);
    lemma_day_of_year_bounds(y2, m2, d2);
    if y1 < y2 {
        lemma_days_before_year_grows(y1 + 1, y2);
        lemma_days_before_year_step(y1);
    } else if y2 < y1 {
        lemma_days_before_year_grows(y2 + 1, y1);
        lemma_days_before_year_step(y2);
    }
}

/// The Julian day numbers of the representable dates are exactly those from
/// `MIN_JULIAN_DAY` to `MAX_JULIAN_DAY`.
pub proof fn lemma_julian_day_bounds(year: int, month: int, day: int)
    requires
        valid_date(year, month, day),
    ensures
        MIN_JULIAN_DAY <= julian_day_number(year, month, day) <= MAX_JULIAN_DAY,
        julian_day_number(MIN_YEAR as int, 1, 1) == MIN_JULIAN_DAY,
        julian_day_number(MAX_YEAR as int, 12, 31) == MAX_JULIAN_DAY,
        julian_day_number(1970, 1, 1) == EPOCH_JULIAN_DAY,
{
    reveal(julian_day_number);
    lemma_julian_day_monotonic(MIN_YEAR as int, 1, 1, year, month, day);
    lemma_julian_day_monotonic(year, month, day, MAX_YEAR as int, 12, 31);
}

/// Within a month, and from the last day of a year to the first of the next,
/// the Julian day number goes up by one from each day to the next.
pub proof fn lemma_julian_day_counts_days(year: int, month: int, first: int, second: int)
    ensures
        julian_day_number(year, month, second) - julian_day_number(year, month, first) == second
            - first,
        julian_day_number(year + 1, 1, 1) == julian_day_number(year, 12, 31) + 1,
        julian_day_number(year, 1, 1) + days_in_year(year) == julian_day_number(year + 1, 1, 1),
{
    reveal(julian_day_number);
    lemma_days_before_year_step(year);
}

/// How the remainder that rounds toward zero relates to the one that is
/// never negative, for a negative `value`.
proof fn lemma_floor_of_negative(value: int, modulus: int)
    requires
        value < 0,
        modulus > 0,
    ensures
        (-value) % modulus == 0 ==> value % modulus == 0 && value / modulus == -((-value)
            / modulus),
        (-value) % modulus != 0 ==> value % modulus == modulus - (-value) % modulus && value
            / modulus == -((-value) / modulus) - 1,
{
    let a = -value;
    let q = a / modulus;
    let r = a % modulus;
    lemma_fundamental_div_mod(a, modulus);
    lemma_mod_bound(a, modulus);
    if r == 0 {
        assert(value == (-q) * modulus + 0) by (nonlinear_arith)
            requires
                a == modulus * q + r,
                r == 0,
                value == -a,
        ;
        lemma_fundamental_div_mod_converse(value, modulus, -q, 0);
    } else {
        assert(value == (-q - 1) * modulus + (modulus - r)) by (nonlinear_arith)
            requires
                a == modulus * q + r,
                value == -a,
        ;
        lemma_fundamental_div_mod_converse(value, modulus, -q - 1, modulus - r);
    }
}

/// The remainder of `value` by `modulus` that is never negative.
pub fn floor_mod(value: i64, modulus: i64) -> (remainder: i64)
    requires
        modulus > 0,
    ensures
        remainder == value % modulus,
        0 <= remainder < modulus,
{
    proof {
        lemma_mod_bound(value as int, modulus as int);
        if value < 0 {
            lemma_floor_of_negative(value as int, modulus as int);
            lemma_mod_bound(-(value as int), modulus as int);
        }
    }
    let truncated: i64 = value % modulus;
    if truncated < 0 {
        truncated + modulus
    } else {
        truncated
    }
}

/// The quotient of `value` by `modulus`, rounded down.
pub fn floor_div(value: i64, modulus: i64) -> (quotient: i64)
    requires
        modulus > 0,
    ensures
        quotient == value / modulus,
{
    proof {
        lemma_mod_bound(value as int, modulus as int);
        lemma_fundamental_div_mod(value as int, modulus as int);
        if value < 0 {
            lemma_floor_of_negative(value as int, modulus as int);
            lemma_mod_bound(-(value as int), modulus as int);
            lemma_fundamental_div_mod(-(value as int), modulus as int);
            lemma_div_bound(-(value as int), modulus as int);
            let q = value as int / modulus as int;
            let r = value as int % modulus as int;
            assert(q >= value) by (nonlinear_arith)
                requires
                    value == modulus * q + r,
                    0 <= r < modulus,
                    value < 0,
            ;
        }
    }
    let truncated: i64 = value / modulus;
    if value % modulus < 0 {
        truncated - 1
    } else {
        truncated
    }
}

/// The remainder of `value` by `modulus` that is never negative, on wide integers.
pub fn floor_mod_wide(value: i128, modulus: i128) -> (remainder: i128)
    requires
        modulus > 0,
    ensures
        remainder == value % modulus,
        0 <= remainder < modulus,
{
    proof {
        lemma_mod_bound(value as int, modulus as int);
        if value < 0 {
            lemma_floor_of_negative(value as int, modulus as int);
            lemma_mod_bound(-(value as int), modulus as int);
        }
    }
    if value == i128::MIN {
        let shifted: i128 = (value + modulus) % modulus;
        proof {
            lemma_mod_bound(value + modulus, modulus as int);
            lemma_mod_add_multiples_vanish(value as int, modulus as int);
            if value + modulus < 0 {
                lemma_floor_of_negative(value + modulus, modulus as int);
                lemma_mod_bound(-(value + modulus), modulus as int);
            }
        }
        return if shifted < 0 {
            shifted + modulus
        } else {
            shifted
        };
    }
    let truncated: i128 = value % modulus;
    if truncated < 0 {
        truncated + modulus
    } else {
        truncated
    }
}

/// The quotient of `value` by `modulus`, rounded down, on wide integers.
pub fn floor_div_wide(value: i128, modulus: i128) -> (quotient: i128)
    requires
        modulus > 0,
        value > i128::MIN,
    ensures
        quotient == value / modulus,
{
    proof {
        lemma_mod_bound(value as int, modulus as int);
        lemma_fundamental_div_mod(value as int, modulus as int);
        if value < 0 {
            lemma_floor_of_negative(value as int, modulus as int);
            lemma_mod_bound(-(value as int), modulus as int);
            lemma_fundamental_div_mod(-(value as int), modulus as int);
            lemma_div_bound(-(value as int), modulus as int);
        }
    }
    let truncated: i128 = value / modulus;
    if value % modulus < 0 {
        truncated - 1
    } else {
        truncated
    }
}

/// A quotient of a value that is not negative by a positive divisor is
/// neither negative nor larger than the value.
proof fn lemma_div_bound(value: int, modulus: int)
    requires
        value >= 0,
        modulus > 0,
    ensures
        0 <= value / modulus <= value,
{
    lemma_div_pos_is_pos(value, modulus);
    lemma_fundamental_div_mod(value, modulus);
    lemma_mod_bound(value, modulus);
    assert(value / modulus <= value) by (nonlinear_arith)
        requires
            value == modulus * (value / modulus) + value % modulus,
            value / modulus >= 0,
            modulus >= 1,
            value % modulus >= 0,
    ;
}

/// Executable form of [`is_leap_year`].
pub fn leap_year(year: i32) -> (leap: bool)
    ensures
        leap == is_leap_year(year as int),
{
    let y: i64 = year as i64;
    floor_mod(y, 4) == 0 && (floor_mod(y, 100) != 0 || floor_mod(y, 400) == 0)
}

/// Executable form of [`days_in_year`].
pub fn year_length(year: i32) -> (days: u16)
    ensures
        days == days_in_year(year as int),
{
    if leap_year(year) {
        366
    } else {
        365
    }
}

/// Executable form of [`days_in_month`].
pub fn month_length(year: i32, month: u8) -> (days: u8)
    requires
        1 <= month <= 12,
    ensures
        days == days_in_month(year as int, month as int),
{
    if month == 2 {
        if leap_year(year) {
            29
        } else {
            28
        }
    } else if month == 4 || month == 6 || month == 9 || month == 11 {
        30
    } else {
        31
    }
}

/// Executable form of [`valid_date`], on the integers that callers hand in.
pub fn is_valid_date(year: i32, month: i32, day: i32) -> (valid: bool)
    ensures
        valid == valid_date(year as int, month as int, day as int),
{
    if year < MIN_YEAR || year > MAX_YEAR || month < 1 || month > 12 || day < 1 || day > 31 {
        return false;
    }
    let last: u8 = month_length(year, month as u8);
    day <= last as i32
}

/// Executable form of [`day_of_year`].
pub fn ordinal_of(year: i32, month: u8, day: u8) -> (ordinal: u16)
    requires
        1 <= month <= 12,
        1 <= day <= days_in_month(year as int, month as int),
    ensures
        ordinal == day_of_year(year as int, month as int, day as int),
        1 <= ordinal <= days_in_year(year as int),
{
    let mut before: u16 = 0;
    let mut m: u8 = 1;
    while m < month
        invariant
            1 <= m <= month <= 12,
            before == days_before_month(year as int, m as int),
        decreases month - m,
    {
        let len: u8 = month_length(year, m);
        before = before + len as u16;
        m = m + 1;
    }
    before + day as u16
}

/// The month and day of the month of the `ordinal`-th day of `year`.
pub fn month_day_of_ordinal(year: i32, ordinal: u16) -> (md: (u8, u8))
    requires
        1 <= ordinal <= days_in_year(year as int),
    ensures
        1 <= md.0 <= 12,
        1 <= md.1 <= days_in_month(year as int, md.0 as int),
        day_of_year(year as int, md.0 as int, md.1 as int) == ordinal,
{
    let mut month: u8 = 1;
    let mut left: u16 = ordinal;
    loop
        invariant
            1 <= month <= 12,
            1 <= left,
            left + days_before_month(year as int, month as int) == ordinal,
            ordinal <= days_in_year(year as int),
        decreases 12 - month,
    {
        let len: u8 = month_length(year, month);
        if left <= len as u16 {
            return (month, left as u8);
        }
        left = left - len as u16;
        month = month + 1;
    }
}

} // verus!
