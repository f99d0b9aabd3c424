//! A year of the proleptic Gregorian calendar.

use vstd::prelude::*;
use crate::calendar::{
    days_in_year, is_leap_year, julian_day_number, leap_year, valid_date, MAX_JULIAN_DAY, MAX_YEAR,
    MIN_YEAR,
};
use crate::instant::Instant;
use crate::local_date::{LocalDate, MAX_EPOCH_DAY};
use crate::local_time::NANOS_PER_DAY;
use crate::month::Month;
use crate::text::{signed_decimal, signed_decimal_string};
use crate::year_month::YearMonth;

verus! {

/// A year. Any `i32` is a year; only the years from -9999 to 9999 have dates.
#[derive(Debug, Clone, Copy, PartialEq, Eq, Hash, PartialOrd, Ord, Structural)]
pub struct Year(pub i32);

impl Year {
    /// The year with the given number.
    pub fn of(value: i32) -> (year: Year)
        ensures
            year.0 == value,
    {
        Year(value)
    }

    /// The number of the year.
    pub fn value(self) -> (value: i32)
        ensures
            value == self.0,
    {
        self.0
    }

    /// The year that a clock of UTC shows at `instant`: the year of the date
    /// that lies the instant's whole days after the epoch.
    pub fn at_instant(instant: Instant) -> (year: Year)
        requires
            instant.wf(),
        ensures
            year.0 == LocalDate::on_epoch_day(
                (instant.nanos as int) / (NANOS_PER_DAY as int),
            ).year,
            -9999 <= year.0 <= 9999,
    {
        Year(YearMonth::at_instant(instant).year)
    }

    /// Whether the year is a leap year.
    pub fn is_leap(self) -> (leap: bool)
        ensures
            leap == is_leap_year(self.0 as int),
    {
        leap_year(self.0)
    }

    /// The number of days in the year: 366 in a leap year, else 365.
    pub fn length(self) -> (days: i32)
        ensures
            days == days_in_year(self.0 as int),
    {
        if self.is_leap() {
            366
        } else {
            365
        }
    }

    /// The year `years` years later. Its number must fit an `i32`.
    pub fn plus(self, years: i32) -> (year: Year)
        requires
            i32::MIN <= self.0 + years <= i32::MAX,
        ensures
            year.0 == self.0 + years,
    {
        Year(self.0 + years)
    }

    /// The year `years` years earlier. Its number must fit an `i32`.
    pub fn minus(self, years: i32) -> (year: Year)
        requires
            i32::MIN <= self.0 - years <= i32::MAX,
        ensures
            year.0 == self.0 - years,
    {
        Year(self.0 - years)
    }

    /// Whether this year comes before `other`.
    pub fn is_before(self, other: Year) -> (before: bool)
        ensures
            before == (self.0 < other.0),
    {
        self.0 < other.0
    }

    /// Whether this year comes after `other`.
    pub fn is_after(self, other: Year) -> (after: bool)
        ensures
            after == (self.0 > other.0),
    {
        self.0 > other.0
    }

    /// Whether this year is `other` or comes before it.
    pub fn is_on_or_before(self, other: Year) -> (on_or_before: bool)
        ensures
            on_or_before == (self.0 <= other.0),
    {
        self.0 <= other.0
    }

    /// Whether this year is `other` or comes after it.
    pub fn is_on_or_after(self, other: Year) -> (on_or_after: bool)
        ensures
            on_or_after == (self.0 >= other.0),
    {
        self.0 >= other.0
    }

    /// The given month of this year.
    pub fn at_month(self, month: Month) -> (year_month: YearMonth)
        ensures
            year_month == (YearMonth { year: self.0, month }),
    {
        YearMonth::of_year_month(self.0, month)
    }

    /// The given day of the given month of this year, which must be a date
    /// that this library can hold.
    pub fn at_month_day(self, month: Month, day: u8) -> (date: LocalDate)
        requires
            valid_date(self.0 as int, month.number(), day as int),
        ensures
            date.wf(),
            date == (LocalDate { year: self.0, month: month.number() as u8, day }),
    {
        LocalDate::of(self.0, month.value(), day as i32)
    }

    /// The date that lies `day_of_year` less one days after the first of
    /// January of this year, or the last date that this library can hold if
    /// that comes first. A count beyond the length of the year leads into the
    /// years that follow. The count must be at least 1, and the year one from
    /// -9999 to 9999.
    pub fn at_day(self, day_of_year: u16) -> (date: LocalDate)
        requires
            MIN_YEAR <= self.0 <= MAX_YEAR,
            day_of_year >= 1,
        ensures
            date.wf(),
            date.julian_day() == {
                let target = julian_day_number(self.0 as int, 1, 1) + day_of_year - 1;
                if target > MAX_JULIAN_DAY {
                    MAX_JULIAN_DAY as int
                } else {
                    target
                }
            },
    {
        let first = LocalDate::of(self.0, 1, 1);
        let room: i64 = MAX_EPOCH_DAY - first.to_epoch_day();
        let days: i64 = (day_of_year as i64) - 1;
        first.plus_days(if days > room { room } else { days })
    }

    /// The year as text: its number in decimal digits, with a minus sign
    /// before a negative number.
    pub fn to_string(&self) -> (text: String)
        ensures
            text@ == signed_decimal(self.0 as int),
    {
        signed_decimal_string(self.0 as i64)
    }
}

} // verus!
