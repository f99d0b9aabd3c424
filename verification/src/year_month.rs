//! A month of a particular year.

use vstd::prelude::*;
use vstd::string::StringExecFns;
use crate::calendar::{days_in_month, floor_div, floor_mod, is_leap_year, leap_year, valid_date};
use crate::instant::Instant;
use crate::local_date::{lemma_date_is_on_its_epoch_day, LocalDate};
use crate::local_date_time::{lemma_date_time_splits_its_nanos, LocalDateTime};
use crate::month::{month_from_number, Month};
use crate::text::{append_padded_decimal, padded_decimal, signed_padded_decimal};

verus! {

/// A year and a month of it.
#[derive(Debug, Clone, Copy, PartialEq, Eq, Hash, PartialOrd, Ord, Structural)]
pub struct YearMonth {
    pub year: i32,
    pub month: Month,
}

impl YearMonth {
    /// The months from the start of year 0 to the start of this month.
    pub open spec fn month_count(self) -> int {
        self.year * 12 + (self.month.number() - 1)
    }

    /// Whether this month comes before `other`.
    pub open spec fn precedes(self, other: YearMonth) -> bool {
        self.year < other.year || (self.year == other.year && self.month.number()
            < other.month.number())
    }

    /// Month `month` (1 to 12) of `year`.
    pub fn of(year: i32, month: i32) -> (year_month: YearMonth)
        requires
            1 <= month <= 12,
        ensures
            year_month == (YearMonth { year, month: month_from_number(month as int) }),
            year_month.month.number() == month,
    {
        YearMonth { year, month: Month::of(month) }
    }

    /// The given month of `year`.
    pub fn of_year_month(year: i32, month: Month) -> (year_month: YearMonth)
        ensures
            year_month == (YearMonth { year, month }),
    {
        YearMonth { year, month }
    }

    /// The month of the present moment in UTC, as the system clock tells it.
    pub fn now() -> (year_month: YearMonth)
        ensures
            -9999 <= year_month.year <= 9999,
    {
        YearMonth::at_instant(Instant::now())
    }

    /// The month that a clock of UTC shows at `instant`: the year and month
    /// of the date that lies the instant's whole days after the epoch.
    pub fn at_instant(instant: Instant) -> (year_month: YearMonth)
        requires
            instant.wf(),
        ensures
            year_month.year == LocalDate::on_epoch_day(
                (instant.nanos as int) / (crate::local_time::NANOS_PER_DAY as int),
            ).year,
            year_month.month == month_from_number(
                LocalDate::on_epoch_day(
                    (instant.nanos as int) / (crate::local_time::NANOS_PER_DAY as int),
                ).month as int,
            ),
            -9999 <= year_month.year <= 9999,
    {
        let shown: LocalDateTime = LocalDateTime::from_local_nanos(instant.nanos);
        proof {
            lemma_date_time_splits_its_nanos(shown);
            lemma_date_is_on_its_epoch_day(shown.date);
        }
        YearMonth { year: shown.date.year, month: shown.date.month() }
    }

    /// The year.
    pub fn year(self) -> (year: i32)
        ensures
            year == self.year,
    {
        self.year
    }

    /// The month.
    pub fn month(self) -> (month: Month)
        ensures
            month == self.month,
    {
        self.month
    }

    /// The number of the month, from 1 to 12.
    pub fn month_value(self) -> (month: i32)
        ensures
            month == self.month.number(),
    {
        self.month.value()
    }

    /// Whether the year is a leap year.
    pub fn is_leap_year(self) -> (leap: bool)
        ensures
            leap == is_leap_year(self.year as int),
    {
        leap_year(self.year)
    }

    /// The number of days in the month.
    pub fn length_of_month(self) -> (days: i32)
        ensures
            days == days_in_month(self.year as int, self.month.number()),
    {
        let leap: bool = self.is_leap_year();
        self.month.length(leap)
    }

    /// The month `months` months later. The count goes over the ends of the
    /// years; the new year must fit an `i32`.
    pub fn plus_months(self, months: i64) -> (year_month: YearMonth)
        requires
            i32::MIN <= (self.month_count() + months) / 12 <= i32::MAX,
        ensures
            year_month.month_count() == self.month_count() + months,
            year_month.year == (self.month_count() + months) / 12,
            year_month.month.number() == (self.month_count() + months) % 12 + 1,
    {
        let base: i64 = (self.year as i64) * 12 + (self.month.value() as i64 - 1);
        let total: i64 = base + months;
        let year: i32 = floor_div(total, 12) as i32;
        let month: i32 = (floor_mod(total, 12) as i32) + 1;
        YearMonth { year, month: Month::of(month) }
    }

    /// The month `months` months earlier; the new year must fit an `i32`.
    pub fn minus_months(self, months: i64) -> (year_month: YearMonth)
        requires
            i32::MIN <= (self.month_count() - months) / 12 <= i32::MAX,
        ensures
            year_month.month_count() == self.month_count() - months,
            year_month.year == (self.month_count() - months) / 12,
            year_month.month.number() == (self.month_count() - months) % 12 + 1,
    {
        self.plus_months(-months)
    }

    /// The same month `years` years later; the new year must fit an `i32`.
    pub fn plus_years(self, years: i64) -> (year_month: YearMonth)
        requires
            i32::MIN <= self.year + years <= i32::MAX,
        ensures
            year_month == (YearMonth { year: (self.year + years) as i32, month: self.month }),
    {
        YearMonth { year: (self.year as i64 + years) as i32, month: self.month }
    }

    /// The same month `years` years earlier; the new year must fit an `i32`.
    pub fn minus_years(self, years: i64) -> (year_month: YearMonth)
        requires
            i32::MIN <= self.year - years <= i32::MAX,
        ensures
            year_month == (YearMonth { year: (self.year - years) as i32, month: self.month }),
    {
        YearMonth { year: (self.year as i64 - years) as i32, month: self.month }
    }

    /// Month `month` (1 to 12) of the same year.
    pub fn with_month(self, month: i32) -> (year_month: YearMonth)
        requires
            1 <= month <= 12,
        ensures
            year_month == (YearMonth { year: self.year, month: month_from_number(month as int) }),
    {
        YearMonth { year: self.year, month: Month::of(month) }
    }

    /// The same month of `year`.
    pub fn with_year(self, year: i32) -> (year_month: YearMonth)
        ensures
            year_month == (YearMonth { year, month: self.month }),
    {
        YearMonth { year, month: self.month }
    }

    /// Day `day` of this month, which must be a date that this library can hold.
    pub fn at_day(self, day: i32) -> (date: LocalDate)
        requires
            valid_date(self.year as int, self.month.number(), day as int),
        ensures
            date.wf(),
            date == (LocalDate {
                year: self.year,
                month: self.month.number() as u8,
                day: day as u8,
            }),
    {
        LocalDate::of(self.year, self.month.value(), day)
    }

    /// The first day of this month, in a year from -9999 to 9999.
    pub fn first_day_of_month(self) -> (date: LocalDate)
        requires
            -9999 <= self.year <= 9999,
        ensures
            date.wf(),
            date == (LocalDate { year: self.year, month: self.month.number() as u8, day: 1 }),
    {
        self.at_day(1)
    }

    /// The last day of this month, in a year from -9999 to 9999.
    pub fn last_day_of_month(self) -> (date: LocalDate)
        requires
            -9999 <= self.year <= 9999,
        ensures
            date.wf(),
            date == (LocalDate {
                year: self.year,
                month: self.month.number() as u8,
                day: days_in_month(self.year as int, self.month.number()) as u8,
            }),
    {
        let last: i32 = self.length_of_month();
        self.at_day(last)
    }

    /// Whether this month comes before `other`.
    pub fn is_before(self, other: YearMonth) -> (before: bool)
        ensures
            before == self.precedes(other),
            before == (self.month_count() < other.month_count()),
    {
        self.year < other.year || (self.year == other.year && self.month.value()
            < other.month.value())
    }

    /// Whether this month comes after `other`.
    pub fn is_after(self, other: YearMonth) -> (after: bool)
        ensures
            after == other.precedes(self),
            after == (self.month_count() > other.month_count()),
    {
        other.is_before(self)
    }

    /// Whether this month is `other` or comes before it.
    pub fn is_on_or_before(self, other: YearMonth) -> (on_or_before: bool)
        ensures
            on_or_before == !other.precedes(self),
            on_or_before == (self.month_count() <= other.month_count()),
    {
        !self.is_after(other)
    }

    /// Whether this month is `other` or comes after it.
    pub fn is_on_or_after(self, other: YearMonth) -> (on_or_after: bool)
        ensures
            on_or_after == !self.precedes(other),
            on_or_after == (self.month_count() >= other.month_count()),
    {
        !self.is_before(other)
    }

    /// The month as text: the year in a field of four characters and the
    /// month in two digits, with a hyphen between them, such as `2020-05`.
    pub fn to_string(&self) -> (text: String)
        ensures
            text@ == signed_padded_decimal(self.year as int, 4) + seq!['-'] + padded_decimal(
                self.month.number() as nat,
                2,
            ),
    {
        let mut text: String = String::new();
        proof {
            reveal_strlit("-");
        }
        if self.year < 0 {
            text.append("-");
            append_padded_decimal(&mut text, (-(self.year as i64)) as u64, 3);
        } else {
            append_padded_decimal(&mut text, self.year as u64, 4);
        }
        assert(text@ =~= signed_padded_decimal(self.year as int, 4));
        text.append("-");
        append_padded_decimal(&mut text, self.month.value() as u64, 2);
        assert(text@ =~= signed_padded_decimal(self.year as int, 4) + seq!['-'] + padded_decimal(
            self.month.number() as nat,
            2,
        ));
        text
    }
}

} // verus!
