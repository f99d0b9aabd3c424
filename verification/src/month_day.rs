//! A day of a month, in no particular year.

use vstd::prelude::*;
use crate::calendar::{days_in_month, leap_year, month_days, MAX_YEAR, MIN_YEAR};
use crate::local_date::{smaller, LocalDate};
use crate::month::{month_from_number, Month};

verus! {

/// A month and a day of it, such as the 29th of February. The day is one that
/// the month has in some year.
#[derive(Debug, Clone, Copy, PartialEq, Eq, Hash, PartialOrd, Ord, Structural)]
pub struct MonthDay {
    pub month: Month,
    pub day: u8,
}

impl MonthDay {
    /// The invariant: the month has the day in a leap year.
    pub open spec fn wf(self) -> bool {
        1 <= self.day <= month_days(self.month.number(), true)
    }

    /// Whether this day comes before `other` in a year.
    pub open spec fn precedes(self, other: MonthDay) -> bool {
        self.month.number() < other.month.number() || (self.month.number()
            == other.month.number() && self.day < other.day)
    }

    /// Day `day` of month `month` (1 to 12). The month must have the day in
    /// some year: the 29th of February is one, the 30th is not.
    pub fn of(month: i32, day: u8) -> (month_day: MonthDay)
        requires
            1 <= month <= 12,
            1 <= day <= month_days(month as int, true),
        ensures
            month_day.wf(),
            month_day == (MonthDay { month: month_from_number(month as int), day }),
    {
        MonthDay::of_month_day(Month::of(month), day)
    }

    /// Day `day` of the given month. The month must have the day in some year.
    pub fn of_month_day(month: Month, day: u8) -> (month_day: MonthDay)
        requires
            1 <= day <= month_days(month.number(), true),
        ensures
            month_day.wf(),
            month_day == (MonthDay { month, day }),
    {
        MonthDay { month, day }
    }

    /// Whether the month has the day in some year.
    pub fn is_valid(month: Month, day: u8) -> (valid: bool)
        ensures
            valid == (1 <= day <= month_days(month.number(), true)),
    {
        day >= 1 && (day as i32) <= month.max_length()
    }

    /// The month.
    pub fn month(self) -> (month: Month)
        ensures
            month == self.month,
    {
        self.month
    }

    /// The number of the month, from 1 to 12.
    pub fn month_value(self) -> (month: i32)
        ensures
            month == self.month.number(),
    {
        self.month.value()
    }

    /// The day of the month.
    pub fn day_of_month(self) -> (day: u8)
        ensures
            day == self.day,
    {
        self.day
    }

    /// Whether this day comes before `other` in a year.
    pub fn is_before(self, other: MonthDay) -> (before: bool)
        ensures
            before == self.precedes(other),
    {
        self.month.value() < other.month.value() || (self.month.value() == other.month.value()
            && self.day < other.day)
    }

    /// Whether this day comes after `other` in a year.
    pub fn is_after(self, other: MonthDay) -> (after: bool)
        ensures
            after == other.precedes(self),
    {
        other.is_before(self)
    }

    /// Whether this day is `other` or comes before it in a year.
    pub fn is_on_or_before(self, other: MonthDay) -> (on_or_before: bool)
        ensures
            on_or_before == !other.precedes(self),
    {
        !self.is_after(other)
    }

    /// Whether this day is `other` or comes after it in a year.
    pub fn is_on_or_after(self, other: MonthDay) -> (on_or_after: bool)
        ensures
            on_or_after == !self.precedes(other),
    {
        !self.is_before(other)
    }

    /// This day in `year`; the 28th of February for the 29th where the year
    /// has none.
    pub fn at_year(self, year: i32) -> (date: LocalDate)
        requires
            self.wf(),
            MIN_YEAR <= year <= MAX_YEAR,
        ensures
            date.wf(),
            date == (LocalDate {
                year,
                month: self.month.number() as u8,
                day: smaller(self.day as int, days_in_month(year as int, self.month.number()))
                    as u8,
            }),
    {
        let leap: bool = leap_year(year);
        let max_for_year: i32 = self.month.length(leap);
        let mut day: i32 = self.day as i32;
        if day > max_for_year {
            day = max_for_year;
        }
        LocalDate::of(year, self.month.value(), day)
    }
}

} // verus!
