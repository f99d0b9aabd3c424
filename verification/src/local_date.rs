//! A date of the proleptic Gregorian calendar, without a time of day.

use vstd::prelude::*;
use crate::calendar::{
    date_precedes, day_of_year, days_in_month, days_in_year, floor_div, floor_mod, is_leap_year,
    is_valid_date, julian_day_number, leap_year, lemma_julian_day_bounds,
    lemma_julian_day_counts_days, lemma_julian_day_monotonic, month_day_of_ordinal, month_length,
    ordinal_of, valid_date, year_length, EPOCH_JULIAN_DAY, MAX_JULIAN_DAY, MAX_YEAR, MIN_JULIAN_DAY,
    MIN_YEAR,
};
use crate::civil::{date_of_julian_day, julian_day_of, weekday_of};
use crate::day_of_week::{day_of_week_from_number, DayOfWeek};
use crate::duration::Duration;
use crate::local_date_time::LocalDateTime;
use crate::local_time::LocalTime;
use crate::month::{month_from_number, Month};

verus! {

/// The days from 1970-01-01 to the first representable date, -9999-01-01.
pub const MIN_EPOCH_DAY: i64 = -4_371_587;

/// The days from 1970-01-01 to the last representable date, 9999-12-31.
pub const MAX_EPOCH_DAY: i64 = 2_932_896;

/// The number of days to go forward from a `from` day of the week to reach
/// the next `to` day, from 0 (the same day of the week) to 6.
pub open spec fn days_forward(from: DayOfWeek, to: DayOfWeek) -> int {
    (to.number() - from.number() + 7) % 7
}

/// The smaller of two integers.
pub open spec fn smaller(a: int, b: int) -> int {
    if a <= b {
        a
    } else {
        b
    }
}

/// A date: year, month of the year and day of the month.
#[derive(Debug, Clone, Copy, PartialEq, Eq, Hash, PartialOrd, Ord, Structural)]
pub struct LocalDate {
    pub year: i32,
    pub month: u8,
    pub day: u8,
}

impl LocalDate {
    /// The invariant of a date: it names a day of the calendar, in a year
    /// from -9999 to 9999.
    pub open spec fn wf(self) -> bool {
        valid_date(self.year as int, self.month as int, self.day as int)
    }

    /// The Julian day number of the date.
    pub open spec fn julian_day(self) -> int {
        julian_day_number(self.year as int, self.month as int, self.day as int)
    }

    /// The days from 1970-01-01 to the date; negative before 1970.
    pub open spec fn days_since_epoch(self) -> int {
        self.julian_day() - EPOCH_JULIAN_DAY
    }

    /// The date that lies `days` days after 1970-01-01, for a count of days
    /// from `MIN_EPOCH_DAY` to `MAX_EPOCH_DAY`; there is one such date for
    /// each, see [`lemma_date_is_on_its_epoch_day`].
    pub open spec fn on_epoch_day(days: int) -> LocalDate {
        choose|date: LocalDate| date.wf() && date.days_since_epoch() == days
    }

    /// The position of the date within its year, from 1.
    pub open spec fn ordinal(self) -> int {
        day_of_year(self.year as int, self.month as int, self.day as int)
    }

    /// The day of the week that the date falls on.
    pub open spec fn weekday(self) -> DayOfWeek {
        day_of_week_from_number(self.julian_day() % 7 + 1)
    }

    /// Whether this date comes before `other` in the calendar.
    pub open spec fn precedes(self, other: LocalDate) -> bool {
        date_precedes(
            self.year as int,
            self.month as int,
            self.day as int,
            other.year as int,
            other.month as int,
            other.day as int,
        )
    }

    /// The months from the start of year 0 to the start of the date's month.
    pub open spec fn month_count(self) -> int {
        self.year * 12 + (self.month - 1)
    }

    /// The date `months` months after this one: the month that lies that many
    /// months later, and in it the same day of the month, or the last day of
    /// the month where the month is too short.
    pub open spec fn months_later(self, months: int) -> LocalDate {
        let count = self.month_count() + months;
        let year = count / 12;
        let month = count % 12 + 1;
        LocalDate {
            year: year as i32,
            month: month as u8,
            day: smaller(self.day as int, days_in_month(year, month)) as u8,
        }
    }

    /// The date `months` months before this one: the date that lies the negated
    /// count of months later.
    pub open spec fn months_earlier(self, months: int) -> LocalDate {
        self.months_later(-months)
    }

    /// The date `years` years after this one: the same month and day of the
    /// month, but the 28th of February for a 29th where the year has none.
    pub open spec fn years_later(self, years: int) -> LocalDate {
        let year = self.year + years;
        LocalDate {
            year: year as i32,
            month: self.month,
            day: smaller(self.day as int, days_in_month(year, self.month as int)) as u8,
        }
    }

    /// The date `years` years before this one: the date that lies the negated
    /// count of years later.
    pub open spec fn years_earlier(self, years: int) -> LocalDate {
        self.years_later(-years)
    }

    /// This date with the day of the month set to 1.
    pub open spec fn first_day_of_month_value(self) -> LocalDate {
        LocalDate { day: 1, ..self }
    }

    /// This date with the day of the month set to the last of the month.
    pub open spec fn last_day_of_month_value(self) -> LocalDate {
        LocalDate { day: days_in_month(self.year as int, self.month as int) as u8, ..self }
    }

    /// Whether the three numbers name a date that this library can hold.
    pub fn is_valid(year: i32, month: i32, day: i32) -> (valid: bool)
        ensures
            valid == valid_date(year as int, month as int, day as int),
    {
        is_valid_date(year, month, day)
    }

    /// The date with the given year, month and day of the month.
    pub fn new(year: i32, month: i32, day: i32) -> (date: LocalDate)
        requires
            valid_date(year as int, month as int, day as int),
        ensures
            date.wf(),
            date == (LocalDate { year, month: month as u8, day: day as u8 }),
    {
        LocalDate { year, month: month as u8, day: day as u8 }
    }

    /// The date with the given year, month and day of the month.
    pub fn of(year: i32, month: i32, day: i32) -> (date: LocalDate)
        requires
            valid_date(year as int, month as int, day as int),
        ensures
            date.wf(),
            date == (LocalDate { year, month: month as u8, day: day as u8 }),
    {
        LocalDate::new(year, month, day)
    }

    /// The date that lies `days_since_epoch` days after 1970-01-01.
    pub fn of_epoch_day(days_since_epoch: i64) -> (date: LocalDate)
        requires
            MIN_EPOCH_DAY <= days_since_epoch <= MAX_EPOCH_DAY,
        ensures
            date.wf(),
            date.days_since_epoch() == days_since_epoch,
            date == LocalDate::on_epoch_day(days_since_epoch as int),
    {
        let julian_day: i64 = days_since_epoch + EPOCH_JULIAN_DAY as i64;
        let ymd: (i32, u8, u8) = date_of_julian_day(julian_day as i32);
        let date = LocalDate { year: ymd.0, month: ymd.1, day: ymd.2 };
        proof {
            lemma_date_is_on_its_epoch_day(date);
        }
        date
    }

    /// The `day_of_year`-th day of `year`.
    pub fn of_year_day(year: i32, day_of_year: i32) -> (date: LocalDate)
        requires
            MIN_YEAR <= year <= MAX_YEAR,
            1 <= day_of_year <= days_in_year(year as int),
        ensures
            date.wf(),
            date.year == year,
            date.ordinal() == day_of_year,
    {
        let md: (u8, u8) = month_day_of_ordinal(year, day_of_year as u16);
        LocalDate { year, month: md.0, day: md.1 }
    }

    /// The last day of month `month` of `year`.
    pub fn last_day_of_month_year(year: i32, month: i32) -> (date: LocalDate)
        requires
            MIN_YEAR <= year <= MAX_YEAR,
            1 <= month <= 12,
        ensures
            date.wf(),
            date == (LocalDate {
                year,
                month: month as u8,
                day: days_in_month(year as int, month as int) as u8,
            }),
    {
        let last: i32 = Month::of(month).length(leap_year(year));
        LocalDate { year, month: month as u8, day: last as u8 }
    }

    /// Whether this date comes before `other`.
    pub fn is_before(self, other: LocalDate) -> (before: bool)
        requires
            self.wf(),
            other.wf(),
        ensures
            before == self.precedes(other),
            before == (self.julian_day() < other.julian_day()),
    {
        proof {
            lemma_julian_day_monotonic(
                self.year as int,
                self.month as int,
                self.day as int,
                other.year as int,
                other.month as int,
                other.day as int,
            );
        }
        self.year < other.year || (self.year == other.year && (self.month < other.month || (
        self.month == other.month && self.day < other.day)))
    }

    /// Whether this date comes after `other`.
    pub fn is_after(self, other: LocalDate) -> (after: bool)
        requires
            self.wf(),
            other.wf(),
        ensures
            after == other.precedes(self),
            after == (self.julian_day() > other.julian_day()),
    {
        other.is_before(self)
    }

    /// Whether this date is `other` or comes before it.
    pub fn is_on_or_before(self, other: LocalDate) -> (on_or_before: bool)
        requires
            self.wf(),
            other.wf(),
        ensures
            on_or_before == !other.precedes(self),
            on_or_before == (self.julian_day() <= other.julian_day()),
    {
        !other.is_before(self)
    }

    /// Whether this date is `other` or comes after it.
    pub fn is_on_or_after(self, other: LocalDate) -> (on_or_after: bool)
        requires
            self.wf(),
            other.wf(),
        ensures
            on_or_after == !self.precedes(other),
            on_or_after == (self.julian_day() >= other.julian_day()),
    {
        !self.is_before(other)
    }

    /// The year of the date.
    pub fn year(self) -> (year: i32)
        ensures
            year == self.year,
    {
        self.year
    }

    /// The month of the date.
    pub fn month(self) -> (month: Month)
        requires
            self.wf(),
        ensures
            month == month_from_number(self.month as int),
            month.number() == self.month,
    {
        Month::of(self.month as i32)
    }

    /// The number of the month of the date, from 1 to 12.
    pub fn month_value(self) -> (month: i32)
        ensures
            month == self.month,
    {
        self.month as i32
    }

    /// The position of the date within its year, from 1.
    pub fn day_of_year(self) -> (ordinal: i32)
        requires
            self.wf(),
        ensures
            ordinal == self.ordinal(),
            1 <= ordinal <= days_in_year(self.year as int),
    {
        ordinal_of(self.year, self.month, self.day) as i32
    }

    /// The day of the month, from 1.
    pub fn day_of_month(self) -> (day: i32)
        ensures
            day == self.day,
    {
        self.day as i32
    }

    /// The day of the week that the date falls on.
    pub fn day_of_week(self) -> (day: DayOfWeek)
        requires
            self.wf(),
        ensures
            day == self.weekday(),
            day.number() == self.julian_day() % 7 + 1,
    {
        DayOfWeek::from(weekday_of(self.year, self.month, self.day))
    }

    /// The number of days in the date's month.
    pub fn length_of_month(self) -> (days: i32)
        requires
            self.wf(),
        ensures
            days == days_in_month(self.year as int, self.month as int),
    {
        month_length(self.year, self.month) as i32
    }

    /// Whether the date's year is a leap year.
    pub fn is_leap_year(self) -> (leap: bool)
        ensures
            leap == is_leap_year(self.year as int),
    {
        leap_year(self.year)
    }

    /// The number of days in the date's year.
    pub fn length_of_year(self) -> (days: i32)
        ensures
            days == days_in_year(self.year as int),
    {
        year_length(self.year) as i32
    }

    /// The days from 1970-01-01 to the date; negative before 1970.
    pub fn to_epoch_day(self) -> (days: i64)
        requires
            self.wf(),
        ensures
            days == self.days_since_epoch(),
            MIN_EPOCH_DAY <= days <= MAX_EPOCH_DAY,
    {
        proof {
            lemma_julian_day_bounds(self.year as int, self.month as int, self.day as int);
        }
        (julian_day_of(self.year, self.month, self.day) as i64) - (EPOCH_JULIAN_DAY as i64)
    }

    /// The date `years` years later. A 29th of February becomes the 28th where
    /// the new year is no leap year. The new year must lie from -9999 to 9999.
    pub fn plus_years(self, years: i64) -> (date: LocalDate)
        requires
            self.wf(),
            MIN_YEAR <= self.year + years <= MAX_YEAR,
        ensures
            date.wf(),
            date == self.years_later(years as int),
    {
        let new_year: i32 = (self.year as i64 + years) as i32;
        let mut day: u8 = self.day;
        if self.month == 2 && day == 29 && !leap_year(new_year) {
            day = 28;
        }
        LocalDate { year: new_year, month: self.month, day }
    }

    /// The date `months` months later, as far as `i64` counts.
    pub(crate) fn shifted_by_months(self, months: i64) -> (date: LocalDate)
        requires
            self.wf(),
            -1_000_000_000_000 <= months <= 1_000_000_000_000,
            MIN_YEAR <= (self.month_count() + months) / 12 <= MAX_YEAR,
        ensures
            date.wf(),
            date == self.months_later(months as int),
    {
        let count: i64 = (self.year as i64) * 12 + (self.month as i64 - 1) + months;
        let year: i32 = floor_div(count, 12) as i32;
        let month: u8 = (floor_mod(count, 12) + 1) as u8;
        let last: u8 = month_length(year, month);
        let day: u8 = if self.day < last {
            self.day
        } else {
            last
        };
        LocalDate { year, month, day }
    }

    /// The date `months` months later. Where the new month is too short for
    /// the day of the month, the date is the last day of that month. The new
    /// year must lie from -9999 to 9999.
    pub fn plus_months(self, months: i32) -> (date: LocalDate)
        requires
            self.wf(),
            MIN_YEAR <= (self.month_count() + months) / 12 <= MAX_YEAR,
        ensures
            date.wf(),
            date == self.months_later(months as int),
    {
        self.shifted_by_months(months as i64)
    }

    /// The date `weeks` weeks later. The date must be one this library can hold.
    pub fn plus_weeks(self, weeks: i64) -> (date: LocalDate)
        requires
            self.wf(),
            MIN_JULIAN_DAY <= self.julian_day() + weeks * 7 <= MAX_JULIAN_DAY,
        ensures
            date.wf(),
            date.julian_day() == self.julian_day() + weeks * 7,
    {
        proof {
            lemma_julian_day_bounds(self.year as int, self.month as int, self.day as int);
        }
        self.plus_days(weeks * 7)
    }

    /// The date `days` days later. The date must be one this library can hold.
    pub fn plus_days(self, days: i64) -> (date: LocalDate)
        requires
            self.wf(),
            MIN_JULIAN_DAY <= self.julian_day() + days <= MAX_JULIAN_DAY,
        ensures
            date.wf(),
            date.julian_day() == self.julian_day() + days,
    {
        proof {
            lemma_julian_day_bounds(self.year as int, self.month as int, self.day as int);
        }
        let start: i64 = julian_day_of(self.year, self.month, self.day) as i64;
        let ymd: (i32, u8, u8) = date_of_julian_day((start + days) as i32);
        LocalDate { year: ymd.0, month: ymd.1, day: ymd.2 }
    }

    /// The date `years` years earlier: the date the negated count of years later.
    pub fn minus_years(self, years: i64) -> (date: LocalDate)
        requires
            self.wf(),
            MIN_YEAR <= self.year - years <= MAX_YEAR,
        ensures
            date.wf(),
            date == self.years_earlier(years as int),
    {
        self.plus_years(-years)
    }

    /// The date `months` months earlier: the date the negated count of months later.
    pub fn minus_months(self, months: i32) -> (date: LocalDate)
        requires
            self.wf(),
            MIN_YEAR <= (self.month_count() - months) / 12 <= MAX_YEAR,
        ensures
            date.wf(),
            date == self.months_earlier(months as int),
    {
        self.shifted_by_months(-(months as i64))
    }

    /// The date `weeks` weeks earlier. The date must be one this library can hold.
    pub fn minus_weeks(self, weeks: i64) -> (date: LocalDate)
        requires
            self.wf(),
            MIN_JULIAN_DAY <= self.julian_day() - weeks * 7 <= MAX_JULIAN_DAY,
        ensures
            date.wf(),
            date.julian_day() == self.julian_day() - weeks * 7,
    {
        proof {
            lemma_julian_day_bounds(self.year as int, self.month as int, self.day as int);
        }
        self.plus_days(-(weeks * 7))
    }

    /// The date `days` days earlier. The date must be one this library can hold.
    pub fn minus_days(self, days: i64) -> (date: LocalDate)
        requires
            self.wf(),
            MIN_JULIAN_DAY <= self.julian_day() - days <= MAX_JULIAN_DAY,
        ensures
            date.wf(),
            date.julian_day() == self.julian_day() - days,
    {
        proof {
            lemma_julian_day_bounds(self.year as int, self.month as int, self.day as int);
        }
        self.plus_days(-days)
    }

    /// This date in another year. The result is not adjusted: the day must
    /// exist in that year.
    pub fn with_year(self, year: i32) -> (date: LocalDate)
        requires
            self.wf(),
            valid_date(year as int, self.month as int, self.day as int),
        ensures
            date.wf(),
            date == (LocalDate { year, ..self }),
    {
        LocalDate { year, month: self.month, day: self.day }
    }

    /// This date in another month of its year. The result is not adjusted:
    /// the day must exist in that month.
    pub fn with_month(self, month: i32) -> (date: LocalDate)
        requires
            self.wf(),
            valid_date(self.year as int, month as int, self.day as int),
        ensures
            date.wf(),
            date == (LocalDate { month: month as u8, ..self }),
    {
        LocalDate { year: self.year, month: month as u8, day: self.day }
    }

    /// The `day_of_year`-th day of this date's year. The year must have that
    /// many days.
    pub fn with_day_of_year(self, day_of_year: u16) -> (date: LocalDate)
        requires
            self.wf(),
            1 <= day_of_year <= days_in_year(self.year as int),
        ensures
            date.wf(),
            date.year == self.year,
            date.ordinal() == day_of_year,
    {
        let md: (u8, u8) = month_day_of_ordinal(self.year, day_of_year);
        LocalDate { year: self.year, month: md.0, day: md.1 }
    }

    /// This date on another day of its month. The result is not adjusted: the
    /// month must have that day.
    pub fn with_day_of_month(self, day: i32) -> (date: LocalDate)
        requires
            self.wf(),
            valid_date(self.year as int, self.month as int, day as int),
        ensures
            date.wf(),
            date == (LocalDate { day: day as u8, ..self }),
    {
        LocalDate { year: self.year, month: self.month, day: day as u8 }
    }

    /// This date at the given time of day.
    pub fn at_time(self, time: LocalTime) -> (date_time: LocalDateTime)
        requires
            self.wf(),
            time.wf(),
        ensures
            date_time.wf(),
            date_time == (LocalDateTime { date: self, time }),
    {
        LocalDateTime::of_date_time(self, time)
    }

    /// This date at midnight, the start of the day.
    pub fn at_start_of_day(self) -> (date_time: LocalDateTime)
        requires
            self.wf(),
        ensures
            date_time.wf(),
            date_time == (LocalDateTime {
                date: self,
                time: LocalTime { hour: 0, minute: 0, second: 0, nano: 0 },
            }),
    {
        LocalDateTime::of_date_time(self, LocalTime::of(0, 0, 0))
    }

    /// The first day of this date's month.
    pub fn first_day_of_month(self) -> (date: LocalDate)
        requires
            self.wf(),
        ensures
            date.wf(),
            date == self.first_day_of_month_value(),
    {
        self.with_day_of_month(1)
    }

    /// The last day of this date's month.
    pub fn last_day_of_month(self) -> (date: LocalDate)
        requires
            self.wf(),
        ensures
            date.wf(),
            date == self.last_day_of_month_value(),
    {
        let last: i32 = self.length_of_month();
        self.with_day_of_month(last)
    }

    /// The first day of this date's year.
    pub fn first_day_of_year(self) -> (date: LocalDate)
        requires
            self.wf(),
        ensures
            date.wf(),
            date == (LocalDate { year: self.year, month: 1, day: 1 }),
    {
        let date = self.with_day_of_year(1);
        proof {
            lemma_julian_day_monotonic(
                date.year as int,
                date.month as int,
                date.day as int,
                self.year as int,
                1,
                1,
            );
        }
        date
    }

    /// The last day of this date's year.
    pub fn last_day_of_year(self) -> (date: LocalDate)
        requires
            self.wf(),
        ensures
            date.wf(),
            date == (LocalDate { year: self.year, month: 12, day: 31 }),
    {
        let last: u16 = self.length_of_year() as u16;
        let date = self.with_day_of_year(last);
        proof {
            lemma_julian_day_monotonic(
                date.year as int,
                date.month as int,
                date.day as int,
                self.year as int,
                12,
                31,
            );
        }
        date
    }

    /// The first day of the month after this date's month. There must be one:
    /// the date may not lie in December of the last year.
    pub fn first_day_of_next_month(self) -> (date: LocalDate)
        requires
            self.wf(),
            self.year < MAX_YEAR || self.month < 12,
        ensures
            date.wf(),
            date == self.months_later(1).first_day_of_month_value(),
            date.day == 1,
            date.month_count() == self.month_count() + 1,
    {
        self.first_day_of_month().plus_months(1)
    }

    /// The first day of the year after this date's year. There must be one:
    /// the date may not lie in the last year.
    pub fn first_day_of_next_year(self) -> (date: LocalDate)
        requires
            self.wf(),
            self.year < MAX_YEAR,
        ensures
            date.wf(),
            date == (LocalDate { year: (self.year + 1) as i32, month: 1, day: 1 }),
    {
        LocalDate { year: self.year + 1, month: 1, day: 1 }
    }


    /// The number of days to go forward from a `from` day of the week to
    /// reach the next `to` day, from 0 to 6.
    fn forward_days(from: DayOfWeek, to: DayOfWeek) -> (days: i64)
        ensures
            days == days_forward(from, to),
            0 <= days <= 6,
    {
        ((to.value() - from.value() + 7) % 7) as i64
    }

    /// The first day in this date's month that falls on `dow`.
    pub fn first_in_month(self, dow: DayOfWeek) -> (date: LocalDate)
        requires
            self.wf(),
        ensures
            date.wf(),
            date.year == self.year,
            date.month == self.month,
            date.day == 1 + days_forward(self.first_day_of_month_value().weekday(), dow),
            date.weekday() == dow,
            1 <= date.day <= 7,
    {
        let first: LocalDate = self.first_day_of_month();
        let delta: i64 = LocalDate::forward_days(first.day_of_week(), dow);
        proof {
            lemma_julian_day_bounds(first.year as int, first.month as int, 1 + delta);
            lemma_julian_day_counts_days(first.year as int, first.month as int, 1, 1 + delta);
            lemma_days_forward_arrive(first.julian_day(), dow.number(), delta as int);
        }
        let date = first.plus_days(delta);
        proof {
            lemma_julian_day_monotonic(
                date.year as int,
                date.month as int,
                date.day as int,
                first.year as int,
                first.month as int,
                1 + delta,
            );
        }
        date
    }

    /// The last day in this date's month that falls on `dow`.
    pub fn last_in_month(self, dow: DayOfWeek) -> (date: LocalDate)
        requires
            self.wf(),
        ensures
            date.wf(),
            date.year == self.year,
            date.month == self.month,
            date.day == days_in_month(self.year as int, self.month as int) - days_forward(
                dow,
                self.last_day_of_month_value().weekday(),
            ),
            date.weekday() == dow,
            date.day + 7 > days_in_month(self.year as int, self.month as int),
    {
        let last: LocalDate = self.last_day_of_month();
        let delta: i64 = LocalDate::forward_days(dow, last.day_of_week());
        proof {
            lemma_julian_day_bounds(last.year as int, last.month as int, last.day - delta);
            lemma_julian_day_counts_days(
                last.year as int,
                last.month as int,
                last.day - delta,
                last.day as int,
            );
            lemma_days_forward_depart(last.julian_day(), dow.number(), delta as int);
        }
        let date = last.minus_days(delta);
        proof {
            lemma_julian_day_monotonic(
                date.year as int,
                date.month as int,
                date.day as int,
                last.year as int,
                last.month as int,
                last.day - delta,
            );
        }
        date
    }

    /// The first day after this date that falls on `dow`; never this date itself.
    pub fn next(self, dow: DayOfWeek) -> (date: LocalDate)
        requires
            self.wf(),
            self.julian_day() + 7 <= MAX_JULIAN_DAY,
        ensures
            date.wf(),
            date.weekday() == dow,
            1 <= date.julian_day() - self.julian_day() <= 7,
    {
        let current: DayOfWeek = self.day_of_week();
        let mut delta: i64 = LocalDate::forward_days(current, dow);
        if delta == 0 {
            delta = 7;
        }
        proof {
            lemma_julian_day_bounds(self.year as int, self.month as int, self.day as int);
            lemma_days_forward_arrive(self.julian_day(), dow.number(), delta as int);
        }
        self.plus_days(delta)
    }

    /// This date if it falls on `dow`, else the first day after it that does.
    pub fn next_or_same(self, dow: DayOfWeek) -> (date: LocalDate)
        requires
            self.wf(),
            self.julian_day() + 6 <= MAX_JULIAN_DAY,
        ensures
            date.wf(),
            date.weekday() == dow,
            0 <= date.julian_day() - self.julian_day() <= 6,
    {
        let current: DayOfWeek = self.day_of_week();
        let delta: i64 = LocalDate::forward_days(current, dow);
        proof {
            lemma_julian_day_bounds(self.year as int, self.month as int, self.day as int);
            lemma_days_forward_arrive(self.julian_day(), dow.number(), delta as int);
        }
        self.plus_days(delta)
    }

    /// The last day before this date that falls on `dow`; never this date itself.
    pub fn previous(self, dow: DayOfWeek) -> (date: LocalDate)
        requires
            self.wf(),
            MIN_JULIAN_DAY <= self.julian_day() - 7,
        ensures
            date.wf(),
            date.weekday() == dow,
            1 <= self.julian_day() - date.julian_day() <= 7,
    {
        let current: DayOfWeek = self.day_of_week();
        let mut delta: i64 = LocalDate::forward_days(dow, current);
        if delta == 0 {
            delta = 7;
        }
        proof {
            lemma_julian_day_bounds(self.year as int, self.month as int, self.day as int);
            lemma_days_forward_depart(self.julian_day(), dow.number(), delta as int);
        }
        self.minus_days(delta)
    }

    /// This date if it falls on `dow`, else the last day before it that does.
    pub fn previous_or_same(self, dow: DayOfWeek) -> (date: LocalDate)
        requires
            self.wf(),
            MIN_JULIAN_DAY <= self.julian_day() - 6,
        ensures
            date.wf(),
            date.weekday() == dow,
            0 <= self.julian_day() - date.julian_day() <= 6,
    {
        let current: DayOfWeek = self.day_of_week();
        let delta: i64 = LocalDate::forward_days(dow, current);
        proof {
            lemma_julian_day_bounds(self.year as int, self.month as int, self.day as int);
            lemma_days_forward_depart(self.julian_day(), dow.number(), delta as int);
        }
        self.minus_days(delta)
    }

    /// The time from `earlier` to this date, in whole days; negative when
    /// `earlier` is the later of the two.
    pub fn since(self, earlier: LocalDate) -> (elapsed: Duration)
        requires
            self.wf(),
            earlier.wf(),
        ensures
            elapsed.wf(),
            elapsed == (Duration {
                seconds: ((self.julian_day() - earlier.julian_day()) * 86_400) as i64,
                nanos: 0,
            }),
    {
        proof {
            lemma_julian_day_bounds(self.year as int, self.month as int, self.day as int);
            lemma_julian_day_bounds(earlier.year as int, earlier.month as int, earlier.day as int);
        }
        Duration::of_days(self.to_epoch_day() - earlier.to_epoch_day())
    }
}

impl core::ops::Sub for LocalDate {
    type Output = Duration;

    /// The time from `rhs` to this date; see [`LocalDate::since`].
    fn sub(self, rhs: LocalDate) -> (elapsed: Duration) {
        self.since(rhs)
    }
}

impl vstd::std_specs::ops::SubSpecImpl for LocalDate {
    open spec fn obeys_sub_spec() -> bool {
        true
    }

    open spec fn sub_req(self, rhs: LocalDate) -> bool {
        self.wf() && rhs.wf()
    }

    open spec fn sub_spec(self, rhs: LocalDate) -> Duration {
        Duration { seconds: ((self.julian_day() - rhs.julian_day()) * 86_400) as i64, nanos: 0 }
    }
}

/// Going on by the days that lead from one day of the week to another
/// arrives on that other day of the week.
pub proof fn lemma_days_forward_arrive(julian_day: int, to: int, delta: int)
    requires
        1 <= to <= 7,
        delta % 7 == (to - (julian_day % 7 + 1) + 7) % 7,
    ensures
        (julian_day + delta) % 7 + 1 == to,
{
}

/// Going back by the days that lead from one day of the week to another
/// arrives on the day of the week that one set out from.
pub proof fn lemma_days_forward_depart(julian_day: int, from: int, delta: int)
    requires
        1 <= from <= 7,
        delta % 7 == ((julian_day % 7 + 1) - from + 7) % 7,
    ensures
        (julian_day - delta) % 7 + 1 == from,
{
}

/// Going forward by a count of months and going back by its negative lead to the
/// same date, and so for years.
pub proof fn lemma_plus_is_minus_negated(date: LocalDate, amount: int)
    ensures
        date.months_later(amount) == date.months_earlier(-amount),
        date.years_later(amount) == date.years_earlier(-amount),
{
}

/// A date moved by months keeps its day of the month where the new month has
/// it, and else lands on the last day of the new month; it never leaves the
/// month that lies the count of months away.
pub proof fn lemma_months_later_clamps_to_month_end(date: LocalDate, months: int)
    requires
        date.wf(),
        MIN_YEAR <= (date.month_count() + months) / 12 <= MAX_YEAR,
    ensures
        date.months_later(months).wf(),
        date.months_later(months).month_count() == date.month_count() + months,
        date.months_later(months).day == smaller(
            date.day as int,
            days_in_month(
                date.months_later(months).year as int,
                date.months_later(months).month as int,
            ),
        ),
{
}

/// A date moved by years keeps its month and day, but for the 29th of February,
/// which becomes the 28th where the new year is no leap year.
pub proof fn lemma_years_later_clamps_leap_day(date: LocalDate, years: int)
    requires
        date.wf(),
        MIN_YEAR <= date.year + years <= MAX_YEAR,
    ensures
        date.years_later(years).wf(),
        date.years_later(years).year == date.year + years,
        date.years_later(years).month == date.month,
        date.years_later(years).day == if date.month == 2 && date.day == 29 && !is_leap_year(
            date.year + years,
        ) {
            28
        } else {
            date.day as int
        },
{
}

/// Dates are ordered as their Julian day numbers are, and two dates with the
/// same Julian day number are the same date.
pub proof fn lemma_date_order_is_day_order(a: LocalDate, b: LocalDate)
    requires
        a.wf(),
        b.wf(),
    ensures
        a.precedes(b) <==> a.julian_day() < b.julian_day(),
        a == b <==> a.julian_day() == b.julian_day(),
        MIN_JULIAN_DAY <= a.julian_day() <= MAX_JULIAN_DAY,
{
    lemma_julian_day_monotonic(
        a.year as int,
        a.month as int,
        a.day as int,
        b.year as int,
        b.month as int,
        b.day as int,
    );
    lemma_julian_day_bounds(a.year as int, a.month as int, a.day as int);
}

/// A date is the date on its own count of days from the epoch, and no other
/// date has that count.
pub proof fn lemma_date_is_on_its_epoch_day(date: LocalDate)
    requires
        date.wf(),
    ensures
        LocalDate::on_epoch_day(date.days_since_epoch()) == date,
{
    let found = LocalDate::on_epoch_day(date.days_since_epoch());
    assert(found.wf() && found.days_since_epoch() == date.days_since_epoch());
    lemma_date_order_is_day_order(found, date);
}

/// The day after a date falls on the next day of the week, so that seven days
/// on the day of the week is the same again.
pub proof fn lemma_weekday_follows_the_days(a: LocalDate, b: LocalDate)
    requires
        a.wf(),
        b.wf(),
    ensures
        b.weekday().number() == (a.weekday().number() - 1 + (b.julian_day() - a.julian_day())) % 7
            + 1,
{
}

} // verus!
