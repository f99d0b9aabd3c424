//! A date together with a time of day, without an offset or a zone.

use vstd::prelude::*;
use crate::calendar::{
    days_in_month, days_in_year, floor_div_wide, floor_mod_wide, is_leap_year, valid_date,
    MAX_JULIAN_DAY, MAX_YEAR, MIN_JULIAN_DAY, MIN_YEAR,
};
use crate::day_of_week::DayOfWeek;
use crate::duration::Duration;
use crate::local_date::{days_forward, LocalDate};
use crate::local_time::{valid_time, LocalTime, NANOS_PER_DAY};
use crate::month::{month_from_number, Month};
use crate::temporal::TemporalInstant;

verus! {

/// Nanoseconds from 1970-01-01T00:00:00 to the first date and time that this
/// library can hold, -9999-01-01T00:00:00.
pub const MIN_LOCAL_NANOS: i128 = -377_705_116_800_000_000_000;

/// Nanoseconds from 1970-01-01T00:00:00 to the last date and time that this
/// library can hold, 9999-12-31T23:59:59.999999999.
pub const MAX_LOCAL_NANOS: i128 = 253_402_300_799_999_999_999;

/// `total`, held to the range of the dates and times that this library can hold.
pub open spec fn saturated_local_nanos(total: int) -> int {
    if total > MAX_LOCAL_NANOS {
        MAX_LOCAL_NANOS as int
    } else if total < MIN_LOCAL_NANOS {
        MIN_LOCAL_NANOS as int
    } else {
        total
    }
}

/// A date and a time of day.
#[derive(Debug, Clone, Copy, PartialEq, Eq, Hash, PartialOrd, Ord, Structural)]
pub struct LocalDateTime {
    pub date: LocalDate,
    pub time: LocalTime,
}

impl LocalDateTime {
    /// The invariant of a date and time: that of the date and that of the time.
    pub open spec fn wf(self) -> bool {
        self.date.wf() && self.time.wf()
    }

    /// The nanoseconds from 1970-01-01T00:00:00 to this date and time, both
    /// read in the same place.
    pub open spec fn local_nanos(self) -> int {
        self.date.days_since_epoch() * NANOS_PER_DAY + self.time.nanos_of_day()
    }

    /// Whether a date and time lies `amount` nanoseconds after this one.
    pub open spec fn can_move_by(self, amount: int) -> bool {
        MIN_LOCAL_NANOS <= self.local_nanos() + amount <= MAX_LOCAL_NANOS
    }

    /// The date and time at the given count of nanoseconds from 1970-01-01T00:00:00.
    pub fn from_local_nanos(nanos: i128) -> (date_time: LocalDateTime)
        requires
            MIN_LOCAL_NANOS <= nanos <= MAX_LOCAL_NANOS,
        ensures
            date_time.wf(),
            date_time.local_nanos() == nanos,
    {
        let days: i128 = floor_div_wide(nanos, NANOS_PER_DAY as i128);
        let nanos_of_day: i128 = floor_mod_wide(nanos, NANOS_PER_DAY as i128);
        assert(nanos == days * NANOS_PER_DAY + nanos_of_day);
        let date = LocalDate::of_epoch_day(days as i64);
        let time = LocalTime::from_nanos_of_day(nanos_of_day as i64);
        LocalDateTime { date, time }
    }

    /// The nanoseconds from 1970-01-01T00:00:00 to this date and time.
    pub fn to_local_nanos(self) -> (nanos: i128)
        requires
            self.wf(),
        ensures
            nanos == self.local_nanos(),
            MIN_LOCAL_NANOS <= nanos <= MAX_LOCAL_NANOS,
    {
        (self.date.to_epoch_day() as i128) * (NANOS_PER_DAY as i128) + (
        self.time.to_nanos_of_day() as i128)
    }

    /// The date and time `amount` nanoseconds later, stopping at the first and
    /// at the last date and time that this library can hold.
    fn saturating_plus_nanos(self, amount: i128) -> (date_time: LocalDateTime)
        requires
            self.wf(),
            -1_000_000_000_000_000_000_000_000_000_000_000_000 <= amount
                <= 1_000_000_000_000_000_000_000_000_000_000_000_000,
        ensures
            date_time.wf(),
            date_time.local_nanos() == saturated_local_nanos(self.local_nanos() + amount),
    {
        let total: i128 = self.to_local_nanos() + amount;
        if total > MAX_LOCAL_NANOS {
            LocalDateTime::from_local_nanos(MAX_LOCAL_NANOS)
        } else if total < MIN_LOCAL_NANOS {
            LocalDateTime::from_local_nanos(MIN_LOCAL_NANOS)
        } else {
            LocalDateTime::from_local_nanos(total)
        }
    }

    /// The date and time `amount` nanoseconds later, which must be one that
    /// this library can hold.
    pub fn plus_nanos_exact(self, amount: i128) -> (date_time: LocalDateTime)
        requires
            self.wf(),
            self.can_move_by(amount as int),
        ensures
            date_time.wf(),
            date_time.local_nanos() == self.local_nanos() + amount,
    {
        let start: i128 = self.to_local_nanos();
        LocalDateTime::from_local_nanos(start + amount)
    }

    /// The date and time made of the six numbers.
    pub fn new(year: i32, month: i32, day: i32, hour: i32, minute: i32, second: i32) -> (date_time:
        LocalDateTime)
        requires
            valid_date(year as int, month as int, day as int),
            valid_time(hour as int, minute as int, second as int, 0),
        ensures
            date_time.wf(),
            date_time == (LocalDateTime {
                date: LocalDate { year, month: month as u8, day: day as u8 },
                time: LocalTime {
                    hour: hour as u8,
                    minute: minute as u8,
                    second: second as u8,
                    nano: 0,
                },
            }),
    {
        let date = LocalDate::of(year, month, day);
        let time = LocalTime::of(hour, minute, second);
        LocalDateTime::of_date_time(date, time)
    }

    /// The date and time made of the six numbers.
    pub fn of(year: i32, month: i32, day: i32, hour: i32, minute: i32, second: i32) -> (date_time:
        LocalDateTime)
        requires
            valid_date(year as int, month as int, day as int),
            valid_time(hour as int, minute as int, second as int, 0),
        ensures
            date_time.wf(),
            date_time == (LocalDateTime {
                date: LocalDate { year, month: month as u8, day: day as u8 },
                time: LocalTime {
                    hour: hour as u8,
                    minute: minute as u8,
                    second: second as u8,
                    nano: 0,
                },
            }),
    {
        LocalDateTime::new(year, month, day, hour, minute, second)
    }

    /// The given date at the given time of day.
    pub fn of_date_time(date: LocalDate, time: LocalTime) -> (date_time: LocalDateTime)
        requires
            date.wf(),
            time.wf(),
        ensures
            date_time.wf(),
            date_time == (LocalDateTime { date, time }),
    {
        LocalDateTime { date, time }
    }

    /// Whether this date and time comes before `other`.
    pub fn is_before(self, other: LocalDateTime) -> (before: bool)
        requires
            self.wf(),
            other.wf(),
        ensures
            before == (self.local_nanos() < other.local_nanos()),
    {
        self.to_local_nanos() < other.to_local_nanos()
    }

    /// Whether this date and time comes after `other`.
    pub fn is_after(self, other: LocalDateTime) -> (after: bool)
        requires
            self.wf(),
            other.wf(),
        ensures
            after == (self.local_nanos() > other.local_nanos()),
    {
        self.to_local_nanos() > other.to_local_nanos()
    }

    /// Whether this date and time is `other` or comes before it.
    pub fn is_on_or_before(self, other: LocalDateTime) -> (on_or_before: bool)
        requires
            self.wf(),
            other.wf(),
        ensures
            on_or_before == (self.local_nanos() <= other.local_nanos()),
    {
        self.to_local_nanos() <= other.to_local_nanos()
    }

    /// Whether this date and time is `other` or comes after it.
    pub fn is_on_or_after(self, other: LocalDateTime) -> (on_or_after: bool)
        requires
            self.wf(),
            other.wf(),
        ensures
            on_or_after == (self.local_nanos() >= other.local_nanos()),
    {
        self.to_local_nanos() >= other.to_local_nanos()
    }

    /// The date.
    pub fn to_local_date(self) -> (date: LocalDate)
        ensures
            date == self.date,
    {
        self.date
    }

    /// The time of day.
    pub fn to_local_time(self) -> (time: LocalTime)
        ensures
            time == self.time,
    {
        self.time
    }

    /// This date and time.
    pub fn to_local_date_time(self) -> (date_time: LocalDateTime)
        ensures
            date_time == self,
    {
        self
    }

    /// The whole seconds from 1970-01-01T00:00:00 to this date and time, read
    /// as one of UTC, rounded down.
    pub fn epoch_seconds(self) -> (seconds: i64)
        requires
            self.wf(),
        ensures
            seconds == self.local_nanos() / 1_000_000_000,
            -377_705_116_800 <= seconds <= 253_402_300_799,
    {
        let days: i64 = self.date.to_epoch_day();
        let seconds: i64 = days * 86_400 + (self.time.hour as i64) * 3_600 + (self.time.minute
            as i64) * 60 + (self.time.second as i64);
        assert(self.local_nanos() == seconds * 1_000_000_000 + self.time.nano);
        seconds
    }

    /// The nanoseconds from 1970-01-01T00:00:00 to this date and time, read as
    /// one of UTC.
    pub fn epoch_nanoseconds(self) -> (nanoseconds: i128)
        requires
            self.wf(),
        ensures
            nanoseconds == self.local_nanos(),
    {
        self.to_local_nanos()
    }

    /// The year.
    pub fn year(self) -> (year: i32)
        ensures
            year == self.date.year,
    {
        self.date.year()
    }

    /// The month.
    pub fn month(self) -> (month: Month)
        requires
            self.wf(),
        ensures
            month == month_from_number(self.date.month as int),
            month.number() == self.date.month,
    {
        self.date.month()
    }

    /// The number of the month, from 1 to 12.
    pub fn month_value(self) -> (month: i32)
        ensures
            month == self.date.month,
    {
        self.date.month_value()
    }

    /// The position of the date within its year, from 1.
    pub fn day_of_year(self) -> (ordinal: i32)
        requires
            self.wf(),
        ensures
            ordinal == self.date.ordinal(),
    {
        self.date.day_of_year()
    }

    /// The day of the month, from 1.
    pub fn day_of_month(self) -> (day: i32)
        ensures
            day == self.date.day,
    {
        self.date.day_of_month()
    }

    /// The day of the week that the date falls on.
    pub fn day_of_week(self) -> (day: DayOfWeek)
        requires
            self.wf(),
        ensures
            day == self.date.weekday(),
    {
        self.date.day_of_week()
    }

    /// The number of days in the date's month.
    pub fn length_of_month(self) -> (days: i32)
        requires
            self.wf(),
        ensures
            days == days_in_month(self.date.year as int, self.date.month as int),
    {
        self.date.length_of_month()
    }

    /// Whether the date's year is a leap year.
    pub fn is_leap_year(self) -> (leap: bool)
        ensures
            leap == is_leap_year(self.date.year as int),
    {
        self.date.is_leap_year()
    }

    /// The number of days in the date's year.
    pub fn length_of_year(self) -> (days: i32)
        ensures
            days == days_in_year(self.date.year as int),
    {
        self.date.length_of_year()
    }

    /// The hour of the day, from 0 to 23.
    pub fn hour(self) -> (hour: i32)
        ensures
            hour == self.time.hour,
    {
        self.time.hour()
    }

    /// The minute of the hour, from 0 to 59.
    pub fn minute(self) -> (minute: i32)
        ensures
            minute == self.time.minute,
    {
        self.time.minute()
    }

    /// The second of the minute, from 0 to 59.
    pub fn second(self) -> (second: i32)
        ensures
            second == self.time.second,
    {
        self.time.second()
    }

    /// The millisecond of the second, from 0 to 999.
    pub fn millisecond(self) -> (millisecond: i32)
        requires
            self.wf(),
        ensures
            millisecond == self.time.nano / 1_000_000,
    {
        self.time.millisecond()
    }

    /// The nanosecond of the second, from 0 to 999_999_999.
    pub fn nanosecond(self) -> (nanosecond: i32)
        requires
            self.wf(),
        ensures
            nanosecond == self.time.nano,
    {
        self.time.nanosecond()
    }

    /// The same time of day `years` years later; see [`LocalDate::plus_years`].
    pub fn plus_years(self, years: i64) -> (date_time: LocalDateTime)
        requires
            self.wf(),
            MIN_YEAR <= self.date.year + years <= MAX_YEAR,
        ensures
            date_time.wf(),
            date_time == (LocalDateTime {
                date: self.date.years_later(years as int),
                time: self.time,
            }),
    {
        LocalDateTime { date: self.date.plus_years(years), time: self.time }
    }

    /// The same time of day `months` months later; see [`LocalDate::plus_months`].
    pub fn plus_months(self, months: i32) -> (date_time: LocalDateTime)
        requires
            self.wf(),
            MIN_YEAR <= (self.date.month_count() + months) / 12 <= MAX_YEAR,
        ensures
            date_time.wf(),
            date_time == (LocalDateTime {
                date: self.date.months_later(months as int),
                time: self.time,
            }),
    {
        LocalDateTime { date: self.date.plus_months(months), time: self.time }
    }

    /// The date and time `weeks` weeks later, stopping at the ends of the range.
    pub fn plus_weeks(self, weeks: i64) -> (date_time: LocalDateTime)
        requires
            self.wf(),
        ensures
            date_time.wf(),
            date_time.local_nanos() == saturated_local_nanos(
                self.local_nanos() + weeks * 7 * NANOS_PER_DAY,
            ),
    {
        self.saturating_plus_nanos((weeks as i128) * 604_800_000_000_000)
    }

    /// The date and time `days` days later, stopping at the ends of the range.
    pub fn plus_days(self, days: i64) -> (date_time: LocalDateTime)
        requires
            self.wf(),
        ensures
            date_time.wf(),
            date_time.local_nanos() == saturated_local_nanos(
                self.local_nanos() + days * NANOS_PER_DAY,
            ),
    {
        self.saturating_plus_nanos((days as i128) * 86_400_000_000_000)
    }

    /// The date and time `hours` hours later, going over midnight into the
    /// next days, and stopping at the ends of the range.
    pub fn plus_hours(self, hours: i64) -> (date_time: LocalDateTime)
        requires
            self.wf(),
        ensures
            date_time.wf(),
            date_time.local_nanos() == saturated_local_nanos(
                self.local_nanos() + hours * 3_600_000_000_000,
            ),
    {
        self.saturating_plus_nanos((hours as i128) * 3_600_000_000_000)
    }

    /// The date and time `minutes` minutes later, going over midnight into the
    /// next days, and stopping at the ends of the range.
    pub fn plus_minutes(self, minutes: i64) -> (date_time: LocalDateTime)
        requires
            self.wf(),
        ensures
            date_time.wf(),
            date_time.local_nanos() == saturated_local_nanos(
                self.local_nanos() + minutes * 60_000_000_000,
            ),
    {
        self.saturating_plus_nanos((minutes as i128) * 60_000_000_000)
    }

    /// The date and time `seconds` seconds later, going over midnight into the
    /// next days, and stopping at the ends of the range.
    pub fn plus_seconds(self, seconds: i64) -> (date_time: LocalDateTime)
        requires
            self.wf(),
        ensures
            date_time.wf(),
            date_time.local_nanos() == saturated_local_nanos(
                self.local_nanos() + seconds * 1_000_000_000,
            ),
    {
        self.saturating_plus_nanos((seconds as i128) * 1_000_000_000)
    }

    /// The date and time `milliseconds` milliseconds later, going over
    /// midnight into the next days, and stopping at the ends of the range.
    pub fn plus_milliseconds(self, milliseconds: i64) -> (date_time: LocalDateTime)
        requires
            self.wf(),
        ensures
            date_time.wf(),
            date_time.local_nanos() == saturated_local_nanos(
                self.local_nanos() + milliseconds * 1_000_000,
            ),
    {
        self.saturating_plus_nanos((milliseconds as i128) * 1_000_000)
    }

    /// The date and time `nanoseconds` nanoseconds later, going over midnight
    /// into the next days, and stopping at the ends of the range.
    pub fn plus_nanoseconds(self, nanoseconds: i64) -> (date_time: LocalDateTime)
        requires
            self.wf(),
        ensures
            date_time.wf(),
            date_time.local_nanos() == saturated_local_nanos(self.local_nanos() + nanoseconds),
    {
        self.saturating_plus_nanos(nanoseconds as i128)
    }

    /// The same time of day `years` years earlier; see [`LocalDate::minus_years`].
    pub fn minus_years(self, years: i64) -> (date_time: LocalDateTime)
        requires
            self.wf(),
            MIN_YEAR <= self.date.year - years <= MAX_YEAR,
        ensures
            date_time.wf(),
            date_time == (LocalDateTime {
                date: self.date.years_earlier(years as int),
                time: self.time,
            }),
    {
        LocalDateTime { date: self.date.minus_years(years), time: self.time }
    }

    /// The same time of day `months` months earlier; see [`LocalDate::minus_months`].
    pub fn minus_months(self, months: i32) -> (date_time: LocalDateTime)
        requires
            self.wf(),
            MIN_YEAR <= (self.date.month_count() - months) / 12 <= MAX_YEAR,
        ensures
            date_time.wf(),
            date_time == (LocalDateTime {
                date: self.date.months_earlier(months as int),
                time: self.time,
            }),
    {
        LocalDateTime { date: self.date.minus_months(months), time: self.time }
    }

    /// The date and time `weeks` weeks earlier, stopping at the ends of the range.
    pub fn minus_weeks(self, weeks: i64) -> (date_time: LocalDateTime)
        requires
            self.wf(),
        ensures
            date_time.wf(),
            date_time.local_nanos() == saturated_local_nanos(
                self.local_nanos() - weeks * 7 * NANOS_PER_DAY,
            ),
    {
        self.saturating_plus_nanos(-((weeks as i128) * 604_800_000_000_000))
    }

    /// The date and time `days` days earlier, stopping at the ends of the range.
    pub fn minus_days(self, days: i64) -> (date_time: LocalDateTime)
        requires
            self.wf(),
        ensures
            date_time.wf(),
            date_time.local_nanos() == saturated_local_nanos(
                self.local_nanos() - days * NANOS_PER_DAY,
            ),
    {
        self.saturating_plus_nanos(-((days as i128) * 86_400_000_000_000))
    }

    /// The date and time `hours` hours earlier, going over midnight into the
    /// days before, and stopping at the ends of the range.
    pub fn minus_hours(self, hours: i64) -> (date_time: LocalDateTime)
        requires
            self.wf(),
        ensures
            date_time.wf(),
            date_time.local_nanos() == saturated_local_nanos(
                self.local_nanos() - hours * 3_600_000_000_000,
            ),
    {
        self.saturating_plus_nanos(-((hours as i128) * 3_600_000_000_000))
    }

    /// The date and time `minutes` minutes earlier, going over midnight into
    /// the days before, and stopping at the ends of the range.
    pub fn minus_minutes(self, minutes: i64) -> (date_time: LocalDateTime)
        requires
            self.wf(),
        ensures
            date_time.wf(),
            date_time.local_nanos() == saturated_local_nanos(
                self.local_nanos() - minutes * 60_000_000_000,
            ),
    {
        self.saturating_plus_nanos(-((minutes as i128) * 60_000_000_000))
    }

    /// The date and time `seconds` seconds earlier, going over midnight into
    /// the days before, and stopping at the ends of the range.
    pub fn minus_seconds(self, seconds: i64) -> (date_time: LocalDateTime)
        requires
            self.wf(),
        ensures
            date_time.wf(),
            date_time.local_nanos() == saturated_local_nanos(
                self.local_nanos() - seconds * 1_000_000_000,
            ),
    {
        self.saturating_plus_nanos(-((seconds as i128) * 1_000_000_000))
    }

    /// The date and time `milliseconds` milliseconds earlier, going over
    /// midnight into the days before, and stopping at the ends of the range.
    pub fn minus_milliseconds(self, milliseconds: i64) -> (date_time: LocalDateTime)
        requires
            self.wf(),
        ensures
            date_time.wf(),
            date_time.local_nanos() == saturated_local_nanos(
                self.local_nanos() - milliseconds * 1_000_000,
            ),
    {
        self.saturating_plus_nanos(-((milliseconds as i128) * 1_000_000))
    }

    /// The date and time `nanoseconds` nanoseconds earlier, going over
    /// midnight into the days before, and stopping at the ends of the range.
    pub fn minus_nanoseconds(self, nanoseconds: i64) -> (date_time: LocalDateTime)
        requires
            self.wf(),
        ensures
            date_time.wf(),
            date_time.local_nanos() == saturated_local_nanos(self.local_nanos() - nanoseconds),
    {
        self.saturating_plus_nanos(-(nanoseconds as i128))
    }

    /// This date and time in another year; the day must exist in that year.
    pub fn with_year(self, year: i32) -> (date_time: LocalDateTime)
        requires
            self.wf(),
            valid_date(year as int, self.date.month as int, self.date.day as int),
        ensures
            date_time.wf(),
            date_time == (LocalDateTime { date: LocalDate { year, ..self.date }, time: self.time }),
    {
        LocalDateTime { date: self.date.with_year(year), time: self.time }
    }

    /// This date and time in another month of its year; the day must exist in
    /// that month.
    pub fn with_month(self, month: i32) -> (date_time: LocalDateTime)
        requires
            self.wf(),
            valid_date(self.date.year as int, month as int, self.date.day as int),
        ensures
            date_time.wf(),
            date_time == (LocalDateTime {
                date: LocalDate { month: month as u8, ..self.date },
                time: self.time,
            }),
    {
        LocalDateTime { date: self.date.with_month(month), time: self.time }
    }

    /// This time of day on the `day_of_year`-th day of the year, which must
    /// have that many days.
    pub fn with_day_of_year(self, day_of_year: u16) -> (date_time: LocalDateTime)
        requires
            self.wf(),
            1 <= day_of_year <= days_in_year(self.date.year as int),
        ensures
            date_time.wf(),
            date_time.time == self.time,
            date_time.date.year == self.date.year,
            date_time.date.ordinal() == day_of_year,
    {
        LocalDateTime { date: self.date.with_day_of_year(day_of_year), time: self.time }
    }

    /// This date and time on another day of its month, which must have that day.
    pub fn with_day_of_month(self, day: u8) -> (date_time: LocalDateTime)
        requires
            self.wf(),
            valid_date(self.date.year as int, self.date.month as int, day as int),
        ensures
            date_time.wf(),
            date_time == (LocalDateTime { date: LocalDate { day, ..self.date }, time: self.time }),
    {
        LocalDateTime { date: self.date.with_day_of_month(day as i32), time: self.time }
    }

    /// This date and time with the hour replaced. The hour must be below 24.
    pub fn with_hour(self, hour: u8) -> (date_time: LocalDateTime)
        requires
            self.wf(),
            hour < 24,
        ensures
            date_time.wf(),
            date_time == (LocalDateTime { date: self.date, time: LocalTime { hour, ..self.time } }),
    {
        LocalDateTime { date: self.date, time: self.time.with_hour(hour) }
    }

    /// This date and time with the minute replaced. The minute must be below 60.
    pub fn with_minute(self, minute: u8) -> (date_time: LocalDateTime)
        requires
            self.wf(),
            minute < 60,
        ensures
            date_time.wf(),
            date_time == (LocalDateTime {
                date: self.date,
                time: LocalTime { minute, ..self.time },
            }),
    {
        LocalDateTime { date: self.date, time: self.time.with_minute(minute) }
    }

    /// This date and time with the second replaced. The second must be below 60.
    pub fn with_second(self, second: u8) -> (date_time: LocalDateTime)
        requires
            self.wf(),
            second < 60,
        ensures
            date_time.wf(),
            date_time == (LocalDateTime {
                date: self.date,
                time: LocalTime { second, ..self.time },
            }),
    {
        LocalDateTime { date: self.date, time: self.time.with_second(second) }
    }

    /// This date and time with the fraction of the second replaced by
    /// `millisecond` milliseconds. The count must be below 1000.
    pub fn with_millisecond(self, millisecond: u16) -> (date_time: LocalDateTime)
        requires
            self.wf(),
            millisecond < 1000,
        ensures
            date_time.wf(),
            date_time == (LocalDateTime {
                date: self.date,
                time: LocalTime { nano: (millisecond * 1_000_000) as u32, ..self.time },
            }),
    {
        LocalDateTime { date: self.date, time: self.time.with_millisecond(millisecond) }
    }

    /// This date and time with the nanosecond of the second replaced. The
    /// count must be below 1_000_000_000.
    pub fn with_nanosecond(self, nanosecond: u32) -> (date_time: LocalDateTime)
        requires
            self.wf(),
            nanosecond < 1_000_000_000,
        ensures
            date_time.wf(),
            date_time == (LocalDateTime {
                date: self.date,
                time: LocalTime { nano: nanosecond, ..self.time },
            }),
    {
        LocalDateTime { date: self.date, time: self.time.with_nanosecond(nanosecond) }
    }

    /// This time of day on the last day of month `month` of `year`.
    pub fn last_day_of_month_year(self, year: i32, month: i32) -> (date_time: LocalDateTime)
        requires
            self.wf(),
            MIN_YEAR <= year <= MAX_YEAR,
            1 <= month <= 12,
        ensures
            date_time.wf(),
            date_time.time == self.time,
            date_time.date == (LocalDate {
                year,
                month: month as u8,
                day: days_in_month(year as int, month as int) as u8,
            }),
    {
        LocalDateTime { date: LocalDate::last_day_of_month_year(year, month), time: self.time }
    }

    /// This time of day on the first day of the date's month.
    pub fn first_day_of_month(self) -> (date_time: LocalDateTime)
        requires
            self.wf(),
        ensures
            date_time.wf(),
            date_time == (LocalDateTime {
                date: self.date.first_day_of_month_value(),
                time: self.time,
            }),
    {
        LocalDateTime { date: self.date.first_day_of_month(), time: self.time }
    }

    /// This time of day on the last day of the date's month.
    pub fn last_day_of_month(self) -> (date_time: LocalDateTime)
        requires
            self.wf(),
        ensures
            date_time.wf(),
            date_time == (LocalDateTime {
                date: self.date.last_day_of_month_value(),
                time: self.time,
            }),
    {
        LocalDateTime { date: self.date.last_day_of_month(), time: self.time }
    }

    /// This time of day on the first day of the date's year.
    pub fn first_day_of_year(self) -> (date_time: LocalDateTime)
        requires
            self.wf(),
        ensures
            date_time.wf(),
            date_time == (LocalDateTime {
                date: LocalDate { year: self.date.year, month: 1, day: 1 },
                time: self.time,
            }),
    {
        LocalDateTime { date: self.date.first_day_of_year(), time: self.time }
    }

    /// This time of day on the last day of the date's year.
    pub fn last_day_of_year(self) -> (date_time: LocalDateTime)
        requires
            self.wf(),
        ensures
            date_time.wf(),
            date_time == (LocalDateTime {
                date: LocalDate { year: self.date.year, month: 12, day: 31 },
                time: self.time,
            }),
    {
        LocalDateTime { date: self.date.last_day_of_year(), time: self.time }
    }

    /// This time of day on the first day of the month after the date's month.
    pub fn first_day_of_next_month(self) -> (date_time: LocalDateTime)
        requires
            self.wf(),
            self.date.year < MAX_YEAR || self.date.month < 12,
        ensures
            date_time.wf(),
            date_time.time == self.time,
            date_time.date.day == 1,
            date_time.date.month_count() == self.date.month_count() + 1,
    {
        LocalDateTime { date: self.date.first_day_of_next_month(), time: self.time }
    }

    /// This time of day on the first day of the year after the date's year.
    pub fn first_day_of_next_year(self) -> (date_time: LocalDateTime)
        requires
            self.wf(),
            self.date.year < MAX_YEAR,
        ensures
            date_time.wf(),
            date_time == (LocalDateTime {
                date: LocalDate { year: (self.date.year + 1) as i32, month: 1, day: 1 },
                time: self.time,
            }),
    {
        LocalDateTime { date: self.date.first_day_of_next_year(), time: self.time }
    }

    /// This time of day on the first day of the date's month that falls on `dow`.
    pub fn first_in_month(self, dow: DayOfWeek) -> (date_time: LocalDateTime)
        requires
            self.wf(),
        ensures
            date_time.wf(),
            date_time.time == self.time,
            date_time.date.year == self.date.year,
            date_time.date.month == self.date.month,
            date_time.date.day == 1 + days_forward(
                self.date.first_day_of_month_value().weekday(),
                dow,
            ),
            date_time.date.weekday() == dow,
    {
        LocalDateTime { date: self.date.first_in_month(dow), time: self.time }
    }

    /// This time of day on the last day of the date's month that falls on `dow`.
    pub fn last_in_month(self, dow: DayOfWeek) -> (date_time: LocalDateTime)
        requires
            self.wf(),
        ensures
            date_time.wf(),
            date_time.time == self.time,
            date_time.date.year == self.date.year,
            date_time.date.month == self.date.month,
            date_time.date.weekday() == dow,
            date_time.date.day + 7 > days_in_month(
                self.date.year as int,
                self.date.month as int,
            ),
    {
        LocalDateTime { date: self.date.last_in_month(dow), time: self.time }
    }

    /// This time of day on the first day after the date that falls on `dow`.
    pub fn next(self, dow: DayOfWeek) -> (date_time: LocalDateTime)
        requires
            self.wf(),
            self.date.julian_day() + 7 <= MAX_JULIAN_DAY,
        ensures
            date_time.wf(),
            date_time.time == self.time,
            date_time.date.weekday() == dow,
            1 <= date_time.date.julian_day() - self.date.julian_day() <= 7,
    {
        LocalDateTime { date: self.date.next(dow), time: self.time }
    }

    /// This date and time if the date falls on `dow`, else this time of day
    /// on the first day after the date that does.
    pub fn next_or_same(self, dow: DayOfWeek) -> (date_time: LocalDateTime)
        requires
            self.wf(),
            self.date.julian_day() + 6 <= MAX_JULIAN_DAY,
        ensures
            date_time.wf(),
            date_time.time == self.time,
            date_time.date.weekday() == dow,
            0 <= date_time.date.julian_day() - self.date.julian_day() <= 6,
    {
        LocalDateTime { date: self.date.next_or_same(dow), time: self.time }
    }

    /// This time of day on the last day before the date that falls on `dow`.
    pub fn previous(self, dow: DayOfWeek) -> (date_time: LocalDateTime)
        requires
            self.wf(),
            MIN_JULIAN_DAY <= self.date.julian_day() - 7,
        ensures
            date_time.wf(),
            date_time.time == self.time,
            date_time.date.weekday() == dow,
            1 <= self.date.julian_day() - date_time.date.julian_day() <= 7,
    {
        LocalDateTime { date: self.date.previous(dow), time: self.time }
    }

    /// This date and time if the date falls on `dow`, else this time of day
    /// on the last day before the date that does.
    pub fn previous_or_same(self, dow: DayOfWeek) -> (date_time: LocalDateTime)
        requires
            self.wf(),
            MIN_JULIAN_DAY <= self.date.julian_day() - 6,
        ensures
            date_time.wf(),
            date_time.time == self.time,
            date_time.date.weekday() == dow,
            0 <= self.date.julian_day() - date_time.date.julian_day() <= 6,
    {
        LocalDateTime { date: self.date.previous_or_same(dow), time: self.time }
    }

    /// The time from `earlier` to this date and time; negative when `earlier`
    /// is the later of the two.
    pub fn since(self, earlier: LocalDateTime) -> (elapsed: Duration)
        requires
            self.wf(),
            earlier.wf(),
        ensures
            elapsed.wf(),
            elapsed.total_nanos() == self.local_nanos() - earlier.local_nanos(),
            elapsed == Duration::of_total(self.local_nanos() - earlier.local_nanos()),
    {
        let nanos: i128 = self.to_local_nanos() - earlier.to_local_nanos();
        Duration::from_total(nanos)
    }
}

impl core::ops::Sub for LocalDateTime {
    type Output = Duration;

    /// The time from `rhs` to this date and time; see [`LocalDateTime::since`].
    fn sub(self, rhs: LocalDateTime) -> (elapsed: Duration) {
        self.since(rhs)
    }
}

impl vstd::std_specs::ops::SubSpecImpl for LocalDateTime {
    open spec fn obeys_sub_spec() -> bool {
        true
    }

    open spec fn sub_req(self, rhs: LocalDateTime) -> bool {
        self.wf() && rhs.wf()
    }

    open spec fn sub_spec(self, rhs: LocalDateTime) -> Duration {
        Duration::of_total(self.local_nanos() - rhs.local_nanos())
    }
}

impl TemporalInstant for LocalDateTime {
    open spec fn on_time_line(self) -> bool {
        self.wf()
    }

    open spec fn epoch_nanos(self) -> int {
        self.local_nanos()
    }

    fn epoch_seconds(self) -> (seconds: i64) {
        LocalDateTime::epoch_seconds(self)
    }

    fn epoch_milliseconds(self) -> (milliseconds: i128) {
        let seconds: i128 = LocalDateTime::epoch_seconds(self) as i128;
        let nanos: i128 = self.to_local_nanos();
        seconds * 1_000 + (nanos % 1_000_000_000) / 1_000
    }

    fn epoch_nanoseconds(self) -> (nanoseconds: i128) {
        self.to_local_nanos()
    }
}

/// A date and time is the one that lies its count of nanoseconds from the
/// epoch: two with the same count are the same.
pub proof fn lemma_date_time_is_its_local_nanos(a: LocalDateTime, b: LocalDateTime)
    requires
        a.wf(),
        b.wf(),
    ensures
        a.local_nanos() == b.local_nanos() <==> a == b,
        MIN_LOCAL_NANOS <= a.local_nanos() <= MAX_LOCAL_NANOS,
{
    crate::local_date::lemma_date_order_is_day_order(a.date, b.date);
    crate::local_date::lemma_date_order_is_day_order(b.date, a.date);
    crate::local_time::lemma_time_is_its_nanos_of_day(a.time, a.time);
    crate::local_time::lemma_time_is_its_nanos_of_day(b.time, b.time);
    if a.local_nanos() == b.local_nanos() {
        assert(a.date.julian_day() == b.date.julian_day());
        crate::local_time::lemma_time_is_its_nanos_of_day(a.time, b.time);
    }
}

/// Adding a time to a date and time carries what passes midnight into the
/// date: the new time of day is where the old one arrives going round the
/// day, and the date moves by the whole days that went by.
pub proof fn lemma_time_units_carry_into_date(start: LocalDateTime, end: LocalDateTime, amount: int)
    requires
        start.wf(),
        end.wf(),
        end.local_nanos() == start.local_nanos() + amount,
    ensures
        end.time.nanos_of_day() == (start.time.nanos_of_day() + amount) % (NANOS_PER_DAY as int),
        end.date.julian_day() - start.date.julian_day() == (start.time.nanos_of_day() + amount)
            / (NANOS_PER_DAY as int),
{
    crate::local_time::lemma_time_is_its_nanos_of_day(start.time, start.time);
    crate::local_time::lemma_time_is_its_nanos_of_day(end.time, end.time);
    let days = end.date.julian_day() - start.date.julian_day();
    let total = start.time.nanos_of_day() + amount;
    assert(total == days * NANOS_PER_DAY + end.time.nanos_of_day());
    vstd::arithmetic::div_mod::lemma_fundamental_div_mod_converse(
        total,
        NANOS_PER_DAY as int,
        days,
        end.time.nanos_of_day(),
    );
}

/// The count of nanoseconds of a date and time splits into the days of its
/// date and the nanoseconds of its time of day.
pub proof fn lemma_date_time_splits_its_nanos(date_time: LocalDateTime)
    requires
        date_time.wf(),
    ensures
        date_time.date.days_since_epoch() == date_time.local_nanos() / (NANOS_PER_DAY as int),
        date_time.time.nanos_of_day() == date_time.local_nanos() % (NANOS_PER_DAY as int),
{
    crate::local_time::lemma_time_is_its_nanos_of_day(date_time.time, date_time.time);
    vstd::arithmetic::div_mod::lemma_fundamental_div_mod_converse(
        date_time.local_nanos(),
        NANOS_PER_DAY as int,
        date_time.date.days_since_epoch(),
        date_time.time.nanos_of_day(),
    );
}

/// Moving a date and time by whole days moves the date by as many days and
/// leaves the time of day as it is.
pub proof fn lemma_whole_days_keep_the_time(start: LocalDateTime, end: LocalDateTime, days: int)
    requires
        start.wf(),
        end.wf(),
        end.local_nanos() == start.local_nanos() + days * NANOS_PER_DAY,
    ensures
        end.time == start.time,
        end.date.julian_day() == start.date.julian_day() + days,
{
    crate::local_time::lemma_time_is_its_nanos_of_day(start.time, start.time);
    crate::local_time::lemma_time_is_its_nanos_of_day(end.time, end.time);
    let moved = end.date.julian_day() - start.date.julian_day();
    assert((moved - days) * NANOS_PER_DAY == start.time.nanos_of_day() - end.time.nanos_of_day());
    assert(moved == days);
    crate::local_time::lemma_time_is_its_nanos_of_day(start.time, end.time);
}

} // verus!
