//! What the kinds of temporal value have in common.

use vstd::prelude::*;
use crate::calendar::{
    days_in_month, days_in_year, is_leap_year, valid_date, MAX_JULIAN_DAY, MAX_YEAR,
    MIN_JULIAN_DAY, MIN_YEAR,
};
use crate::day_of_week::DayOfWeek;
use crate::local_date::LocalDate;
use crate::local_date_time::LocalDateTime;
use crate::local_time::{LocalTime, NANOS_PER_DAY};
use crate::month::Month;

verus! {

/// What the count of milliseconds adds to the whole seconds: the nanoseconds
/// that `nanos` has beyond its whole seconds, divided by a thousand, both
/// rounded toward zero.
pub open spec fn sub_second_part(nanos: int) -> int {
    if nanos >= 0 {
        (nanos % 1_000_000_000) / 1_000
    } else {
        -(((-nanos) % 1_000_000_000) / 1_000)
    }
}

/// A value that marks a point on the time line, counted in nanoseconds from
/// 1970-01-01T00:00:00Z.
pub trait TemporalInstant: Sized {
    /// Whether the value keeps the invariant of its type.
    spec fn on_time_line(self) -> bool;

    /// The nanoseconds from the epoch to the point that the value marks.
    spec fn epoch_nanos(self) -> int;

    /// The whole seconds from the epoch, rounded down.
    fn epoch_seconds(self) -> (seconds: i64)
        requires
            self.on_time_line(),
        ensures
            seconds == self.epoch_nanos() / 1_000_000_000,
    ;

    /// The whole seconds from the epoch as milliseconds, plus
    /// [`sub_second_part`] of the nanoseconds.
    fn epoch_milliseconds(self) -> (milliseconds: i128)
        requires
            self.on_time_line(),
        ensures
            milliseconds == (self.epoch_nanos() / 1_000_000_000) * 1_000 + sub_second_part(
                self.epoch_nanos(),
            ),
    ;

    /// The nanoseconds from the epoch.
    fn epoch_nanoseconds(self) -> (nanoseconds: i128)
        requires
            self.on_time_line(),
        ensures
            nanoseconds == self.epoch_nanos(),
    ;
}

/// A kind of value whose values come one before another.
pub trait Temporal: Copy {
    /// Whether the value keeps the invariant of its type.
    spec fn well_formed(self) -> bool;

    /// The place of the value among the values of its kind: a value comes
    /// before another exactly if its place is the smaller.
    spec fn position(self) -> int;

    /// Whether this value comes before `other`.
    fn is_before(self, other: Self) -> (before: bool)
        requires
            self.well_formed(),
            other.well_formed(),
        ensures
            before == (self.position() < other.position()),
    ;

    /// Whether this value comes after `other`.
    fn is_after(self, other: Self) -> (after: bool)
        requires
            self.well_formed(),
            other.well_formed(),
        ensures
            after == (self.position() > other.position()),
    ;

    /// Whether this value is `other` or comes before it.
    fn is_on_or_before(self, other: Self) -> (on_or_before: bool)
        requires
            self.well_formed(),
            other.well_formed(),
        ensures
            on_or_before == (self.position() <= other.position()),
    ;

    /// Whether this value is `other` or comes after it.
    fn is_on_or_after(self, other: Self) -> (on_or_after: bool)
        requires
            self.well_formed(),
            other.well_formed(),
        ensures
            on_or_after == (self.position() >= other.position()),
    ;
}

/// A kind of value that has a date: a date itself, or a date with more. The
/// methods read the date and make values with another date in its place;
/// whatever else the value holds stays as it is.
pub trait TemporalDate: Temporal {
    /// The date of the value.
    spec fn date_part(self) -> LocalDate;

    /// The value with `date` in the place of its date.
    spec fn with_date_part(self, date: LocalDate) -> Self;

    /// The year.
    fn year(self) -> (year: i32)
        requires
            self.well_formed(),
        ensures
            year == self.date_part().year,
    ;

    /// The month.
    fn month(self) -> (month: Month)
        requires
            self.well_formed(),
        ensures
            month.number() == self.date_part().month,
    ;

    /// The number of the month, from 1 to 12.
    fn month_value(self) -> (month: i32)
        requires
            self.well_formed(),
        ensures
            month == self.date_part().month,
    ;

    /// The position of the date within its year, from 1.
    fn day_of_year(self) -> (ordinal: u16)
        requires
            self.well_formed(),
        ensures
            ordinal == self.date_part().ordinal(),
    ;

    /// The day of the month, from 1.
    fn day_of_month(self) -> (day: u8)
        requires
            self.well_formed(),
        ensures
            day == self.date_part().day,
    ;

    /// The day of the week that the date falls on.
    fn day_of_week(self) -> (day: DayOfWeek)
        requires
            self.well_formed(),
        ensures
            day == self.date_part().weekday(),
    ;

    /// The number of days in the date's month.
    fn length_of_month(self) -> (days: i32)
        requires
            self.well_formed(),
        ensures
            days == days_in_month(self.date_part().year as int, self.date_part().month as int),
    ;

    /// Whether the date's year is a leap year.
    fn is_leap_year(self) -> (leap: bool)
        requires
            self.well_formed(),
        ensures
            leap == is_leap_year(self.date_part().year as int),
    ;

    /// The number of days in the date's year.
    fn length_of_year(self) -> (days: i32)
        requires
            self.well_formed(),
        ensures
            days == days_in_year(self.date_part().year as int),
    ;

    /// The value `years` years later; see [`LocalDate::plus_years`].
    fn plus_years(self, years: i64) -> (result: Self)
        requires
            self.well_formed(),
            MIN_YEAR <= self.date_part().year + years <= MAX_YEAR,
        ensures
            result.well_formed(),
            result == self.with_date_part(self.date_part().years_later(years as int)),
    ;

    /// The value `years` years earlier; see [`LocalDate::minus_years`].
    fn minus_years(self, years: i64) -> (result: Self)
        requires
            self.well_formed(),
            MIN_YEAR <= self.date_part().year - years <= MAX_YEAR,
        ensures
            result.well_formed(),
            result == self.with_date_part(self.date_part().years_earlier(years as int)),
    ;

    /// The value `months` months later; see [`LocalDate::plus_months`].
    fn plus_months(self, months: i64) -> (result: Self)
        requires
            self.well_formed(),
            MIN_YEAR <= (self.date_part().month_count() + months) / 12 <= MAX_YEAR,
        ensures
            result.well_formed(),
            result == self.with_date_part(self.date_part().months_later(months as int)),
    ;

    /// The value `months` months earlier; see [`LocalDate::minus_months`].
    fn minus_months(self, months: i64) -> (result: Self)
        requires
            self.well_formed(),
            MIN_YEAR <= (self.date_part().month_count() - months) / 12 <= MAX_YEAR,
        ensures
            result.well_formed(),
            result == self.with_date_part(self.date_part().months_earlier(months as int)),
    ;

    /// The value `weeks` weeks later, which must be one that can be held.
    fn plus_weeks(self, weeks: i64) -> (result: Self)
        requires
            self.well_formed(),
            MIN_JULIAN_DAY <= self.date_part().julian_day() + weeks * 7 <= MAX_JULIAN_DAY,
        ensures
            result.well_formed(),
            result == self.with_date_part(result.date_part()),
            result.date_part().julian_day() == self.date_part().julian_day() + weeks * 7,
    ;

    /// The value `weeks` weeks earlier, which must be one that can be held.
    fn minus_weeks(self, weeks: i64) -> (result: Self)
        requires
            self.well_formed(),
            MIN_JULIAN_DAY <= self.date_part().julian_day() - weeks * 7 <= MAX_JULIAN_DAY,
        ensures
            result.well_formed(),
            result == self.with_date_part(result.date_part()),
            result.date_part().julian_day() == self.date_part().julian_day() - weeks * 7,
    ;

    /// The value `days` days later, which must be one that can be held.
    fn plus_days(self, days: i64) -> (result: Self)
        requires
            self.well_formed(),
            MIN_JULIAN_DAY <= self.date_part().julian_day() + days <= MAX_JULIAN_DAY,
        ensures
            result.well_formed(),
            result == self.with_date_part(result.date_part()),
            result.date_part().julian_day() == self.date_part().julian_day() + days,
    ;

    /// The value `days` days earlier, which must be one that can be held.
    fn minus_days(self, days: i64) -> (result: Self)
        requires
            self.well_formed(),
            MIN_JULIAN_DAY <= self.date_part().julian_day() - days <= MAX_JULIAN_DAY,
        ensures
            result.well_formed(),
            result == self.with_date_part(result.date_part()),
            result.date_part().julian_day() == self.date_part().julian_day() - days,
    ;

    /// The value in another year; the day must exist in that year.
    fn with_year(self, year: i32) -> (result: Self)
        requires
            self.well_formed(),
            valid_date(year as int, self.date_part().month as int, self.date_part().day as int),
        ensures
            result.well_formed(),
            result == self.with_date_part(LocalDate { year, ..self.date_part() }),
    ;

    /// The value in another month of its year, which must have the day.
    fn with_month(self, month: i32) -> (result: Self)
        requires
            self.well_formed(),
            valid_date(self.date_part().year as int, month as int, self.date_part().day as int),
        ensures
            result.well_formed(),
            result == self.with_date_part(LocalDate { month: month as u8, ..self.date_part() }),
    ;

    /// The value on another day of its month, which must have that day.
    fn with_day_of_month(self, day: u8) -> (result: Self)
        requires
            self.well_formed(),
            valid_date(self.date_part().year as int, self.date_part().month as int, day as int),
        ensures
            result.well_formed(),
            result == self.with_date_part(LocalDate { day, ..self.date_part() }),
    ;

    /// The value on the `day_of_year`-th day of its year, which must have that day.
    fn with_day_of_year(self, day_of_year: u16) -> (result: Self)
        requires
            self.well_formed(),
            1 <= day_of_year <= days_in_year(self.date_part().year as int),
        ensures
            result.well_formed(),
            result == self.with_date_part(result.date_part()),
            result.date_part().year == self.date_part().year,
            result.date_part().ordinal() == day_of_year,
    ;

    /// The value on the first day of its month.
    fn first_day_of_month(self) -> (result: Self)
        requires
            self.well_formed(),
        ensures
            result.well_formed(),
            result == self.with_date_part(self.date_part().first_day_of_month_value()),
    ;

    /// The value on the last day of its month.
    fn last_day_of_month(self) -> (result: Self)
        requires
            self.well_formed(),
        ensures
            result.well_formed(),
            result == self.with_date_part(self.date_part().last_day_of_month_value()),
    ;

    /// The value on the first day of its year.
    fn first_day_of_year(self) -> (result: Self)
        requires
            self.well_formed(),
        ensures
            result.well_formed(),
            result == self.with_date_part(
                LocalDate { year: self.date_part().year, month: 1, day: 1 },
            ),
    ;

    /// The value on the last day of its year.
    fn last_day_of_year(self) -> (result: Self)
        requires
            self.well_formed(),
        ensures
            result.well_formed(),
            result == self.with_date_part(
                LocalDate { year: self.date_part().year, month: 12, day: 31 },
            ),
    ;

    /// The value on the first day of its month that falls on `dow`.
    fn first_in_month(self, dow: DayOfWeek) -> (result: Self)
        requires
            self.well_formed(),
        ensures
            result.well_formed(),
            result == self.with_date_part(result.date_part()),
            result.date_part().year == self.date_part().year,
            result.date_part().month == self.date_part().month,
            result.date_part().weekday() == dow,
            1 <= result.date_part().day <= 7,
    ;

    /// The value on the last day of its month that falls on `dow`.
    fn last_in_month(self, dow: DayOfWeek) -> (result: Self)
        requires
            self.well_formed(),
        ensures
            result.well_formed(),
            result == self.with_date_part(result.date_part()),
            result.date_part().year == self.date_part().year,
            result.date_part().month == self.date_part().month,
            result.date_part().weekday() == dow,
            result.date_part().day + 7 > days_in_month(
                self.date_part().year as int,
                self.date_part().month as int,
            ),
    ;

    /// The value on the first day after its own that falls on `dow`.
    fn next(self, dow: DayOfWeek) -> (result: Self)
        requires
            self.well_formed(),
            self.date_part().julian_day() + 7 <= MAX_JULIAN_DAY,
        ensures
            result.well_formed(),
            result == self.with_date_part(result.date_part()),
            result.date_part().weekday() == dow,
            1 <= result.date_part().julian_day() - self.date_part().julian_day() <= 7,
    ;

    /// The value itself if its day falls on `dow`, else on the first day after it that does.
    fn next_or_same(self, dow: DayOfWeek) -> (result: Self)
        requires
            self.well_formed(),
            self.date_part().julian_day() + 6 <= MAX_JULIAN_DAY,
        ensures
            result.well_formed(),
            result == self.with_date_part(result.date_part()),
            result.date_part().weekday() == dow,
            0 <= result.date_part().julian_day() - self.date_part().julian_day() <= 6,
    ;

    /// The value on the last day before its own that falls on `dow`.
    fn previous(self, dow: DayOfWeek) -> (result: Self)
        requires
            self.well_formed(),
            MIN_JULIAN_DAY <= self.date_part().julian_day() - 7,
        ensures
            result.well_formed(),
            result == self.with_date_part(result.date_part()),
            result.date_part().weekday() == dow,
            1 <= self.date_part().julian_day() - result.date_part().julian_day() <= 7,
    ;

    /// The value itself if its day falls on `dow`, else on the last day before it that does.
    fn previous_or_same(self, dow: DayOfWeek) -> (result: Self)
        requires
            self.well_formed(),
            MIN_JULIAN_DAY <= self.date_part().julian_day() - 6,
        ensures
            result.well_formed(),
            result == self.with_date_part(result.date_part()),
            result.date_part().weekday() == dow,
            0 <= self.date_part().julian_day() - result.date_part().julian_day() <= 6,
    ;
}

/// A kind of value that has a time of day: a time of day itself, or one with
/// a date. The methods read the time of day and make values with another
/// time of day. Going on past midnight, a time of day starts the day again; a
/// value with a date goes on into the next day.
pub trait TemporalTime: Temporal {
    /// The time of day of the value.
    spec fn time_part(self) -> LocalTime;

    /// The value with `time` in the place of its time of day.
    spec fn with_time_part(self, time: LocalTime) -> Self;

    /// Whether the value can be moved by `nanos` nanoseconds: always for a
    /// time of day, and for a value with a date where the result is a date
    /// and time that can be held.
    spec fn can_shift(self, nanos: int) -> bool;

    /// The hour of the day, from 0 to 23.
    fn hour(self) -> (hour: u8)
        requires
            self.well_formed(),
        ensures
            hour == self.time_part().hour,
    ;

    /// The minute of the hour, from 0 to 59.
    fn minute(self) -> (minute: u8)
        requires
            self.well_formed(),
        ensures
            minute == self.time_part().minute,
    ;

    /// The second of the minute, from 0 to 59.
    fn second(self) -> (second: u8)
        requires
            self.well_formed(),
        ensures
            second == self.time_part().second,
    ;

    /// The millisecond of the second, from 0 to 999.
    fn millisecond(self) -> (millisecond: u16)
        requires
            self.well_formed(),
        ensures
            millisecond == self.time_part().nano / 1_000_000,
    ;

    /// The nanosecond of the second, from 0 to 999_999_999.
    fn nanosecond(self) -> (nanosecond: i32)
        requires
            self.well_formed(),
        ensures
            nanosecond == self.time_part().nano,
    ;

    /// The nanoseconds from midnight to the time of day.
    fn total_nanoseconds_of_day(self) -> (nanos: u128)
        requires
            self.well_formed(),
        ensures
            nanos == self.time_part().nanos_of_day(),
    ;

    /// The value `hours` hours later.
    fn plus_hours(self, hours: i64) -> (result: Self)
        requires
            self.well_formed(),
            self.can_shift(hours * 3_600_000_000_000),
        ensures
            result.well_formed(),
            result.time_part().nanos_of_day()
                == (self.time_part().nanos_of_day() + hours * 3_600_000_000_000)
                    % (NANOS_PER_DAY as int),
    ;

    /// The value `minutes` minutes later.
    fn plus_minutes(self, minutes: i64) -> (result: Self)
        requires
            self.well_formed(),
            self.can_shift(minutes * 60_000_000_000),
        ensures
            result.well_formed(),
            result.time_part().nanos_of_day()
                == (self.time_part().nanos_of_day() + minutes * 60_000_000_000)
                    % (NANOS_PER_DAY as int),
    ;

    /// The value `seconds` seconds later.
    fn plus_seconds(self, seconds: i64) -> (result: Self)
        requires
            self.well_formed(),
            self.can_shift(seconds * 1_000_000_000),
        ensures
            result.well_formed(),
            result.time_part().nanos_of_day()
                == (self.time_part().nanos_of_day() + seconds * 1_000_000_000)
                    % (NANOS_PER_DAY as int),
    ;

    /// The value `milliseconds` milliseconds later.
    fn plus_milliseconds(self, milliseconds: i64) -> (result: Self)
        requires
            self.well_formed(),
            self.can_shift(milliseconds * 1_000_000),
        ensures
            result.well_formed(),
            result.time_part().nanos_of_day()
                == (self.time_part().nanos_of_day() + milliseconds * 1_000_000)
                    % (NANOS_PER_DAY as int),
    ;

    /// The value `nanoseconds` nanoseconds later.
    fn plus_nanoseconds(self, nanoseconds: i64) -> (result: Self)
        requires
            self.well_formed(),
            self.can_shift(nanoseconds as int),
        ensures
            result.well_formed(),
            result.time_part().nanos_of_day()
                == (self.time_part().nanos_of_day() + nanoseconds) % (NANOS_PER_DAY as int),
    ;

    /// The value `hours` hours earlier.
    fn minus_hours(self, hours: i64) -> (result: Self)
        requires
            self.well_formed(),
            self.can_shift(-(hours * 3_600_000_000_000)),
        ensures
            result.well_formed(),
            result.time_part().nanos_of_day()
                == (self.time_part().nanos_of_day() - hours * 3_600_000_000_000)
                    % (NANOS_PER_DAY as int),
    ;

    /// The value `minutes` minutes earlier.
    fn minus_minutes(self, minutes: i64) -> (result: Self)
        requires
            self.well_formed(),
            self.can_shift(-(minutes * 60_000_000_000)),
        ensures
            result.well_formed(),
            result.time_part().nanos_of_day()
                == (self.time_part().nanos_of_day() - minutes * 60_000_000_000)
                    % (NANOS_PER_DAY as int),
    ;

    /// The value `seconds` seconds earlier.
    fn minus_seconds(self, seconds: i64) -> (result: Self)
        requires
            self.well_formed(),
            self.can_shift(-(seconds * 1_000_000_000)),
        ensures
            result.well_formed(),
            result.time_part().nanos_of_day()
                == (self.time_part().nanos_of_day() - seconds * 1_000_000_000)
                    % (NANOS_PER_DAY as int),
    ;

    /// The value `milliseconds` milliseconds earlier.
    fn minus_milliseconds(self, milliseconds: i64) -> (result: Self)
        requires
            self.well_formed(),
            self.can_shift(-(milliseconds * 1_000_000)),
        ensures
            result.well_formed(),
            result.time_part().nanos_of_day()
                == (self.time_part().nanos_of_day() - milliseconds * 1_000_000)
                    % (NANOS_PER_DAY as int),
    ;

    /// The value `nanoseconds` nanoseconds earlier.
    fn minus_nanoseconds(self, nanoseconds: i64) -> (result: Self)
        requires
            self.well_formed(),
            self.can_shift(-nanoseconds),
        ensures
            result.well_formed(),
            result.time_part().nanos_of_day()
                == (self.time_part().nanos_of_day() - nanoseconds) % (NANOS_PER_DAY as int),
    ;

    /// The value with the hour replaced. The hour must be below 24.
    fn with_hour(self, hour: u8) -> (result: Self)
        requires
            self.well_formed(),
            hour < 24,
        ensures
            result.well_formed(),
            result == self.with_time_part(LocalTime { hour, ..self.time_part() }),
    ;

    /// The value with the minute replaced. The minute must be below 60.
    fn with_minute(self, minute: u8) -> (result: Self)
        requires
            self.well_formed(),
            minute < 60,
        ensures
            result.well_formed(),
            result == self.with_time_part(LocalTime { minute, ..self.time_part() }),
    ;

    /// The value with the second replaced. The second must be below 60.
    fn with_second(self, second: u8) -> (result: Self)
        requires
            self.well_formed(),
            second < 60,
        ensures
            result.well_formed(),
            result == self.with_time_part(LocalTime { second, ..self.time_part() }),
    ;

    /// The value with its fraction of the second replaced by `millisecond` milliseconds.
    fn with_millisecond(self, millisecond: u16) -> (result: Self)
        requires
            self.well_formed(),
            millisecond < 1000,
        ensures
            result.well_formed(),
            result == self.with_time_part(
                LocalTime { nano: (millisecond * 1_000_000) as u32, ..self.time_part() },
            ),
    ;

    /// The value with the nanosecond of the second replaced; the count is below 1_000_000_000.
    fn with_nanosecond(self, nanosecond: u32) -> (result: Self)
        requires
            self.well_formed(),
            nanosecond < 1_000_000_000,
        ensures
            result.well_formed(),
            result == self.with_time_part(LocalTime { nano: nanosecond, ..self.time_part() }),
    ;
}

/// A kind of value that has both a date and a time of day.
pub trait TemporalDateTime: TemporalDate + TemporalTime {
    /// The date of the value.
    fn to_local_date(self) -> (date: LocalDate)
        ensures
            date == self.date_part(),
    ;

    /// The time of day of the value.
    fn to_local_time(self) -> (time: LocalTime)
        ensures
            time == self.time_part(),
    ;

    /// The date and time of day of the value.
    fn to_local_date_time(self) -> (date_time: LocalDateTime)
        ensures
            date_time == (LocalDateTime { date: self.date_part(), time: self.time_part() }),
    ;
}

} // verus!
