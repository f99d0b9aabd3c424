//! A date and time together with its offset from UTC.

use vstd::prelude::*;
use crate::calendar::{
    days_in_month, days_in_year, is_leap_year, valid_date, MAX_YEAR, MIN_YEAR,
};
use crate::clock::Clock;
use crate::day_of_week::DayOfWeek;
use crate::instant::Instant;
use crate::local_date::LocalDate;
use crate::local_date_time::{LocalDateTime, MAX_LOCAL_NANOS, MIN_LOCAL_NANOS};
use crate::local_time::{LocalTime, NANOS_PER_DAY};
use crate::month::{month_from_number, Month};
use crate::temporal::TemporalInstant;
use crate::zone_offset::ZoneOffset;

verus! {

/// A date and time as a clock shows it that runs at a fixed offset from UTC.
/// Arithmetic changes what the clock shows and never the offset.
#[derive(Debug, Clone, Copy, PartialEq, Eq, Hash, Structural)]
pub struct OffsetDateTime {
    pub date_time: LocalDateTime,
    pub offset: ZoneOffset,
}

impl OffsetDateTime {
    /// The invariant: that of the date and time and that of the offset.
    pub open spec fn wf(self) -> bool {
        self.date_time.wf() && self.offset.wf()
    }

    /// The nanoseconds from the epoch to the instant that this date and time
    /// marks: those to the date and time that the clock shows, less the offset.
    pub open spec fn instant_nanos(self) -> int {
        self.date_time.local_nanos() - self.offset.seconds * 1_000_000_000
    }

    /// This value with another date and time, at the same offset.
    fn with_local(self, date_time: LocalDateTime) -> (result: OffsetDateTime)
        requires
            self.wf(),
            date_time.wf(),
        ensures
            result.wf(),
            result == (OffsetDateTime { date_time, ..self }),
    {
        OffsetDateTime { date_time, offset: self.offset }
    }

    /// The present moment, as a clock of UTC shows it.
    pub fn now_utc() -> (result: OffsetDateTime)
        ensures
            result.wf(),
            result.offset.seconds == 0,
    {
        Instant::now().at_offset(ZoneOffset::utc())
    }

    /// The present moment, as a clock at `offset` shows it; nothing where this
    /// library cannot hold what it shows, which at the offset of UTC it can.
    pub fn now_with_offset(offset: ZoneOffset) -> (result: Option<OffsetDateTime>)
        requires
            offset.wf(),
        ensures
            offset.seconds == 0 ==> result.is_some(),
            result matches Some(shown) ==> {
                &&& shown.wf()
                &&& shown.offset == offset
                &&& shown.marks_instant()
            },
    {
        Instant::now().try_at_offset(offset)
    }

    /// The moment that `clock` tells, as a clock of UTC shows it.
    pub fn now_with_clock(clock: &Clock) -> (result: OffsetDateTime)
        requires
            clock.wf(),
        ensures
            result.wf(),
            result.offset.seconds == 0,
            clock matches Clock::Fixed(fixed) ==> result.instant_nanos() == fixed.instant.nanos,
    {
        clock.instant().at_offset(ZoneOffset::of_hours(0))
    }

    /// The given date and time, taken as one of UTC.
    pub fn new_utc(ldt: LocalDateTime) -> (result: OffsetDateTime)
        requires
            ldt.wf(),
        ensures
            result.wf(),
            result == (OffsetDateTime { date_time: ldt, offset: ZoneOffset { seconds: 0 } }),
    {
        OffsetDateTime { date_time: ldt, offset: ZoneOffset::utc() }
    }

    /// The given date and time, taken as one shown at `offset`.
    pub fn new(ldt: LocalDateTime, offset: ZoneOffset) -> (result: OffsetDateTime)
        requires
            ldt.wf(),
            offset.wf(),
        ensures
            result.wf(),
            result == (OffsetDateTime { date_time: ldt, offset }),
    {
        OffsetDateTime { date_time: ldt, offset }
    }

    /// The given date and time, taken as one shown at `offset`.
    pub fn of(ldt: LocalDateTime, offset: ZoneOffset) -> (result: OffsetDateTime)
        requires
            ldt.wf(),
            offset.wf(),
        ensures
            result.wf(),
            result == (OffsetDateTime { date_time: ldt, offset }),
    {
        OffsetDateTime { date_time: ldt, offset }
    }

    /// The offset from UTC, in seconds.
    pub fn offset(self) -> (seconds: i32)
        ensures
            seconds == self.offset.seconds,
    {
        self.offset.seconds
    }

    /// What a clock at `offset` shows at the instant that this date and time
    /// marks. It must be a date and time that this library can hold.
    pub fn with_offset_same_instant(self, offset: ZoneOffset) -> (result: OffsetDateTime)
        requires
            self.wf(),
            offset.wf(),
            self.date_time.can_move_by((offset.seconds - self.offset.seconds) * 1_000_000_000),
        ensures
            result.wf(),
            result.offset == offset,
            result.instant_nanos() == self.instant_nanos(),
    {
        let shift: i128 = ((offset.seconds as i128) - (self.offset.seconds as i128))
            * 1_000_000_000;
        OffsetDateTime { date_time: self.date_time.plus_nanos_exact(shift), offset }
    }

    /// Whether this date and time marks an earlier instant than `other`.
    pub fn is_before(self, other: OffsetDateTime) -> (before: bool)
        requires
            self.wf(),
            other.wf(),
        ensures
            before == (self.instant_nanos() < other.instant_nanos()),
    {
        self.epoch_nanoseconds() < other.epoch_nanoseconds()
    }

    /// Whether this date and time marks a later instant than `other`.
    pub fn is_after(self, other: OffsetDateTime) -> (after: bool)
        requires
            self.wf(),
            other.wf(),
        ensures
            after == (self.instant_nanos() > other.instant_nanos()),
    {
        self.epoch_nanoseconds() > other.epoch_nanoseconds()
    }

    /// Whether this date and time marks the instant of `other` or an earlier one.
    pub fn is_on_or_before(self, other: OffsetDateTime) -> (on_or_before: bool)
        requires
            self.wf(),
            other.wf(),
        ensures
            on_or_before == (self.instant_nanos() <= other.instant_nanos()),
    {
        self.epoch_nanoseconds() <= other.epoch_nanoseconds()
    }

    /// Whether this date and time marks the instant of `other` or a later one.
    pub fn is_on_or_after(self, other: OffsetDateTime) -> (on_or_after: bool)
        requires
            self.wf(),
            other.wf(),
        ensures
            on_or_after == (self.instant_nanos() >= other.instant_nanos()),
    {
        self.epoch_nanoseconds() >= other.epoch_nanoseconds()
    }

    /// Whether the instant that this date and time marks is one that an
    /// [`Instant`] can hold.
    pub open spec fn marks_instant(self) -> bool {
        Instant::in_range(self.instant_nanos())
    }

    /// Executable form of [`OffsetDateTime::marks_instant`].
    pub fn has_instant(self) -> (marks: bool)
        requires
            self.wf(),
        ensures
            marks == self.marks_instant(),
    {
        let nanos: i128 = self.epoch_nanoseconds();
        MIN_LOCAL_NANOS <= nanos && nanos <= MAX_LOCAL_NANOS
    }

    /// The instant that this date and time marks, to the whole second below it.
    pub fn to_instant(self) -> (instant: Instant)
        requires
            self.wf(),
            self.marks_instant(),
        ensures
            instant.wf(),
            instant.nanos == (self.instant_nanos() / 1_000_000_000) * 1_000_000_000,
    {
        Instant::of_epoch_second(self.epoch_seconds())
    }

    /// The date that the clock shows.
    pub fn to_local_date(self) -> (date: LocalDate)
        ensures
            date == self.date_time.date,
    {
        self.date_time.date
    }

    /// The time of day that the clock shows.
    pub fn to_local_time(self) -> (time: LocalTime)
        ensures
            time == self.date_time.time,
    {
        self.date_time.time
    }

    /// The date and time that the clock shows.
    pub fn to_local_date_time(self) -> (date_time: LocalDateTime)
        ensures
            date_time == self.date_time,
    {
        self.date_time
    }

    /// The whole seconds from the epoch to the instant that this date and
    /// time marks, rounded down.
    pub fn epoch_seconds(self) -> (seconds: i64)
        requires
            self.wf(),
        ensures
            seconds == self.instant_nanos() / 1_000_000_000,
    {
        let local: i64 = self.date_time.epoch_seconds();
        let seconds: i64 = local - (self.offset.seconds as i64);
        assert(self.instant_nanos() == self.date_time.local_nanos() - self.offset.seconds
            * 1_000_000_000);
        assert(self.date_time.local_nanos() == local * 1_000_000_000 + self.date_time.time.nano);
        seconds
    }

    /// The nanoseconds from the epoch to the instant that this date and time marks.
    pub fn epoch_nanoseconds(self) -> (nanoseconds: i128)
        requires
            self.wf(),
        ensures
            nanoseconds == self.instant_nanos(),
    {
        self.date_time.to_local_nanos() - (self.offset.seconds as i128) * 1_000_000_000
    }

    /// The year.
    pub fn year(self) -> (year: i32)
        ensures
            year == self.date_time.date.year,
    {
        self.date_time.year()
    }

    /// The month.
    pub fn month(self) -> (month: Month)
        requires
            self.wf(),
        ensures
            month == month_from_number(self.date_time.date.month as int),
            month.number() == self.date_time.date.month,
    {
        self.date_time.month()
    }

    /// The number of the month, from 1 to 12.
    pub fn month_value(self) -> (month: i32)
        ensures
            month == self.date_time.date.month,
    {
        self.date_time.month_value()
    }

    /// The position of the date within its year, from 1.
    pub fn day_of_year(self) -> (ordinal: i32)
        requires
            self.wf(),
        ensures
            ordinal == self.date_time.date.ordinal(),
    {
        self.date_time.day_of_year()
    }

    /// The day of the month, from 1.
    pub fn day_of_month(self) -> (day: i32)
        ensures
            day == self.date_time.date.day,
    {
        self.date_time.day_of_month()
    }

    /// The day of the week that the date falls on.
    pub fn day_of_week(self) -> (day: DayOfWeek)
        requires
            self.wf(),
        ensures
            day == self.date_time.date.weekday(),
    {
        self.date_time.day_of_week()
    }

    /// The number of days in the date's month.
    pub fn length_of_month(self) -> (days: i32)
        requires
            self.wf(),
        ensures
            days == days_in_month(
                self.date_time.date.year as int,
                self.date_time.date.month as int,
            ),
    {
        self.date_time.length_of_month()
    }

    /// Whether the date's year is a leap year.
    pub fn is_leap_year(self) -> (leap: bool)
        ensures
            leap == is_leap_year(self.date_time.date.year as int),
    {
        self.date_time.is_leap_year()
    }

    /// The number of days in the date's year.
    pub fn length_of_year(self) -> (days: i32)
        ensures
            days == days_in_year(self.date_time.date.year as int),
    {
        self.date_time.length_of_year()
    }

    /// The hour of the day, from 0 to 23.
    pub fn hour(self) -> (hour: i32)
        ensures
            hour == self.date_time.time.hour,
    {
        self.date_time.hour()
    }

    /// The minute of the hour, from 0 to 59.
    pub fn minute(self) -> (minute: i32)
        ensures
            minute == self.date_time.time.minute,
    {
        self.date_time.minute()
    }

    /// The second of the minute, from 0 to 59.
    pub fn second(self) -> (second: i32)
        ensures
            second == self.date_time.time.second,
    {
        self.date_time.second()
    }

    /// The millisecond of the second, from 0 to 999.
    pub fn millisecond(self) -> (millisecond: i32)
        requires
            self.wf(),
        ensures
            millisecond == self.date_time.time.nano / 1_000_000,
    {
        self.date_time.millisecond()
    }

    /// The nanosecond of the second, from 0 to 999_999_999.
    pub fn nanosecond(self) -> (nanosecond: i32)
        requires
            self.wf(),
        ensures
            nanosecond == self.date_time.time.nano,
    {
        self.date_time.nanosecond()
    }

    /// The same time of day `years` years later, at the same offset; see
    /// [`LocalDate::plus_years`].
    pub fn plus_years(self, years: i64) -> (result: OffsetDateTime)
        requires
            self.wf(),
            MIN_YEAR <= self.date_time.date.year + years <= MAX_YEAR,
        ensures
            result.wf(),
            result == (OffsetDateTime {
                date_time: LocalDateTime {
                    date: self.date_time.date.years_later(years as int),
                    time: self.date_time.time,
                },
                ..self
            }),
    {
        self.with_local(self.date_time.plus_years(years))
    }

    /// The same time of day `months` months later, at the same offset; see
    /// [`LocalDate::plus_months`].
    pub fn plus_months(self, months: i64) -> (result: OffsetDateTime)
        requires
            self.wf(),
            MIN_YEAR <= (self.date_time.date.month_count() + months) / 12 <= MAX_YEAR,
        ensures
            result.wf(),
            result == (OffsetDateTime {
                date_time: LocalDateTime {
                    date: self.date_time.date.months_later(months as int),
                    time: self.date_time.time,
                },
                ..self
            }),
    {
        let date: LocalDate = self.date_time.date.shifted_by_months(months);
        self.with_local(LocalDateTime { date, time: self.date_time.time })
    }

    /// The same time of day `years` years earlier, at the same offset: the
    /// negated count of years later.
    pub fn minus_years(self, years: i64) -> (result: OffsetDateTime)
        requires
            self.wf(),
            MIN_YEAR <= self.date_time.date.year - years <= MAX_YEAR,
        ensures
            result.wf(),
            result == (OffsetDateTime {
                date_time: LocalDateTime {
                    date: self.date_time.date.years_earlier(years as int),
                    time: self.date_time.time,
                },
                ..self
            }),
    {
        self.plus_years(-years)
    }

    /// The same time of day `months` months earlier, at the same offset: the
    /// negated count of months later.
    pub fn minus_months(self, months: i64) -> (result: OffsetDateTime)
        requires
            self.wf(),
            MIN_YEAR <= (self.date_time.date.month_count() - months) / 12 <= MAX_YEAR,
        ensures
            result.wf(),
            result == (OffsetDateTime {
                date_time: LocalDateTime {
                    date: self.date_time.date.months_earlier(months as int),
                    time: self.date_time.time,
                },
                ..self
            }),
    {
        self.plus_months(-months)
    }

    /// The date and time `weeks` weeks later, at the same offset. It must
    /// be one that this library can hold.
    pub fn plus_weeks(self, weeks: i64) -> (result: OffsetDateTime)
        requires
            self.wf(),
            self.date_time.can_move_by(weeks * 7 * NANOS_PER_DAY),
        ensures
            result.wf(),
            result == (OffsetDateTime { date_time: result.date_time, ..self }),
            result.date_time.local_nanos()
                == self.date_time.local_nanos() + weeks * 7 * NANOS_PER_DAY,
    {
        self.with_local(self.date_time.plus_nanos_exact((weeks as i128) * 604_800_000_000_000))
    }

    /// The date and time `days` days later, at the same offset. It must
    /// be one that this library can hold.
    pub fn plus_days(self, days: i64) -> (result: OffsetDateTime)
        requires
            self.wf(),
            self.date_time.can_move_by(days * NANOS_PER_DAY),
        ensures
            result.wf(),
            result == (OffsetDateTime { date_time: result.date_time, ..self }),
            result.date_time.local_nanos() == self.date_time.local_nanos() + days * NANOS_PER_DAY,
    {
        self.with_local(self.date_time.plus_nanos_exact((days as i128) * 86_400_000_000_000))
    }

    /// The date and time `hours` hours later, at the same offset. It must
    /// be one that this library can hold.
    pub fn plus_hours(self, hours: i64) -> (result: OffsetDateTime)
        requires
            self.wf(),
            self.date_time.can_move_by(hours * 3_600_000_000_000),
        ensures
            result.wf(),
            result == (OffsetDateTime { date_time: result.date_time, ..self }),
            result.date_time.local_nanos()
                == self.date_time.local_nanos() + hours * 3_600_000_000_000,
    {
        self.with_local(self.date_time.plus_nanos_exact((hours as i128) * 3_600_000_000_000))
    }

    /// The date and time `minutes` minutes later, at the same offset. It must
    /// be one that this library can hold.
    pub fn plus_minutes(self, minutes: i64) -> (result: OffsetDateTime)
        requires
            self.wf(),
            self.date_time.can_move_by(minutes * 60_000_000_000),
        ensures
            result.wf(),
            result == (OffsetDateTime { date_time: result.date_time, ..self }),
            result.date_time.local_nanos()
                == self.date_time.local_nanos() + minutes * 60_000_000_000,
    {
        self.with_local(self.date_time.plus_nanos_exact((minutes as i128) * 60_000_000_000))
    }

    /// The date and time `seconds` seconds later, at the same offset. It must
    /// be one that this library can hold.
    pub fn plus_seconds(self, seconds: i64) -> (result: OffsetDateTime)
        requires
            self.wf(),
            self.date_time.can_move_by(seconds * 1_000_000_000),
        ensures
            result.wf(),
            result == (OffsetDateTime { date_time: result.date_time, ..self }),
            result.date_time.local_nanos()
                == self.date_time.local_nanos() + seconds * 1_000_000_000,
    {
        self.with_local(self.date_time.plus_nanos_exact((seconds as i128) * 1_000_000_000))
    }

    /// The date and time `milliseconds` milliseconds later, at the same offset. It must
    /// be one that this library can hold.
    pub fn plus_milliseconds(self, milliseconds: i64) -> (result: OffsetDateTime)
        requires
            self.wf(),
            self.date_time.can_move_by(milliseconds * 1_000_000),
        ensures
            result.wf(),
            result == (OffsetDateTime { date_time: result.date_time, ..self }),
            result.date_time.local_nanos()
                == self.date_time.local_nanos() + milliseconds * 1_000_000,
    {
        self.with_local(self.date_time.plus_nanos_exact((milliseconds as i128) * 1_000_000))
    }

    /// The date and time `nanoseconds` nanoseconds later, at the same offset. It must
    /// be one that this library can hold.
    pub fn plus_nanoseconds(self, nanoseconds: i64) -> (result: OffsetDateTime)
        requires
            self.wf(),
            self.date_time.can_move_by((nanoseconds as int)),
        ensures
            result.wf(),
            result == (OffsetDateTime { date_time: result.date_time, ..self }),
            result.date_time.local_nanos() == self.date_time.local_nanos() + (nanoseconds as int),
    {
        self.with_local(self.date_time.plus_nanos_exact(nanoseconds as i128))
    }

    /// The date and time `weeks` weeks earlier, at the same offset. It must
    /// be one that this library can hold.
    pub fn minus_weeks(self, weeks: i64) -> (result: OffsetDateTime)
        requires
            self.wf(),
            self.date_time.can_move_by(-(weeks * 7 * NANOS_PER_DAY)),
        ensures
            result.wf(),
            result == (OffsetDateTime { date_time: result.date_time, ..self }),
            result.date_time.local_nanos()
                == self.date_time.local_nanos() - weeks * 7 * NANOS_PER_DAY,
    {
        self.with_local(self.date_time.plus_nanos_exact(-((weeks as i128) * 604_800_000_000_000)))
    }

    /// The date and time `days` days earlier, at the same offset. It must
    /// be one that this library can hold.
    pub fn minus_days(self, days: i64) -> (result: OffsetDateTime)
        requires
            self.wf(),
            self.date_time.can_move_by(-(days * NANOS_PER_DAY)),
        ensures
            result.wf(),
            result == (OffsetDateTime { date_time: result.date_time, ..self }),
            result.date_time.local_nanos() == self.date_time.local_nanos() - days * NANOS_PER_DAY,
    {
        self.with_local(self.date_time.plus_nanos_exact(-((days as i128) * 86_400_000_000_000)))
    }

    /// The date and time `hours` hours earlier, at the same offset. It must
    /// be one that this library can hold.
    pub fn minus_hours(self, hours: i64) -> (result: OffsetDateTime)
        requires
            self.wf(),
            self.date_time.can_move_by(-(hours * 3_600_000_000_000)),
        ensures
            result.wf(),
            result == (OffsetDateTime { date_time: result.date_time, ..self }),
            result.date_time.local_nanos()
                == self.date_time.local_nanos() - hours * 3_600_000_000_000,
    {
        self.with_local(self.date_time.plus_nanos_exact(-((hours as i128) * 3_600_000_000_000)))
    }

    /// The date and time `minutes` minutes earlier, at the same offset. It must
    /// be one that this library can hold.
    pub fn minus_minutes(self, minutes: i64) -> (result: OffsetDateTime)
        requires
            self.wf(),
            self.date_time.can_move_by(-(minutes * 60_000_000_000)),
        ensures
            result.wf(),
            result == (OffsetDateTime { date_time: result.date_time, ..self }),
            result.date_time.local_nanos()
                == self.date_time.local_nanos() - minutes * 60_000_000_000,
    {
        self.with_local(self.date_time.plus_nanos_exact(-((minutes as i128) * 60_000_000_000)))
    }

    /// The date and time `seconds` seconds earlier, at the same offset. It must
    /// be one that this library can hold.
    pub fn minus_seconds(self, seconds: i64) -> (result: OffsetDateTime)
        requires
            self.wf(),
            self.date_time.can_move_by(-(seconds * 1_000_000_000)),
        ensures
            result.wf(),
            result == (OffsetDateTime { date_time: result.date_time, ..self }),
            result.date_time.local_nanos()
                == self.date_time.local_nanos() - seconds * 1_000_000_000,
    {
        self.with_local(self.date_time.plus_nanos_exact(-((seconds as i128) * 1_000_000_000)))
    }

    /// The date and time `milliseconds` milliseconds earlier, at the same offset. It must
    /// be one that this library can hold.
    pub fn minus_milliseconds(self, milliseconds: i64) -> (result: OffsetDateTime)
        requires
            self.wf(),
            self.date_time.can_move_by(-(milliseconds * 1_000_000)),
        ensures
            result.wf(),
            result == (OffsetDateTime { date_time: result.date_time, ..self }),
            result.date_time.local_nanos()
                == self.date_time.local_nanos() - milliseconds * 1_000_000,
    {
        self.with_local(self.date_time.plus_nanos_exact(-((milliseconds as i128) * 1_000_000)))
    }

    /// The date and time `nanoseconds` nanoseconds earlier, at the same offset. It must
    /// be one that this library can hold.
    pub fn minus_nanoseconds(self, nanoseconds: i64) -> (result: OffsetDateTime)
        requires
            self.wf(),
            self.date_time.can_move_by(-((nanoseconds as int))),
        ensures
            result.wf(),
            result == (OffsetDateTime { date_time: result.date_time, ..self }),
            result.date_time.local_nanos() == self.date_time.local_nanos() - (nanoseconds as int),
    {
        self.with_local(self.date_time.plus_nanos_exact(-(nanoseconds as i128)))
    }

    /// This date and time in another year, at the same offset; the day must
    /// exist in that year.
    pub fn with_year(self, year: i32) -> (result: OffsetDateTime)
        requires
            self.wf(),
            valid_date(
                year as int,
                self.date_time.date.month as int,
                self.date_time.date.day as int,
            ),
        ensures
            result.wf(),
            result == (OffsetDateTime {
                date_time: LocalDateTime {
                    date: LocalDate { year, ..self.date_time.date },
                    time: self.date_time.time,
                },
                ..self
            }),
    {
        self.with_local(self.date_time.with_year(year))
    }

    /// This date and time in another month of its year, at the same offset;
    /// the day must exist in that month.
    pub fn with_month(self, month: i32) -> (result: OffsetDateTime)
        requires
            self.wf(),
            valid_date(
                self.date_time.date.year as int,
                month as int,
                self.date_time.date.day as int,
            ),
        ensures
            result.wf(),
            result == (OffsetDateTime {
                date_time: LocalDateTime {
                    date: LocalDate { month: month as u8, ..self.date_time.date },
                    time: self.date_time.time,
                },
                ..self
            }),
    {
        self.with_local(self.date_time.with_month(month))
    }

    /// This time of day on the `day_of_year`-th day of the year, which must
    /// have that many days, at the same offset.
    pub fn with_day_of_year(self, day_of_year: u16) -> (result: OffsetDateTime)
        requires
            self.wf(),
            1 <= day_of_year <= days_in_year(self.date_time.date.year as int),
        ensures
            result.wf(),
            result == (OffsetDateTime { date_time: result.date_time, ..self }),
            result.date_time.time == self.date_time.time,
            result.date_time.date.year == self.date_time.date.year,
            result.date_time.date.ordinal() == day_of_year,
    {
        self.with_local(self.date_time.with_day_of_year(day_of_year))
    }

    /// This date and time on another day of its month, which must have that
    /// day, at the same offset.
    pub fn with_day_of_month(self, day: u8) -> (result: OffsetDateTime)
        requires
            self.wf(),
            valid_date(
                self.date_time.date.year as int,
                self.date_time.date.month as int,
                day as int,
            ),
        ensures
            result.wf(),
            result == (OffsetDateTime {
                date_time: LocalDateTime {
                    date: LocalDate { day, ..self.date_time.date },
                    time: self.date_time.time,
                },
                ..self
            }),
    {
        self.with_local(self.date_time.with_day_of_month(day))
    }

    /// This date and time with the hour replaced. The hour must be below 24.
    pub fn with_hour(self, hour: u8) -> (result: OffsetDateTime)
        requires
            self.wf(),
            hour < 24,
        ensures
            result.wf(),
            result == (OffsetDateTime {
                date_time: LocalDateTime {
                    date: self.date_time.date,
                    time: LocalTime { hour, ..self.date_time.time },
                },
                ..self
            }),
    {
        self.with_local(self.date_time.with_hour(hour))
    }

    /// This date and time with the minute replaced. The minute must be below 60.
    pub fn with_minute(self, minute: u8) -> (result: OffsetDateTime)
        requires
            self.wf(),
            minute < 60,
        ensures
            result.wf(),
            result == (OffsetDateTime {
                date_time: LocalDateTime {
                    date: self.date_time.date,
                    time: LocalTime { minute, ..self.date_time.time },
                },
                ..self
            }),
    {
        self.with_local(self.date_time.with_minute(minute))
    }

    /// This date and time with the second replaced. The second must be below 60.
    pub fn with_second(self, second: u8) -> (result: OffsetDateTime)
        requires
            self.wf(),
            second < 60,
        ensures
            result.wf(),
            result == (OffsetDateTime {
                date_time: LocalDateTime {
                    date: self.date_time.date,
                    time: LocalTime { second, ..self.date_time.time },
                },
                ..self
            }),
    {
        self.with_local(self.date_time.with_second(second))
    }

    /// This date and time with the fraction of the second replaced by
    /// `millisecond` milliseconds. The count must be below 1000.
    pub fn with_millisecond(self, millisecond: u16) -> (result: OffsetDateTime)
        requires
            self.wf(),
            millisecond < 1000,
        ensures
            result.wf(),
            result == (OffsetDateTime {
                date_time: LocalDateTime {
                    date: self.date_time.date,
                    time: LocalTime {
                        nano: (millisecond * 1_000_000) as u32,
                        ..self.date_time.time
                    },
                },
                ..self
            }),
    {
        self.with_local(self.date_time.with_millisecond(millisecond))
    }

    /// This date and time with the nanosecond of the second replaced. The
    /// count must be below 1_000_000_000.
    pub fn with_nanosecond(self, nanosecond: u32) -> (result: OffsetDateTime)
        requires
            self.wf(),
            nanosecond < 1_000_000_000,
        ensures
            result.wf(),
            result == (OffsetDateTime {
                date_time: LocalDateTime {
                    date: self.date_time.date,
                    time: LocalTime { nano: nanosecond, ..self.date_time.time },
                },
                ..self
            }),
    {
        self.with_local(self.date_time.with_nanosecond(nanosecond))
    }
}

impl TemporalInstant for OffsetDateTime {
    open spec fn on_time_line(self) -> bool {
        self.wf()
    }

    open spec fn epoch_nanos(self) -> int {
        self.instant_nanos()
    }

    fn epoch_seconds(self) -> (seconds: i64) {
        OffsetDateTime::epoch_seconds(self)
    }

    fn epoch_milliseconds(self) -> (milliseconds: i128) {
        let seconds: i128 = OffsetDateTime::epoch_seconds(self) as i128;
        let nanos: i128 = OffsetDateTime::epoch_nanoseconds(self);
        seconds * 1_000 + (nanos % 1_000_000_000) / 1_000
    }

    fn epoch_nanoseconds(self) -> (nanoseconds: i128) {
        OffsetDateTime::epoch_nanoseconds(self)
    }
}

/// Arithmetic on the date and time leaves the offset as it is, and moves the
/// instant by as much as it moves the date and time that the clock shows.
pub proof fn lemma_offset_arithmetic_keeps_offset(before: OffsetDateTime, after: OffsetDateTime)
    requires
        after == (OffsetDateTime { date_time: after.date_time, ..before }),
    ensures
        after.offset == before.offset,
        after.instant_nanos() - before.instant_nanos() == after.date_time.local_nanos()
            - before.date_time.local_nanos(),
{
}

} // verus!
