//! A time of day without a date, exact to the nanosecond.

use vstd::prelude::*;
use vstd::arithmetic::div_mod::lemma_fundamental_div_mod_converse;
use crate::calendar::floor_mod_wide;
use crate::duration::Duration;
use crate::local_date::LocalDate;
use crate::local_date_time::LocalDateTime;

verus! {

/// Nanoseconds in a day of 24 hours.
pub const NANOS_PER_DAY: i64 = 86_400_000_000_000;

/// Nanoseconds in an hour.
pub const NANOS_PER_HOUR: i64 = 3_600_000_000_000;

/// Nanoseconds in a minute.
pub const NANOS_PER_MINUTE: i64 = 60_000_000_000;

/// Whether the four numbers name a time of day.
pub open spec fn valid_time(hour: int, minute: int, second: int, nano: int) -> bool {
    &&& 0 <= hour < 24
    &&& 0 <= minute < 60
    &&& 0 <= second < 60
    &&& 0 <= nano < 1_000_000_000
}

/// The nanoseconds from midnight to the time of day that the four numbers name.
pub open spec fn nanos_since_midnight(hour: int, minute: int, second: int, nano: int) -> int {
    hour * NANOS_PER_HOUR + minute * NANOS_PER_MINUTE + second * 1_000_000_000 + nano
}

/// A time of day: hour, minute, second and nanosecond of the second.
#[derive(Debug, Clone, Copy, PartialEq, Eq, Hash, PartialOrd, Ord, Structural)]
pub struct LocalTime {
    pub hour: u8,
    pub minute: u8,
    pub second: u8,
    pub nano: u32,
}

impl LocalTime {
    /// The invariant of a time of day: every field within its range.
    pub open spec fn wf(self) -> bool {
        valid_time(self.hour as int, self.minute as int, self.second as int, self.nano as int)
    }

    /// The nanoseconds from midnight to this time of day.
    pub open spec fn nanos_of_day(self) -> int {
        nanos_since_midnight(
            self.hour as int,
            self.minute as int,
            self.second as int,
            self.nano as int,
        )
    }

    /// The time of day that lies `nanos` nanoseconds after midnight.
    pub open spec fn at_nanos_of_day(nanos: int) -> LocalTime {
        LocalTime {
            hour: (nanos / (NANOS_PER_HOUR as int)) as u8,
            minute: ((nanos % (NANOS_PER_HOUR as int)) / (NANOS_PER_MINUTE as int)) as u8,
            second: ((nanos % (NANOS_PER_MINUTE as int)) / 1_000_000_000) as u8,
            nano: (nanos % 1_000_000_000) as u32,
        }
    }

    /// The time of day that lies `nanos` nanoseconds after midnight.
    pub fn from_nanos_of_day(nanos: i64) -> (time: LocalTime)
        requires
            0 <= nanos < NANOS_PER_DAY,
        ensures
            time.wf(),
            time.nanos_of_day() == nanos,
            time == LocalTime::at_nanos_of_day(nanos as int),
    {
        let hour: i64 = nanos / NANOS_PER_HOUR;
        let in_hour: i64 = nanos % NANOS_PER_HOUR;
        let minute: i64 = in_hour / NANOS_PER_MINUTE;
        let in_minute: i64 = in_hour % NANOS_PER_MINUTE;
        let second: i64 = in_minute / 1_000_000_000;
        let nano: i64 = in_minute % 1_000_000_000;
        assert(in_minute == nanos % NANOS_PER_MINUTE);
        assert(nano == nanos % 1_000_000_000);
        LocalTime {
            hour: hour as u8,
            minute: minute as u8,
            second: second as u8,
            nano: nano as u32,
        }
    }

    /// The nanoseconds from midnight to this time of day.
    pub fn to_nanos_of_day(self) -> (nanos: i64)
        requires
            self.wf(),
        ensures
            nanos == self.nanos_of_day(),
            0 <= nanos < NANOS_PER_DAY,
    {
        (self.hour as i64) * NANOS_PER_HOUR + (self.minute as i64) * NANOS_PER_MINUTE + (
        self.second as i64) * 1_000_000_000 + (self.nano as i64)
    }

    /// The time of day `amount` nanoseconds after this one, going round
    /// midnight as often as it takes.
    fn wrapping_plus_nanos(self, amount: i128) -> (time: LocalTime)
        requires
            self.wf(),
            -1_000_000_000_000_000_000_000_000_000_000_000_000 <= amount
                <= 1_000_000_000_000_000_000_000_000_000_000_000_000,
        ensures
            time.wf(),
            time.nanos_of_day() == (self.nanos_of_day() + amount) % (NANOS_PER_DAY as int),
    {
        let total: i128 = (self.to_nanos_of_day() as i128) + amount;
        let wrapped: i128 = floor_mod_wide(total, NANOS_PER_DAY as i128);
        LocalTime::from_nanos_of_day(wrapped as i64)
    }

    /// Whether the three numbers name a time of day.
    pub fn is_valid(hour: i32, minute: i32, second: i32) -> (valid: bool)
        ensures
            valid == valid_time(hour as int, minute as int, second as int, 0),
    {
        0 <= hour && hour < 24 && 0 <= minute && minute < 60 && 0 <= second && second < 60
    }

    /// The time of day at the given hour, minute and second.
    pub fn new(hour: i32, minute: i32, second: i32) -> (time: LocalTime)
        requires
            valid_time(hour as int, minute as int, second as int, 0),
        ensures
            time.wf(),
            time == (LocalTime {
                hour: hour as u8,
                minute: minute as u8,
                second: second as u8,
                nano: 0,
            }),
    {
        LocalTime { hour: hour as u8, minute: minute as u8, second: second as u8, nano: 0 }
    }

    /// The time of day at the given hour, minute and second.
    pub fn of(hour: i32, minute: i32, second: i32) -> (time: LocalTime)
        requires
            valid_time(hour as int, minute as int, second as int, 0),
        ensures
            time.wf(),
            time == (LocalTime {
                hour: hour as u8,
                minute: minute as u8,
                second: second as u8,
                nano: 0,
            }),
    {
        LocalTime::new(hour, minute, second)
    }

    /// The time of day at the given hour and minute.
    pub fn of_hour_minute(hour: i32, minute: i32) -> (time: LocalTime)
        requires
            valid_time(hour as int, minute as int, 0, 0),
        ensures
            time.wf(),
            time == (LocalTime { hour: hour as u8, minute: minute as u8, second: 0, nano: 0 }),
    {
        LocalTime::new(hour, minute, 0)
    }

    /// The time of day at the given hour, minute, second and nanosecond.
    pub fn of_hms_nano(hour: i32, minute: i32, second: i32, nanosecond: i32) -> (time: LocalTime)
        requires
            valid_time(hour as int, minute as int, second as int, nanosecond as int),
        ensures
            time.wf(),
            time == (LocalTime {
                hour: hour as u8,
                minute: minute as u8,
                second: second as u8,
                nano: nanosecond as u32,
            }),
    {
        LocalTime {
            hour: hour as u8,
            minute: minute as u8,
            second: second as u8,
            nano: nanosecond as u32,
        }
    }

    /// The time of day `second` seconds after midnight, going round midnight
    /// as often as it takes.
    pub fn of_second_of_day(second: i32) -> (time: LocalTime)
        ensures
            time.wf(),
            time.nanos_of_day() == (second * 1_000_000_000) % (NANOS_PER_DAY as int),
    {
        LocalTime::of_total_nanos_of_day((second as i128) * 1_000_000_000)
    }

    /// The time of day `nanosecond` nanoseconds after midnight, going round
    /// midnight as often as it takes.
    pub fn of_nanosecond_of_day(nanosecond: i64) -> (time: LocalTime)
        ensures
            time.wf(),
            time.nanos_of_day() == (nanosecond as int) % (NANOS_PER_DAY as int),
    {
        LocalTime::of_total_nanos_of_day(nanosecond as i128)
    }

    /// The time of day `total` nanoseconds after midnight, going round
    /// midnight as often as it takes; a negative count goes back from midnight.
    pub fn of_total_nanos_of_day(total: i128) -> (time: LocalTime)
        ensures
            time.wf(),
            time.nanos_of_day() == (total as int) % (NANOS_PER_DAY as int),
            time == LocalTime::at_nanos_of_day((total as int) % (NANOS_PER_DAY as int)),
    {
        let wrapped: i128 = floor_mod_wide(total, NANOS_PER_DAY as i128);
        LocalTime::from_nanos_of_day(wrapped as i64)
    }

    /// Whether this time of day comes before `other`.
    pub fn is_before(self, other: LocalTime) -> (before: bool)
        requires
            self.wf(),
            other.wf(),
        ensures
            before == (self.nanos_of_day() < other.nanos_of_day()),
    {
        self.to_nanos_of_day() < other.to_nanos_of_day()
    }

    /// Whether this time of day comes after `other`.
    pub fn is_after(self, other: LocalTime) -> (after: bool)
        requires
            self.wf(),
            other.wf(),
        ensures
            after == (self.nanos_of_day() > other.nanos_of_day()),
    {
        self.to_nanos_of_day() > other.to_nanos_of_day()
    }

    /// Whether this time of day is `other` or comes before it.
    pub fn is_on_or_before(self, other: LocalTime) -> (on_or_before: bool)
        requires
            self.wf(),
            other.wf(),
        ensures
            on_or_before == (self.nanos_of_day() <= other.nanos_of_day()),
    {
        self.to_nanos_of_day() <= other.to_nanos_of_day()
    }

    /// Whether this time of day is `other` or comes after it.
    pub fn is_on_or_after(self, other: LocalTime) -> (on_or_after: bool)
        requires
            self.wf(),
            other.wf(),
        ensures
            on_or_after == (self.nanos_of_day() >= other.nanos_of_day()),
    {
        self.to_nanos_of_day() >= other.to_nanos_of_day()
    }

    /// The hour of the day, from 0 to 23.
    pub fn hour(self) -> (hour: i32)
        ensures
            hour == self.hour,
    {
        self.hour as i32
    }

    /// The minute of the hour, from 0 to 59.
    pub fn minute(self) -> (minute: i32)
        ensures
            minute == self.minute,
    {
        self.minute as i32
    }

    /// The second of the minute, from 0 to 59.
    pub fn second(self) -> (second: i32)
        ensures
            second == self.second,
    {
        self.second as i32
    }

    /// The millisecond of the second, from 0 to 999.
    pub fn millisecond(self) -> (millisecond: i32)
        requires
            self.wf(),
        ensures
            millisecond == self.nano / 1_000_000,
    {
        (self.nano / 1_000_000) as i32
    }

    /// The nanosecond of the second, from 0 to 999_999_999.
    pub fn nanosecond(self) -> (nanosecond: i32)
        requires
            self.wf(),
        ensures
            nanosecond == self.nano,
    {
        self.nano as i32
    }

    /// The time of day `hours` hours later, going round midnight.
    pub fn plus_hours(self, hours: i64) -> (time: LocalTime)
        requires
            self.wf(),
        ensures
            time.wf(),
            time.nanos_of_day() == (self.nanos_of_day() + hours * NANOS_PER_HOUR) % (
            NANOS_PER_DAY as int),
    {
        self.wrapping_plus_nanos((hours as i128) * 3_600_000_000_000)
    }

    /// The time of day `minutes` minutes later, going round midnight.
    pub fn plus_minutes(self, minutes: i64) -> (time: LocalTime)
        requires
            self.wf(),
        ensures
            time.wf(),
            time.nanos_of_day() == (self.nanos_of_day() + minutes * NANOS_PER_MINUTE) % (
            NANOS_PER_DAY as int),
    {
        self.wrapping_plus_nanos((minutes as i128) * 60_000_000_000)
    }

    /// The time of day `seconds` seconds later, going round midnight.
    pub fn plus_seconds(self, seconds: i64) -> (time: LocalTime)
        requires
            self.wf(),
        ensures
            time.wf(),
            time.nanos_of_day() == (self.nanos_of_day() + seconds * 1_000_000_000) % (
            NANOS_PER_DAY as int),
    {
        self.wrapping_plus_nanos((seconds as i128) * 1_000_000_000)
    }

    /// The time of day `milliseconds` milliseconds later, going round midnight.
    pub fn plus_milliseconds(self, milliseconds: i64) -> (time: LocalTime)
        requires
            self.wf(),
        ensures
            time.wf(),
            time.nanos_of_day() == (self.nanos_of_day() + milliseconds * 1_000_000) % (
            NANOS_PER_DAY as int),
    {
        self.wrapping_plus_nanos((milliseconds as i128) * 1_000_000)
    }

    /// The time of day `nanoseconds` nanoseconds later, going round midnight.
    pub fn plus_nanoseconds(self, nanoseconds: i64) -> (time: LocalTime)
        requires
            self.wf(),
        ensures
            time.wf(),
            time.nanos_of_day() == (self.nanos_of_day() + nanoseconds) % (NANOS_PER_DAY as int),
    {
        self.wrapping_plus_nanos(nanoseconds as i128)
    }

    /// The time of day `hours` hours earlier, going round midnight.
    pub fn minus_hours(self, hours: i64) -> (time: LocalTime)
        requires
            self.wf(),
        ensures
            time.wf(),
            time.nanos_of_day() == (self.nanos_of_day() - hours * NANOS_PER_HOUR) % (
            NANOS_PER_DAY as int),
    {
        self.wrapping_plus_nanos(-((hours as i128) * 3_600_000_000_000))
    }

    /// The time of day `minutes` minutes earlier, going round midnight.
    pub fn minus_minutes(self, minutes: i64) -> (time: LocalTime)
        requires
            self.wf(),
        ensures
            time.wf(),
            time.nanos_of_day() == (self.nanos_of_day() - minutes * NANOS_PER_MINUTE) % (
            NANOS_PER_DAY as int),
    {
        self.wrapping_plus_nanos(-((minutes as i128) * 60_000_000_000))
    }

    /// The time of day `seconds` seconds earlier, going round midnight.
    pub fn minus_seconds(self, seconds: i64) -> (time: LocalTime)
        requires
            self.wf(),
        ensures
            time.wf(),
            time.nanos_of_day() == (self.nanos_of_day() - seconds * 1_000_000_000) % (
            NANOS_PER_DAY as int),
    {
        self.wrapping_plus_nanos(-((seconds as i128) * 1_000_000_000))
    }

    /// The time of day `milliseconds` milliseconds earlier, going round midnight.
    pub fn minus_milliseconds(self, milliseconds: i64) -> (time: LocalTime)
        requires
            self.wf(),
        ensures
            time.wf(),
            time.nanos_of_day() == (self.nanos_of_day() - milliseconds * 1_000_000) % (
            NANOS_PER_DAY as int),
    {
        self.wrapping_plus_nanos(-((milliseconds as i128) * 1_000_000))
    }

    /// The time of day `nanoseconds` nanoseconds earlier, going round midnight.
    pub fn minus_nanoseconds(self, nanoseconds: i64) -> (time: LocalTime)
        requires
            self.wf(),
        ensures
            time.wf(),
            time.nanos_of_day() == (self.nanos_of_day() - nanoseconds) % (NANOS_PER_DAY as int),
    {
        self.wrapping_plus_nanos(-(nanoseconds as i128))
    }

    /// This time of day with the hour replaced. The hour must be below 24.
    pub fn with_hour(self, hour: u8) -> (time: LocalTime)
        requires
            self.wf(),
            hour < 24,
        ensures
            time.wf(),
            time == (LocalTime { hour, ..self }),
    {
        LocalTime { hour, minute: self.minute, second: self.second, nano: self.nano }
    }

    /// This time of day with the minute replaced. The minute must be below 60.
    pub fn with_minute(self, minute: u8) -> (time: LocalTime)
        requires
            self.wf(),
            minute < 60,
        ensures
            time.wf(),
            time == (LocalTime { minute, ..self }),
    {
        LocalTime { hour: self.hour, minute, second: self.second, nano: self.nano }
    }

    /// This time of day with the second replaced. The second must be below 60.
    pub fn with_second(self, second: u8) -> (time: LocalTime)
        requires
            self.wf(),
            second < 60,
        ensures
            time.wf(),
            time == (LocalTime { second, ..self }),
    {
        LocalTime { hour: self.hour, minute: self.minute, second, nano: self.nano }
    }

    /// This time of day with the fraction of the second replaced by
    /// `millisecond` milliseconds. The count must be below 1000.
    pub fn with_millisecond(self, millisecond: u16) -> (time: LocalTime)
        requires
            self.wf(),
            millisecond < 1000,
        ensures
            time.wf(),
            time == (LocalTime { nano: (millisecond * 1_000_000) as u32, ..self }),
    {
        LocalTime {
            hour: self.hour,
            minute: self.minute,
            second: self.second,
            nano: (millisecond as u32) * 1_000_000,
        }
    }

    /// This time of day with the nanosecond of the second replaced. The count
    /// must be below 1_000_000_000.
    pub fn with_nanosecond(self, nanosecond: u32) -> (time: LocalTime)
        requires
            self.wf(),
            nanosecond < 1_000_000_000,
        ensures
            time.wf(),
            time == (LocalTime { nano: nanosecond, ..self }),
    {
        LocalTime { hour: self.hour, minute: self.minute, second: self.second, nano: nanosecond }
    }

    /// This time of day on the given date.
    pub fn at_date(self, date: LocalDate) -> (date_time: LocalDateTime)
        requires
            self.wf(),
            date.wf(),
        ensures
            date_time.wf(),
            date_time == (LocalDateTime { date, time: self }),
    {
        LocalDateTime::of_date_time(date, self)
    }

    /// The time from `earlier` to this time of day; negative when `earlier`
    /// is the later of the two.
    pub fn since(self, earlier: LocalTime) -> (elapsed: Duration)
        requires
            self.wf(),
            earlier.wf(),
        ensures
            elapsed.wf(),
            elapsed.total_nanos() == self.nanos_of_day() - earlier.nanos_of_day(),
            elapsed == Duration::of_total(self.nanos_of_day() - earlier.nanos_of_day()),
    {
        Duration::from_total((self.to_nanos_of_day() - earlier.to_nanos_of_day()) as i128)
    }
}

impl core::ops::Sub for LocalTime {
    type Output = Duration;

    /// The time from `rhs` to this time of day; see [`LocalTime::since`].
    fn sub(self, rhs: LocalTime) -> (elapsed: Duration) {
        self.since(rhs)
    }
}

impl vstd::std_specs::ops::SubSpecImpl for LocalTime {
    open spec fn obeys_sub_spec() -> bool {
        true
    }

    open spec fn sub_req(self, rhs: LocalTime) -> bool {
        self.wf() && rhs.wf()
    }

    open spec fn sub_spec(self, rhs: LocalTime) -> Duration {
        Duration::of_total(self.nanos_of_day() - rhs.nanos_of_day())
    }
}

/// The four fields of a time of day are what its count of nanoseconds from
/// midnight splits into.
proof fn lemma_nanos_of_day_parts(time: LocalTime)
    requires
        time.wf(),
    ensures
        0 <= time.nanos_of_day() < NANOS_PER_DAY,
        time.nanos_of_day() / (NANOS_PER_HOUR as int) == time.hour,
        (time.nanos_of_day() % (NANOS_PER_HOUR as int)) / (NANOS_PER_MINUTE as int) == time.minute,
        (time.nanos_of_day() % (NANOS_PER_MINUTE as int)) / 1_000_000_000 == time.second,
        time.nanos_of_day() % 1_000_000_000 == time.nano,
{
    let n = time.nanos_of_day();
    let in_hour = time.minute * NANOS_PER_MINUTE + time.second * 1_000_000_000 + time.nano;
    let in_minute = time.second * 1_000_000_000 + time.nano;
    lemma_fundamental_div_mod_converse(n, NANOS_PER_HOUR as int, time.hour as int, in_hour);
    lemma_fundamental_div_mod_converse(
        in_hour,
        NANOS_PER_MINUTE as int,
        time.minute as int,
        in_minute,
    );
    lemma_fundamental_div_mod_converse(
        n,
        NANOS_PER_MINUTE as int,
        time.hour * 60 + time.minute,
        in_minute,
    );
    lemma_fundamental_div_mod_converse(
        in_minute,
        1_000_000_000,
        time.second as int,
        time.nano as int,
    );
    lemma_fundamental_div_mod_converse(
        n,
        1_000_000_000,
        time.hour * 3_600 + time.minute * 60 + time.second,
        time.nano as int,
    );
}

/// A time of day is the one that lies its count of nanoseconds after midnight:
/// two times of day with the same count are the same.
pub proof fn lemma_time_is_its_nanos_of_day(a: LocalTime, b: LocalTime)
    requires
        a.wf(),
        b.wf(),
        a.nanos_of_day() == b.nanos_of_day(),
    ensures
        a == b,
        LocalTime::at_nanos_of_day(a.nanos_of_day()) == a,
        0 <= a.nanos_of_day() < NANOS_PER_DAY,
{
    lemma_nanos_of_day_parts(a);
    lemma_nanos_of_day_parts(b);
}

/// Going forward by an amount and going back by its negative lead to the
/// same time of day.
pub proof fn lemma_time_plus_is_minus_negated(start: int, amount: int)
    ensures
        (start + amount) % (NANOS_PER_DAY as int) == (start - (-amount)) % (NANOS_PER_DAY as int),
{
}

} // verus!
