//! An exact, signed length of time.

use vstd::prelude::*;
use crate::temporal::TemporalInstant;

verus! {

/// Nanoseconds in a second.
pub const NANOS_PER_SECOND: i64 = 1_000_000_000;

/// Nanoseconds in a millisecond.
pub const NANOS_PER_MILLI: i64 = 1_000_000;

/// Seconds in a minute.
pub const SECONDS_PER_MINUTE: i64 = 60;

/// Seconds in an hour.
pub const SECONDS_PER_HOUR: i64 = 3_600;

/// Seconds in a day.
pub const SECONDS_PER_DAY: i64 = 86_400;

/// Seconds in a week.
pub const SECONDS_PER_WEEK: i64 = 604_800;

/// The longest duration, in nanoseconds: `i64::MAX` seconds and 999_999_999 nanoseconds.
pub const MAX_DURATION_NANOS: i128 = 9_223_372_036_854_775_807_999_999_999;

/// The most negative duration, in nanoseconds: `i64::MIN` seconds less 999_999_999 nanoseconds.
pub const MIN_DURATION_NANOS: i128 = -9_223_372_036_854_775_808_999_999_999;

/// The quotient of `value` by a positive `unit`, rounded toward zero.
pub open spec fn truncated_quotient(value: int, unit: int) -> int {
    if value >= 0 {
        value / unit
    } else {
        -((-value) / unit)
    }
}

/// What is left of `value` when the multiples of a positive `unit` are taken
/// out toward zero. It has the sign of `value`.
pub open spec fn truncated_remainder(value: int, unit: int) -> int {
    if value >= 0 {
        value % unit
    } else {
        -((-value) % unit)
    }
}

/// `total`, held to the range of a duration.
pub open spec fn saturated_nanos(total: int) -> int {
    if total > MAX_DURATION_NANOS {
        MAX_DURATION_NANOS as int
    } else if total < MIN_DURATION_NANOS {
        MIN_DURATION_NANOS as int
    } else {
        total
    }
}

/// A signed length of time, exact to the nanosecond.
///
/// It is held as whole seconds and the nanoseconds of the last, unfinished
/// second. The two never differ in sign, so each length has one representation.
#[derive(Debug, Clone, Copy, PartialEq, Eq, Hash, PartialOrd, Ord, Structural)]
pub struct Duration {
    pub seconds: i64,
    pub nanos: i32,
}

impl Duration {
    /// The invariant of a duration: less than a second of nanoseconds, of the
    /// sign of the seconds.
    pub open spec fn wf(self) -> bool {
        &&& -NANOS_PER_SECOND < self.nanos < NANOS_PER_SECOND
        &&& self.seconds > 0 ==> self.nanos >= 0
        &&& self.seconds < 0 ==> self.nanos <= 0
    }

    /// The length in nanoseconds.
    pub open spec fn total_nanos(self) -> int {
        self.seconds * NANOS_PER_SECOND + self.nanos
    }

    /// The duration of `total` nanoseconds.
    pub open spec fn of_total(total: int) -> Duration {
        Duration {
            seconds: truncated_quotient(total, NANOS_PER_SECOND as int) as i64,
            nanos: truncated_remainder(total, NANOS_PER_SECOND as int) as i32,
        }
    }

    /// Splits a count of nanoseconds into seconds and nanoseconds.
    pub(crate) fn from_total(total: i128) -> (duration: Duration)
        requires
            MIN_DURATION_NANOS <= total <= MAX_DURATION_NANOS,
        ensures
            duration.wf(),
            duration.total_nanos() == total,
            duration == Duration::of_total(total as int),
    {
        let seconds: i128 = total / 1_000_000_000;
        let nanos: i128 = total % 1_000_000_000;
        Duration { seconds: seconds as i64, nanos: nanos as i32 }
    }

    /// Adds `amount` nanoseconds, stopping at the longest or the most negative duration.
    fn saturating_plus_nanos(self, amount: i128) -> (sum: Duration)
        requires
            self.wf(),
            -1_000_000_000_000_000_000_000_000_000_000_000_000 <= amount
                <= 1_000_000_000_000_000_000_000_000_000_000_000_000,
        ensures
            sum.wf(),
            sum.total_nanos() == saturated_nanos(self.total_nanos() + amount),
    {
        let total: i128 = (self.seconds as i128) * 1_000_000_000 + (self.nanos as i128) + amount;
        if total > MAX_DURATION_NANOS {
            Duration::from_total(MAX_DURATION_NANOS)
        } else if total < MIN_DURATION_NANOS {
            Duration::from_total(MIN_DURATION_NANOS)
        } else {
            Duration::from_total(total)
        }
    }

    /// A duration of `weeks` weeks of seven days.
    pub fn of_weeks(weeks: i64) -> (duration: Duration)
        requires
            i64::MIN <= weeks * SECONDS_PER_WEEK <= i64::MAX,
        ensures
            duration == (Duration { seconds: (weeks * SECONDS_PER_WEEK) as i64, nanos: 0 }),
            duration.wf(),
    {
        Duration { seconds: weeks * SECONDS_PER_WEEK, nanos: 0 }
    }

    /// A duration of `days` days of 24 hours.
    pub fn of_days(days: i64) -> (duration: Duration)
        requires
            i64::MIN <= days * SECONDS_PER_DAY <= i64::MAX,
        ensures
            duration == (Duration { seconds: (days * SECONDS_PER_DAY) as i64, nanos: 0 }),
            duration.wf(),
    {
        Duration { seconds: days * SECONDS_PER_DAY, nanos: 0 }
    }

    /// A duration of `hours` hours.
    pub fn of_hours(hours: i64) -> (duration: Duration)
        requires
            i64::MIN <= hours * SECONDS_PER_HOUR <= i64::MAX,
        ensures
            duration == (Duration { seconds: (hours * SECONDS_PER_HOUR) as i64, nanos: 0 }),
            duration.wf(),
    {
        Duration { seconds: hours * SECONDS_PER_HOUR, nanos: 0 }
    }

    /// A duration of `minutes` minutes.
    pub fn of_minutes(minutes: i64) -> (duration: Duration)
        requires
            i64::MIN <= minutes * SECONDS_PER_MINUTE <= i64::MAX,
        ensures
            duration == (Duration { seconds: (minutes * SECONDS_PER_MINUTE) as i64, nanos: 0 }),
            duration.wf(),
    {
        Duration { seconds: minutes * SECONDS_PER_MINUTE, nanos: 0 }
    }

    /// A duration of `seconds` seconds.
    pub fn of_seconds(seconds: i64) -> (duration: Duration)
        ensures
            duration == (Duration { seconds, nanos: 0 }),
            duration.wf(),
    {
        Duration { seconds, nanos: 0 }
    }

    /// A duration of `milliseconds` milliseconds.
    pub fn of_milliseconds(milliseconds: i64) -> (duration: Duration)
        ensures
            duration.wf(),
            duration.total_nanos() == milliseconds * NANOS_PER_MILLI,
    {
        Duration::from_total((milliseconds as i128) * 1_000_000)
    }

    /// A duration of `nanoseconds` nanoseconds.
    pub fn of_nanoseconds(nanoseconds: i64) -> (duration: Duration)
        ensures
            duration.wf(),
            duration.total_nanos() == nanoseconds,
    {
        Duration::from_total(nanoseconds as i128)
    }

    /// The whole weeks of the duration, rounded toward zero.
    pub fn to_weeks(self) -> (weeks: i64)
        ensures
            weeks == truncated_quotient(self.seconds as int, SECONDS_PER_WEEK as int),
    {
        self.seconds / SECONDS_PER_WEEK
    }

    /// The whole days of the duration, rounded toward zero.
    pub fn to_days(self) -> (days: i64)
        ensures
            days == truncated_quotient(self.seconds as int, SECONDS_PER_DAY as int),
    {
        self.seconds / SECONDS_PER_DAY
    }

    /// The whole hours of the duration, rounded toward zero.
    pub fn to_hours(self) -> (hours: i64)
        ensures
            hours == truncated_quotient(self.seconds as int, SECONDS_PER_HOUR as int),
    {
        self.seconds / SECONDS_PER_HOUR
    }

    /// The whole minutes of the duration, rounded toward zero.
    pub fn to_minutes(self) -> (minutes: i64)
        ensures
            minutes == truncated_quotient(self.seconds as int, SECONDS_PER_MINUTE as int),
    {
        self.seconds / SECONDS_PER_MINUTE
    }

    /// The whole seconds of the duration, rounded toward zero.
    pub fn to_seconds(self) -> (seconds: i64)
        requires
            self.wf(),
        ensures
            seconds == self.seconds,
            seconds == truncated_quotient(self.total_nanos(), NANOS_PER_SECOND as int),
    {
        self.seconds
    }

    /// The whole milliseconds of the duration, rounded toward zero, and held
    /// to the range of `i64`.
    pub fn to_millis(self) -> (millis: i64)
        requires
            self.wf(),
        ensures
            millis == {
                let whole = truncated_quotient(self.total_nanos(), NANOS_PER_MILLI as int);
                if whole > i64::MAX {
                    i64::MAX as int
                } else if whole < i64::MIN {
                    i64::MIN as int
                } else {
                    whole
                }
            },
    {
        let whole: i128 = (self.seconds as i128) * 1_000 + (self.nanos as i128) / 1_000_000;
        if whole > i64::MAX as i128 {
            i64::MAX
        } else if whole < i64::MIN as i128 {
            i64::MIN
        } else {
            whole as i64
        }
    }

    /// The length of the duration in nanoseconds.
    pub fn to_nanos(self) -> (nanos: i128)
        requires
            self.wf(),
        ensures
            nanos == self.total_nanos(),
            MIN_DURATION_NANOS <= nanos <= MAX_DURATION_NANOS,
    {
        (self.seconds as i128) * 1_000_000_000 + (self.nanos as i128)
    }

    /// Whether the duration is shorter than nothing.
    pub fn is_negative(self) -> (negative: bool)
        requires
            self.wf(),
        ensures
            negative == (self.total_nanos() < 0),
    {
        self.seconds < 0 || self.nanos < 0
    }

    /// Whether the duration has no length.
    pub fn is_zero(self) -> (zero: bool)
        requires
            self.wf(),
        ensures
            zero == (self.total_nanos() == 0),
    {
        self.seconds == 0 && self.nanos == 0
    }

    /// Whether the duration is longer than nothing.
    pub fn is_positive(self) -> (positive: bool)
        requires
            self.wf(),
        ensures
            positive == (self.total_nanos() > 0),
    {
        self.seconds > 0 || self.nanos > 0
    }

    /// The time from `start_inclusive` to `end_exclusive`; negative when the
    /// end comes first.
    pub fn between<T: TemporalInstant>(start_inclusive: T, end_exclusive: T) -> (duration:
        Duration)
        requires
            start_inclusive.on_time_line(),
            end_exclusive.on_time_line(),
            MIN_DURATION_NANOS <= end_exclusive.epoch_nanos() - start_inclusive.epoch_nanos()
                <= MAX_DURATION_NANOS,
        ensures
            duration.wf(),
            duration.total_nanos() == end_exclusive.epoch_nanos() - start_inclusive.epoch_nanos(),
    {
        let end: i128 = end_exclusive.epoch_nanoseconds();
        let start: i128 = start_inclusive.epoch_nanoseconds();
        Duration::from_total(end - start)
    }

    /// The sum of the two durations, stopping at the longest or the most
    /// negative duration.
    pub fn plus(self, other: Duration) -> (sum: Duration)
        requires
            self.wf(),
            other.wf(),
        ensures
            sum.wf(),
            sum.total_nanos() == saturated_nanos(self.total_nanos() + other.total_nanos()),
    {
        self.saturating_plus_nanos(other.to_nanos())
    }

    /// The difference of the two durations, stopping at the longest or the
    /// most negative duration.
    pub fn minus(self, other: Duration) -> (difference: Duration)
        requires
            self.wf(),
            other.wf(),
        ensures
            difference.wf(),
            difference.total_nanos() == saturated_nanos(
                self.total_nanos() - other.total_nanos(),
            ),
    {
        self.saturating_plus_nanos(-other.to_nanos())
    }

    /// The duration made longer by `days` days, stopping at the ends of the range.
    pub fn plus_days(self, days: i64) -> (sum: Duration)
        requires
            self.wf(),
        ensures
            sum.wf(),
            sum.total_nanos() == saturated_nanos(
                self.total_nanos() + days * SECONDS_PER_DAY * NANOS_PER_SECOND,
            ),
    {
        self.saturating_plus_nanos((days as i128) * 86_400_000_000_000)
    }

    /// The duration made shorter by `days` days, stopping at the ends of the range.
    pub fn minus_days(self, days: i64) -> (difference: Duration)
        requires
            self.wf(),
        ensures
            difference.wf(),
            difference.total_nanos() == saturated_nanos(
                self.total_nanos() - days * SECONDS_PER_DAY * NANOS_PER_SECOND,
            ),
    {
        self.saturating_plus_nanos(-((days as i128) * 86_400_000_000_000))
    }

    /// The duration made longer by `hours` hours, stopping at the ends of the range.
    pub fn plus_hours(self, hours: i64) -> (sum: Duration)
        requires
            self.wf(),
        ensures
            sum.wf(),
            sum.total_nanos() == saturated_nanos(
                self.total_nanos() + hours * SECONDS_PER_HOUR * NANOS_PER_SECOND,
            ),
    {
        self.saturating_plus_nanos((hours as i128) * 3_600_000_000_000)
    }

    /// The duration made shorter by `hours` hours, stopping at the ends of the range.
    pub fn minus_hours(self, hours: i64) -> (difference: Duration)
        requires
            self.wf(),
        ensures
            difference.wf(),
            difference.total_nanos() == saturated_nanos(
                self.total_nanos() - hours * SECONDS_PER_HOUR * NANOS_PER_SECOND,
            ),
    {
        self.saturating_plus_nanos(-((hours as i128) * 3_600_000_000_000))
    }

    /// The duration made longer by `minutes` minutes, stopping at the ends of the range.
    pub fn plus_minutes(self, minutes: i64) -> (sum: Duration)
        requires
            self.wf(),
        ensures
            sum.wf(),
            sum.total_nanos() == saturated_nanos(
                self.total_nanos() + minutes * SECONDS_PER_MINUTE * NANOS_PER_SECOND,
            ),
    {
        self.saturating_plus_nanos((minutes as i128) * 60_000_000_000)
    }

    /// The duration made shorter by `minutes` minutes, stopping at the ends of the range.
    pub fn minus_minutes(self, minutes: i64) -> (difference: Duration)
        requires
            self.wf(),
        ensures
            difference.wf(),
            difference.total_nanos() == saturated_nanos(
                self.total_nanos() - minutes * SECONDS_PER_MINUTE * NANOS_PER_SECOND,
            ),
    {
        self.saturating_plus_nanos(-((minutes as i128) * 60_000_000_000))
    }

    /// The duration made longer by `seconds` seconds, stopping at the ends of the range.
    pub fn plus_seconds(self, seconds: i64) -> (sum: Duration)
        requires
            self.wf(),
        ensures
            sum.wf(),
            sum.total_nanos() == saturated_nanos(self.total_nanos() + seconds * NANOS_PER_SECOND),
    {
        self.saturating_plus_nanos((seconds as i128) * 1_000_000_000)
    }

    /// The duration made shorter by `seconds` seconds, stopping at the ends of the range.
    pub fn minus_seconds(self, seconds: i64) -> (difference: Duration)
        requires
            self.wf(),
        ensures
            difference.wf(),
            difference.total_nanos() == saturated_nanos(
                self.total_nanos() - seconds * NANOS_PER_SECOND,
            ),
    {
        self.saturating_plus_nanos(-((seconds as i128) * 1_000_000_000))
    }

    /// The duration made longer by `milliseconds` milliseconds, stopping at the
    /// ends of the range.
    pub fn plus_milliseconds(self, milliseconds: i64) -> (sum: Duration)
        requires
            self.wf(),
        ensures
            sum.wf(),
            sum.total_nanos() == saturated_nanos(
                self.total_nanos() + milliseconds * NANOS_PER_MILLI,
            ),
    {
        self.saturating_plus_nanos((milliseconds as i128) * 1_000_000)
    }

    /// The duration made shorter by `milliseconds` milliseconds, stopping at
    /// the ends of the range.
    pub fn minus_milliseconds(self, milliseconds: i64) -> (difference: Duration)
        requires
            self.wf(),
        ensures
            difference.wf(),
            difference.total_nanos() == saturated_nanos(
                self.total_nanos() - milliseconds * NANOS_PER_MILLI,
            ),
    {
        self.saturating_plus_nanos(-((milliseconds as i128) * 1_000_000))
    }

    /// The duration made longer by `nanoseconds` nanoseconds, stopping at the
    /// ends of the range.
    pub fn plus_nanoseconds(self, nanoseconds: i64) -> (sum: Duration)
        requires
            self.wf(),
        ensures
            sum.wf(),
            sum.total_nanos() == saturated_nanos(self.total_nanos() + nanoseconds),
    {
        self.saturating_plus_nanos(nanoseconds as i128)
    }

    /// The duration made shorter by `nanoseconds` nanoseconds, stopping at the
    /// ends of the range.
    pub fn minus_nanoseconds(self, nanoseconds: i64) -> (difference: Duration)
        requires
            self.wf(),
        ensures
            difference.wf(),
            difference.total_nanos() == saturated_nanos(self.total_nanos() - nanoseconds),
    {
        self.saturating_plus_nanos(-(nanoseconds as i128))
    }

    /// The length of the duration without its sign. Where the seconds have no
    /// positive counterpart, the result is the longest duration.
    pub fn abs(self) -> (magnitude: Duration)
        requires
            self.wf(),
        ensures
            magnitude.wf(),
            magnitude.total_nanos() >= 0,
            self.seconds > i64::MIN ==> magnitude.total_nanos() == if self.total_nanos() < 0 {
                -self.total_nanos()
            } else {
                self.total_nanos()
            },
            self.seconds == i64::MIN ==> magnitude.total_nanos() == MAX_DURATION_NANOS,
    {
        if self.seconds == i64::MIN {
            Duration::from_total(MAX_DURATION_NANOS)
        } else if self.seconds < 0 || self.nanos < 0 {
            Duration { seconds: -self.seconds, nanos: -self.nanos }
        } else {
            self
        }
    }
}

/// Two durations of the same length are the same duration.
pub proof fn lemma_duration_is_its_length(a: Duration, b: Duration)
    requires
        a.wf(),
        b.wf(),
        a.total_nanos() == b.total_nanos(),
    ensures
        a == b,
        Duration::of_total(a.total_nanos()) == a,
        MIN_DURATION_NANOS <= a.total_nanos() <= MAX_DURATION_NANOS,
{
}

/// A duration is negative, zero or positive, and never two of these at once.
pub proof fn lemma_duration_sign_is_one_of_three(duration: Duration)
    requires
        duration.wf(),
    ensures
        (duration.total_nanos() < 0) || (duration.total_nanos() == 0) || (duration.total_nanos()
            > 0),
        !(duration.total_nanos() < 0 && duration.total_nanos() == 0),
        !(duration.total_nanos() < 0 && duration.total_nanos() > 0),
        !(duration.total_nanos() == 0 && duration.total_nanos() > 0),
{
}

/// Once an addition has been stopped at an end of the range, adding more in
/// the same direction changes nothing.
pub proof fn lemma_saturation_is_idempotent(total: int, first: int, second: int)
    requires
        MIN_DURATION_NANOS <= total <= MAX_DURATION_NANOS,
    ensures
        first >= 0 && second >= 0 && total + first >= MAX_DURATION_NANOS ==> saturated_nanos(
            saturated_nanos(total + first) + second,
        ) == saturated_nanos(total + first),
        first <= 0 && second <= 0 && total + first <= MIN_DURATION_NANOS ==> saturated_nanos(
            saturated_nanos(total + first) + second,
        ) == saturated_nanos(total + first),
        total == MAX_DURATION_NANOS && first >= 0 ==> saturated_nanos(total + first) == total,
        total == MIN_DURATION_NANOS && first <= 0 ==> saturated_nanos(total + first) == total,
{
}

/// At the longest duration, adding days changes nothing, however often.
pub proof fn lemma_longest_duration_stays(
    longest: Duration,
    once: Duration,
    twice: Duration,
    days: int,
    more_days: int,
)
    requires
        longest.wf(),
        longest.total_nanos() == MAX_DURATION_NANOS,
        days >= 0,
        more_days >= 0,
        once.wf(),
        once.total_nanos() == saturated_nanos(
            longest.total_nanos() + days * SECONDS_PER_DAY * NANOS_PER_SECOND,
        ),
        twice.wf(),
        twice.total_nanos() == saturated_nanos(
            once.total_nanos() + more_days * SECONDS_PER_DAY * NANOS_PER_SECOND,
        ),
    ensures
        once == longest,
        twice == longest,
{
    assert(days * SECONDS_PER_DAY * NANOS_PER_SECOND >= 0) by (nonlinear_arith)
        requires
            days >= 0,
    ;
    assert(more_days * SECONDS_PER_DAY * NANOS_PER_SECOND >= 0) by (nonlinear_arith)
        requires
            more_days >= 0,
    ;
    lemma_duration_is_its_length(once, longest);
    lemma_duration_is_its_length(twice, longest);
}

/// The whole units of a duration are those of its whole seconds: what is
/// left over a second never makes up a unit.
pub proof fn lemma_whole_units_of_length(duration: Duration, unit_seconds: int)
    requires
        duration.wf(),
        unit_seconds > 0,
    ensures
        truncated_quotient(duration.seconds as int, unit_seconds) == truncated_quotient(
            duration.total_nanos(),
            unit_seconds * NANOS_PER_SECOND,
        ),
        duration.seconds == truncated_quotient(duration.total_nanos(), NANOS_PER_SECOND as int),
{
    let total = duration.total_nanos();
    let magnitude = if total >= 0 {
        total
    } else {
        -total
    };
    let seconds: int = if total >= 0 {
        duration.seconds as int
    } else {
        -duration.seconds
    };
    let nanos: int = if total >= 0 {
        duration.nanos as int
    } else {
        -duration.nanos
    };
    assert(magnitude == seconds * NANOS_PER_SECOND + nanos);
    assert(0 <= nanos < NANOS_PER_SECOND);
    assert(seconds >= 0);
    vstd::arithmetic::div_mod::lemma_fundamental_div_mod_converse(
        magnitude,
        NANOS_PER_SECOND as int,
        seconds,
        nanos,
    );
    vstd::arithmetic::div_mod::lemma_div_denominator(
        magnitude,
        NANOS_PER_SECOND as int,
        unit_seconds,
    );
    assert(NANOS_PER_SECOND * unit_seconds == unit_seconds * NANOS_PER_SECOND) by (nonlinear_arith);
    if total == 0 {
        vstd::arithmetic::div_mod::lemma_div_basics(unit_seconds);
    }
}

/// Rounding toward zero treats a length and its negative alike: the whole
/// units of the one are the negated whole units of the other.
pub proof fn lemma_truncation_is_symmetric(value: int, unit: int)
    requires
        unit > 0,
    ensures
        truncated_quotient(-value, unit) == -truncated_quotient(value, unit),
        truncated_remainder(-value, unit) == -truncated_remainder(value, unit),
{
    if value == 0 {
        vstd::arithmetic::div_mod::lemma_small_mod(0, unit as nat);
        vstd::arithmetic::div_mod::lemma_div_basics(unit);
    }
}

} // verus!
