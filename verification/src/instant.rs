//! A point on the time line, counted from the epoch.

use vstd::prelude::*;
use crate::calendar::floor_div_wide;
use crate::civil::unix_nanos_now;
use crate::clock::Clock;
use crate::local_date_time::{LocalDateTime, MAX_LOCAL_NANOS, MIN_LOCAL_NANOS};
use crate::offset_date_time::OffsetDateTime;
use crate::temporal::{sub_second_part, TemporalInstant};
use crate::zone_id::{zone_is_known, ZoneId};
use crate::zone_offset::ZoneOffset;
use crate::zoned_date_time::ZonedDateTime;

verus! {

/// The first second that an instant can mark, that of -9999-01-01T00:00:00Z.
pub const MIN_EPOCH_SECOND: i64 = -377_705_116_800;

/// The last second that an instant can mark, that of 9999-12-31T23:59:59Z.
pub const MAX_EPOCH_SECOND: i64 = 253_402_300_799;

/// A point on the time line: the nanoseconds from 1970-01-01T00:00:00Z to it,
/// negative before that moment.
#[derive(Debug, Clone, Copy, PartialEq, Eq, Hash, PartialOrd, Ord, Structural)]
pub struct Instant {
    pub nanos: i128,
}

impl Instant {
    /// The invariant of an instant: it lies in the years -9999 to 9999 of UTC.
    pub open spec fn wf(self) -> bool {
        MIN_LOCAL_NANOS <= self.nanos <= MAX_LOCAL_NANOS
    }

    /// Whether `nanos` nanoseconds from the epoch is a moment that an instant
    /// can mark.
    pub open spec fn in_range(nanos: int) -> bool {
        MIN_LOCAL_NANOS <= nanos <= MAX_LOCAL_NANOS
    }

    /// The present moment, as the system clock tells it.
    pub fn now() -> (instant: Instant)
        ensures
            instant.wf(),
    {
        Instant { nanos: unix_nanos_now() }
    }

    /// The present moment, as `clock` tells it.
    pub fn now_clock(clock: &Clock) -> (instant: Instant)
        requires
            clock.wf(),
        ensures
            instant.wf(),
            clock matches Clock::Fixed(fixed) ==> instant == fixed.instant,
    {
        clock.instant()
    }

    /// The instant `epoch_second` seconds after the epoch.
    pub fn of_epoch_second(epoch_second: i64) -> (instant: Instant)
        requires
            MIN_EPOCH_SECOND <= epoch_second <= MAX_EPOCH_SECOND,
        ensures
            instant.wf(),
            instant.nanos == epoch_second * 1_000_000_000,
    {
        Instant { nanos: (epoch_second as i128) * 1_000_000_000 }
    }

    /// The instant `epoch_second` seconds and `nano_adjustment` nanoseconds
    /// after the epoch.
    pub fn of_epoch_second_nano(epoch_second: i64, nano_adjustment: i32) -> (instant: Instant)
        requires
            Instant::in_range(epoch_second * 1_000_000_000 + nano_adjustment),
        ensures
            instant.wf(),
            instant.nanos == epoch_second * 1_000_000_000 + nano_adjustment,
    {
        Instant { nanos: (epoch_second as i128) * 1_000_000_000 + (nano_adjustment as i128) }
    }

    /// The instant `epoch_millisecond` milliseconds after the epoch.
    pub fn of_epoch_millisecond(epoch_millisecond: i64) -> (instant: Instant)
        requires
            Instant::in_range(epoch_millisecond * 1_000_000),
        ensures
            instant.wf(),
            instant.nanos == epoch_millisecond * 1_000_000,
    {
        Instant { nanos: (epoch_millisecond as i128) * 1_000_000 }
    }

    /// The whole seconds from the epoch to the instant, rounded down.
    pub fn epoch_seconds(self) -> (seconds: i64)
        requires
            self.wf(),
        ensures
            seconds == self.nanos / 1_000_000_000,
            MIN_EPOCH_SECOND <= seconds <= MAX_EPOCH_SECOND,
    {
        floor_div_wide(self.nanos, 1_000_000_000) as i64
    }

    /// The whole seconds from the epoch as milliseconds, plus
    /// [`sub_second_part`] of the nanoseconds.
    pub fn epoch_milliseconds(self) -> (milliseconds: i128)
        requires
            self.wf(),
        ensures
            milliseconds == (self.nanos / 1_000_000_000) * 1_000 + sub_second_part(
                self.nanos as int,
            ),
    {
        (self.epoch_seconds() as i128) * 1_000 + (self.nanos % 1_000_000_000) / 1_000
    }

    /// The nanoseconds from the epoch to the instant.
    pub fn epoch_nanoseconds(self) -> (nanoseconds: i128)
        ensures
            nanoseconds == self.nanos,
    {
        self.nanos
    }

    /// The instant `seconds` seconds later, which must be one that an instant can mark.
    pub fn plus_seconds(self, seconds: i64) -> (instant: Instant)
        requires
            self.wf(),
            Instant::in_range(self.nanos + seconds * 1_000_000_000),
        ensures
            instant.wf(),
            instant.nanos == self.nanos + seconds * 1_000_000_000,
    {
        Instant { nanos: self.nanos + (seconds as i128) * 1_000_000_000 }
    }

    /// The instant `seconds` seconds earlier, which must be one that an instant can mark.
    pub fn minus_seconds(self, seconds: i64) -> (instant: Instant)
        requires
            self.wf(),
            Instant::in_range(self.nanos - seconds * 1_000_000_000),
        ensures
            instant.wf(),
            instant.nanos == self.nanos - seconds * 1_000_000_000,
    {
        Instant { nanos: self.nanos - (seconds as i128) * 1_000_000_000 }
    }

    /// The instant `milliseconds` milliseconds later, which must be one that
    /// an instant can mark.
    pub fn plus_milliseconds(self, milliseconds: i64) -> (instant: Instant)
        requires
            self.wf(),
            Instant::in_range(self.nanos + milliseconds * 1_000_000),
        ensures
            instant.wf(),
            instant.nanos == self.nanos + milliseconds * 1_000_000,
    {
        Instant { nanos: self.nanos + (milliseconds as i128) * 1_000_000 }
    }

    /// The instant `milliseconds` milliseconds earlier, which must be one that
    /// an instant can mark.
    pub fn minus_milliseconds(self, milliseconds: i64) -> (instant: Instant)
        requires
            self.wf(),
            Instant::in_range(self.nanos - milliseconds * 1_000_000),
        ensures
            instant.wf(),
            instant.nanos == self.nanos - milliseconds * 1_000_000,
    {
        Instant { nanos: self.nanos - (milliseconds as i128) * 1_000_000 }
    }

    /// The instant `nanoseconds` nanoseconds later, which must be one that an
    /// instant can mark.
    pub fn plus_nanoseconds(self, nanoseconds: i64) -> (instant: Instant)
        requires
            self.wf(),
            Instant::in_range(self.nanos + nanoseconds),
        ensures
            instant.wf(),
            instant.nanos == self.nanos + nanoseconds,
    {
        Instant { nanos: self.nanos + (nanoseconds as i128) }
    }

    /// The instant `nanoseconds` nanoseconds earlier, which must be one that
    /// an instant can mark.
    pub fn minus_nanoseconds(self, nanoseconds: i64) -> (instant: Instant)
        requires
            self.wf(),
            Instant::in_range(self.nanos - nanoseconds),
        ensures
            instant.wf(),
            instant.nanos == self.nanos - nanoseconds,
    {
        Instant { nanos: self.nanos - (nanoseconds as i128) }
    }

    /// Whether the date and time that a clock at `offset` shows at this
    /// instant is one that this library can hold.
    pub open spec fn visible_at(self, offset: ZoneOffset) -> bool {
        MIN_LOCAL_NANOS <= self.nanos + offset.seconds * 1_000_000_000 <= MAX_LOCAL_NANOS
    }

    /// Executable form of [`Instant::visible_at`].
    pub fn is_visible_at(self, offset: ZoneOffset) -> (visible: bool)
        requires
            self.wf(),
            offset.wf(),
        ensures
            visible == self.visible_at(offset),
    {
        let local: i128 = self.nanos + (offset.seconds as i128) * 1_000_000_000;
        MIN_LOCAL_NANOS <= local && local <= MAX_LOCAL_NANOS
    }

    /// The date and time that a clock at `offset` shows at this instant,
    /// together with the offset.
    pub fn at_offset(self, offset: ZoneOffset) -> (date_time: OffsetDateTime)
        requires
            self.wf(),
            offset.wf(),
            self.visible_at(offset),
        ensures
            date_time.wf(),
            date_time.offset == offset,
            date_time.instant_nanos() == self.nanos,
    {
        let local: i128 = self.nanos + (offset.seconds as i128) * 1_000_000_000;
        OffsetDateTime { date_time: LocalDateTime::from_local_nanos(local), offset }
    }

    /// The date and time that a clock at `offset` shows at this instant,
    /// together with the offset, where the date and time is one that this
    /// library can hold; nothing where it is not.
    pub fn try_at_offset(self, offset: ZoneOffset) -> (date_time: Option<OffsetDateTime>)
        requires
            self.wf(),
            offset.wf(),
        ensures
            self.visible_at(offset) ==> (date_time matches Some(shown) && shown.wf()
                && shown.offset == offset && shown.instant_nanos() == self.nanos),
            !self.visible_at(offset) ==> date_time.is_none(),
    {
        if self.is_visible_at(offset) {
            Some(self.at_offset(offset))
        } else {
            None
        }
    }

    /// What [`Instant::at_zone`] makes of the offset that the zone database
    /// gave for `zone`: the date and time that a clock at that offset shows
    /// at this instant, where there is an offset and the date and time is
    /// one that this library can hold.
    pub fn at_zone_offset(self, zone: ZoneId, offset: Option<ZoneOffset>) -> (date_time: Option<
        ZonedDateTime,
    >)
        requires
            self.wf(),
            offset matches Some(o) ==> o.wf(),
        ensures
            match offset {
                Some(o) => if self.visible_at(o) {
                    &&& date_time matches Some(zoned)
                    &&& zoned.wf()
                    &&& zoned.zone == zone
                    &&& zoned.offset == o
                    &&& zoned.instant_nanos() == self.nanos
                } else {
                    date_time.is_none()
                },
                None => date_time.is_none(),
            },
    {
        match offset {
            Some(o) => if self.is_visible_at(o) {
                let shown = self.at_offset(o);
                Some(ZonedDateTime { date_time: shown.date_time, offset: o, zone })
            } else {
                None
            },
            None => None,
        }
    }

    /// The date and time that a clock in `zone` shows at this instant. The
    /// zone's offset is the one it has at the present moment; there is no
    /// result where the zone database has no offset for the zone. In UTC
    /// there always is one.
    pub fn at_zone(self, zone: ZoneId) -> (date_time: Option<ZonedDateTime>)
        requires
            self.wf(),
        ensures
            zone.is_utc() ==> date_time.is_some(),
            !zone.is_utc() && !zone_is_known(zone@) ==> date_time.is_none(),
            date_time matches Some(zoned) ==> {
                &&& zoned.wf()
                &&& zoned.zone == zone
                &&& zoned.instant_nanos() == self.nanos
                &&& zone.is_utc() ==> zoned.offset.seconds == 0
            },
    {
        self.at_zone_offset(zone, zone.current_offset())
    }

    /// Whether this instant comes before `other`.
    pub fn is_before(self, other: Instant) -> (before: bool)
        ensures
            before == (self.nanos < other.nanos),
    {
        self.nanos < other.nanos
    }

    /// Whether this instant comes after `other`.
    pub fn is_after(self, other: Instant) -> (after: bool)
        ensures
            after == (self.nanos > other.nanos),
    {
        self.nanos > other.nanos
    }

    /// Whether this instant is `other` or comes before it.
    pub fn is_on_or_before(self, other: Instant) -> (on_or_before: bool)
        ensures
            on_or_before == (self.nanos <= other.nanos),
    {
        self.nanos <= other.nanos
    }

    /// Whether this instant is `other` or comes after it.
    pub fn is_on_or_after(self, other: Instant) -> (on_or_after: bool)
        ensures
            on_or_after == (self.nanos >= other.nanos),
    {
        self.nanos >= other.nanos
    }
}

impl TemporalInstant for Instant {
    open spec fn on_time_line(self) -> bool {
        self.wf()
    }

    open spec fn epoch_nanos(self) -> int {
        self.nanos as int
    }

    fn epoch_seconds(self) -> (seconds: i64) {
        Instant::epoch_seconds(self)
    }

    fn epoch_milliseconds(self) -> (milliseconds: i128) {
        Instant::epoch_milliseconds(self)
    }

    fn epoch_nanoseconds(self) -> (nanoseconds: i128) {
        Instant::epoch_nanoseconds(self)
    }
}

} // verus!
