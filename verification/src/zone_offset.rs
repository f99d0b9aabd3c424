//! A fixed distance of a local time from UTC.

use vstd::prelude::*;

verus! {

/// The largest distance from UTC, in seconds: 18 hours.
pub const MAX_OFFSET_SECONDS: i32 = 64_800;

/// The seconds of the offset made of `hours` hours and `minutes` minutes, the
/// minutes counted in the direction of the hours.
pub open spec fn offset_seconds_of(hours: int, minutes: int) -> int {
    if (hours > 0 && minutes < 0) || (hours < 0 && minutes > 0) {
        hours * 3_600 - minutes * 60
    } else {
        hours * 3_600 + minutes * 60
    }
}

/// An offset from UTC in whole seconds, at most 18 hours either way. A local
/// time with a positive offset is ahead of UTC.
#[derive(Debug, Clone, Copy, PartialEq, Eq, Hash, PartialOrd, Ord, Structural)]
pub struct ZoneOffset {
    pub seconds: i32,
}

impl ZoneOffset {
    /// The offset of UTC itself.
    pub fn utc() -> (offset: ZoneOffset)
        ensures
            offset.wf(),
            offset.seconds == 0,
    {
        ZoneOffset { seconds: 0 }
    }

    /// The invariant of an offset: at most 18 hours either way.
    pub open spec fn wf(self) -> bool {
        -MAX_OFFSET_SECONDS <= self.seconds <= MAX_OFFSET_SECONDS
    }

    /// The offset of `hours` whole hours, from -18 to 18.
    pub fn of_hours(hours: i8) -> (offset: ZoneOffset)
        requires
            -18 <= hours <= 18,
        ensures
            offset.wf(),
            offset.seconds == hours * 3_600,
    {
        ZoneOffset { seconds: (hours as i32) * 3_600 }
    }

    /// The offset of `hours` hours and `minutes` minutes. The minutes count in
    /// the direction of the hours, whatever their own sign. The minutes must
    /// lie from -59 to 59, and the whole within 18 hours of UTC.
    pub fn of_hours_minutes(hours: i8, minutes: i8) -> (offset: ZoneOffset)
        requires
            -59 <= minutes <= 59,
            -MAX_OFFSET_SECONDS <= offset_seconds_of(hours as int, minutes as int)
                <= MAX_OFFSET_SECONDS,
        ensures
            offset.wf(),
            offset.seconds == offset_seconds_of(hours as int, minutes as int),
    {
        let h: i32 = hours as i32;
        let m: i32 = minutes as i32;
        if (h > 0 && m < 0) || (h < 0 && m > 0) {
            ZoneOffset { seconds: h * 3_600 - m * 60 }
        } else {
            ZoneOffset { seconds: h * 3_600 + m * 60 }
        }
    }

    /// The offset of `seconds` seconds, which must lie within 18 hours of UTC.
    pub fn of_total_seconds(seconds: i32) -> (offset: ZoneOffset)
        requires
            -MAX_OFFSET_SECONDS <= seconds <= MAX_OFFSET_SECONDS,
        ensures
            offset.wf(),
            offset.seconds == seconds,
    {
        ZoneOffset { seconds }
    }

    /// The offset in seconds.
    pub fn total_seconds(self) -> (seconds: i32)
        ensures
            seconds == self.seconds,
    {
        self.seconds
    }
}

} // verus!
