//! The name of a time zone, and what the zone database knows of it.

use vstd::prelude::*;
use vstd::string::StringExecFns;
use time_tz::OffsetDateTimeExt;
use time_tz::TimeZone;
use crate::zone_offset::{ZoneOffset, MAX_OFFSET_SECONDS};

verus! {

/// What the zone database of the `time_tz` crate holds for a name: the name
/// that the zone which `time_tz::timezones::get_by_name` finds for it gives
/// as its own, or nothing where it finds none.
pub uninterp spec fn zone_in_database(id: Seq<char>) -> Option<Seq<char>>;

/// Whether the zone database has a zone of this name.
pub open spec fn zone_is_known(id: Seq<char>) -> bool {
    zone_in_database(id).is_some()
}

/// Calls `time_tz::timezones::get_by_name` and reports whether it found a zone.
///
/// Trusted: only that the answer is the one the database gives for this name,
/// whenever it is asked.
#[verifier::external_body]
fn zone_lookup(id: &str) -> (known: bool)
    ensures
        known == zone_in_database(id@).is_some(),
{
    time_tz::timezones::get_by_name(id).is_some()
}

/// Calls `time_tz::timezones::get_by_name`, and for a zone that it finds reads
/// the offset that the zone has at the present moment, through
/// `time::OffsetDateTime::now_utc`, `to_timezone` and `whole_seconds`.
///
/// Trusted: that there is an offset exactly for the names the database knows,
/// and that it lies in the range that every `time::UtcOffset` lies in, within
/// 26 hours of UTC. The offset itself depends on the moment of the call.
#[verifier::external_body]
fn zone_offset_now(id: &str) -> (seconds: Option<i32>)
    ensures
        seconds.is_some() == zone_in_database(id@).is_some(),
        seconds matches Some(s) ==> -93_599 <= s <= 93_599,
{
    match time_tz::timezones::get_by_name(id) {
        Some(tz) => Some(time::OffsetDateTime::now_utc().to_timezone(tz).offset().whole_seconds()),
        None => None,
    }
}

/// Calls `time_tz::timezones::get_by_name`, and reads the name of the zone
/// that it finds through `time_tz::TimeZone::name`.
///
/// Trusted: only that the name is the one the database gives, whenever it is
/// asked.
#[verifier::external_body]
fn zone_canonical_name(id: &str) -> (name: Option<&'static str>)
    ensures
        match name {
            Some(n) => zone_in_database(id@) == Some(n@),
            None => zone_in_database(id@).is_none(),
        },
{
    match time_tz::timezones::get_by_name(id) {
        Some(tz) => Some(tz.name()),
        None => None,
    }
}

/// Whether two strings hold the same text.
fn same_text(a: &str, b: &str) -> (same: bool)
    ensures
        same == (a@ == b@),
{
    let left: String = String::from_str(a);
    let right: String = String::from_str(b);
    left == right
}

/// The name of a time zone.
#[derive(Debug, Clone, Copy, PartialEq, Eq, PartialOrd, Ord, Hash)]
pub struct ZoneId {
    pub name: &'static str,
}

impl View for ZoneId {
    type V = Seq<char>;

    open spec fn view(&self) -> Seq<char> {
        self.name@
    }
}

impl ZoneId {
    /// The zone of UTC.
    pub fn utc() -> (zone: ZoneId)
        ensures
            zone@ == "UTC"@,
    {
        ZoneId { name: "UTC" }
    }

    /// Whether the zone is the one named `UTC`.
    pub open spec fn is_utc(self) -> bool {
        self@ == "UTC"@
    }

    /// The zone named `id`, if the zone database knows the name; else an
    /// error message.
    pub fn try_of(id: &'static str) -> (result: Result<ZoneId, &'static str>)
        ensures
            zone_is_known(id@) ==> result is Ok && result->Ok_0@ == id@,
            !zone_is_known(id@) ==> result is Err && result->Err_0@ == "Unknown time zone"@,
    {
        if zone_lookup(id) {
            Ok(ZoneId { name: id })
        } else {
            Err("Unknown time zone")
        }
    }

    /// The zone named `id`. The name is not looked up.
    pub fn of(id: &'static str) -> (zone: ZoneId)
        ensures
            zone@ == id@,
    {
        ZoneId { name: id }
    }

    /// The zone that the database holds for `text`, under the name that the
    /// database gives it; else an error message.
    pub fn parse(text: &str) -> (result: Result<ZoneId, &'static str>)
        ensures
            match zone_in_database(text@) {
                Some(name) => result is Ok && result->Ok_0@ == name,
                None => result is Err && result->Err_0@ == "Unknown time zone"@,
            },
    {
        match zone_canonical_name(text) {
            Some(name) => Ok(ZoneId { name }),
            None => Err("Unknown time zone"),
        }
    }

    /// The name of the zone.
    pub fn id(&self) -> (name: &'static str)
        ensures
            name@ == self@,
    {
        self.name
    }

    /// What is made of the answer of the zone database: the offset, where
    /// there is one and it lies within 18 hours of UTC.
    pub fn offset_from_lookup(found: Option<i32>) -> (offset: Option<ZoneOffset>)
        ensures
            match found {
                Some(seconds) => if -MAX_OFFSET_SECONDS <= seconds <= MAX_OFFSET_SECONDS {
                    offset == Some(ZoneOffset { seconds })
                } else {
                    offset.is_none()
                },
                None => offset.is_none(),
            },
    {
        match found {
            Some(seconds) => if -MAX_OFFSET_SECONDS <= seconds && seconds <= MAX_OFFSET_SECONDS {
                Some(ZoneOffset { seconds })
            } else {
                None
            },
            None => None,
        }
    }

    /// The offset from UTC, in seconds, that the zone has at the present
    /// moment. UTC has offset 0; any other zone is looked up in the zone
    /// database, and has no offset if the database does not know it.
    pub fn to_offset(self) -> (seconds: Option<i32>)
        ensures
            self.is_utc() ==> seconds == Some(0i32),
            !self.is_utc() ==> seconds.is_some() == zone_is_known(self@),
            seconds matches Some(s) ==> -93_599 <= s <= 93_599,
    {
        if same_text(self.name, "UTC") {
            Some(0)
        } else {
            zone_offset_now(self.name)
        }
    }

    /// The offset that the zone has at the present moment, where it has one
    /// within 18 hours of UTC.
    pub fn current_offset(self) -> (offset: Option<ZoneOffset>)
        ensures
            self.is_utc() ==> offset == Some(ZoneOffset { seconds: 0 }),
            offset matches Some(o) ==> o.wf(),
            !self.is_utc() && !zone_is_known(self@) ==> offset.is_none(),
    {
        ZoneId::offset_from_lookup(self.to_offset())
    }
}

impl core::str::FromStr for ZoneId {
    type Err = &'static str;

    /// The zone that the database holds for `text`; see [`ZoneId::parse`].
    fn from_str(text: &str) -> (result: Result<ZoneId, &'static str>)
        ensures
            match zone_in_database(text@) {
                Some(name) => result is Ok && result->Ok_0@ == name,
                None => result is Err && result->Err_0@ == "Unknown time zone"@,
            },
    {
        ZoneId::parse(text)
    }
}

} // verus!
