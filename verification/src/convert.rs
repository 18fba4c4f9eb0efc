//! The seam between this library and the host's civil-time facility.
//!
//! Turning seconds since 1970 into calendar fields and back is the host's
//! work: it knows the calendar, the time zones and their rules. What stands
//! here is what surrounds those conversions: which of them a time calls
//! for, and how their results and the nanoseconds make up a value.

use crate::tm::{Timespec, Tm, TmView};
use vstd::prelude::*;

verus! {

/// The zone in which the host is asked to read or write calendar fields.
#[derive(Clone, Copy, Debug, PartialEq, Eq, Structural)]
pub enum Zone {
    /// Coordinated universal time.
    Utc,
    /// The time zone that the host is set to.
    Local,
}

/// `fields` with `nsec` as its nanoseconds.
pub open spec fn with_nanoseconds(fields: TmView, nsec: int) -> TmView {
    TmView { nsec: nsec, ..fields }
}

/// The time `clock` in UTC, from `expanded`, the host's expansion of
/// `clock.sec` in UTC. The host's fields know whole seconds only; the
/// nanoseconds are those of `clock`.
pub fn at_utc(clock: Timespec, expanded: Tm) -> (tm: Tm)
    ensures
        tm@ == with_nanoseconds(expanded@, clock.nsec as int),
{
    let mut tm = expanded;
    tm.tm_nsec = clock.nsec;
    tm
}

/// The time `clock` in the local time zone, from `expanded`, the host's
/// expansion of `clock.sec` in that zone. The host's fields know whole
/// seconds only; the nanoseconds are those of `clock`.
pub fn at(clock: Timespec, expanded: Tm) -> (tm: Tm)
    ensures
        tm@ == with_nanoseconds(expanded@, clock.nsec as int),
{
    let mut tm = expanded;
    tm.tm_nsec = clock.nsec;
    tm
}

impl Tm {
    /// The zone in which the fields of this time are to be read when it is
    /// turned into seconds since 1970: UTC where the offset is zero, the
    /// local zone otherwise.
    pub open spec fn zone_spec(&self) -> Zone {
        if self.tm_gmtoff == 0 {
            Zone::Utc
        } else {
            Zone::Local
        }
    }

    /// The zone in which the host is to reduce this time to seconds.
    #[verifier::when_used_as_spec(zone_spec)]
    pub fn zone(&self) -> (zone: Zone)
        ensures
            zone == self.zone_spec(),
    {
        if self.tm_gmtoff == 0 {
            Zone::Utc
        } else {
            Zone::Local
        }
    }

    /// This time as seconds and nanoseconds since 1970, from `sec`, the
    /// host's reduction of its fields in the zone that [`Tm::zone`] names.
    pub fn to_timespec(&self, sec: i64) -> (clock: Timespec)
        ensures
            clock == (Timespec { sec: sec, nsec: self.tm_nsec }),
    {
        Timespec { sec: sec, nsec: self.tm_nsec }
    }
}

} // verus!
