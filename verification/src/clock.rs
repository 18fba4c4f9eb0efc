//! The current time, from the clock of the standard library.

use crate::tm::Timespec;
use std::time::{Duration, SystemTime, SystemTimeError};
use vstd::prelude::*;

verus! {

/// A reading of the system clock. Nothing is known of what is inside.
#[verifier::external_type_specification]
#[verifier::external_body]
pub struct ExSystemTime(SystemTime);

/// How far a clock reading lies on the wrong side of another.
#[verifier::external_type_specification]
#[verifier::external_body]
pub struct ExSystemTimeError(SystemTimeError);

/// `SystemTime::now` reads the system clock. Nothing is promised of the
/// reading.
pub assume_specification[ SystemTime::now ]() -> (now: SystemTime)
;

/// `SystemTime::duration_since` gives the time that has passed from
/// `earlier` to `t`, or an error that holds the distance if `earlier` is
/// in fact the later one. Nothing is promised of either.
pub assume_specification[ SystemTime::duration_since ](t: &SystemTime, earlier: SystemTime) -> (r:
    Result<Duration, SystemTimeError>)
;

/// `SystemTimeError::duration` gives the distance between the two readings,
/// which is never negative.
pub assume_specification[ SystemTimeError::duration ](e: &SystemTimeError) -> (d: Duration)
;

/// `Duration::as_secs` gives the whole seconds of a duration.
pub assume_specification[ Duration::as_secs ](d: &Duration) -> (secs: u64)
;

/// `Duration::subsec_nanos` gives the part of a duration below one second
/// in nanoseconds, which is less than a thousand million.
pub assume_specification[ Duration::subsec_nanos ](d: &Duration) -> (nanos: u32)
    ensures
        nanos < 1_000_000_000,
;

/// 1970-01-01T00:00:00Z as a reading of the system clock: the constant
/// `UNIX_EPOCH` of `std::time`.
#[verifier::external_body]
fn unix_epoch() -> (epoch: SystemTime) {
    std::time::UNIX_EPOCH
}

/// The instant that lies `secs` seconds and `nanos` nanoseconds from 1970,
/// behind it if `after` and before it otherwise, where that many seconds
/// can be counted in an `i64`; else the last instant that can.
pub open spec fn instant_at(after: bool, secs: int, nanos: int) -> Timespec {
    if after {
        if secs > i64::MAX {
            Timespec { sec: i64::MAX, nsec: 999_999_999 }
        } else {
            Timespec { sec: secs as i64, nsec: nanos as i32 }
        }
    } else if nanos == 0 {
        if secs > i64::MAX + 1 {
            Timespec { sec: i64::MIN, nsec: 0 }
        } else {
            Timespec { sec: (-secs) as i64, nsec: 0 }
        }
    } else {
        if secs > i64::MAX {
            Timespec { sec: i64::MIN, nsec: 0 }
        } else {
            Timespec { sec: (-secs - 1) as i64, nsec: (1_000_000_000 - nanos) as i32 }
        }
    }
}

/// The instant at a distance from 1970. The nanoseconds of an instant
/// count forward from its second, before 1970 too.
pub fn timespec_at(after: bool, secs: u64, nanos: u32) -> (clock: Timespec)
    requires
        nanos < 1_000_000_000,
    ensures
        clock == instant_at(after, secs as int, nanos as int),
        clock.normalized(),
{
    if after {
        if secs > i64::MAX as u64 {
            Timespec { sec: i64::MAX, nsec: 999_999_999 }
        } else {
            Timespec { sec: secs as i64, nsec: nanos as i32 }
        }
    } else if nanos == 0 {
        if secs > i64::MAX as u64 + 1 {
            Timespec { sec: i64::MIN, nsec: 0 }
        } else if secs == i64::MAX as u64 + 1 {
            Timespec { sec: i64::MIN, nsec: 0 }
        } else {
            Timespec { sec: -(secs as i64), nsec: 0 }
        }
    } else {
        if secs > i64::MAX as u64 {
            Timespec { sec: i64::MIN, nsec: 0 }
        } else {
            Timespec { sec: -(secs as i64) - 1, nsec: (1_000_000_000 - nanos) as i32 }
        }
    }
}

/// The current time as seconds and nanoseconds since 1970-01-01T00:00:00Z.
pub fn get_time() -> (clock: Timespec)
    ensures
        clock.normalized(),
{
    match SystemTime::now().duration_since(unix_epoch()) {
        Ok(d) => timespec_at(true, d.as_secs(), d.subsec_nanos()),
        Err(e) => {
            let d = e.duration();
            timespec_at(false, d.as_secs(), d.subsec_nanos())
        },
    }
}

} // verus!
