//! The two value records: an absolute instant and a broken-down calendar time.

use vstd::prelude::*;

verus! {

/// An absolute point in time: whole seconds since 1970-01-01T00:00:00Z and the
/// nanoseconds into that second.
#[derive(Clone, Copy, Debug, PartialEq, Eq, Structural)]
pub struct Timespec {
    pub sec: i64,
    pub nsec: i32,
}

impl Timespec {
    /// The nanoseconds lie within one second.
    pub open spec fn normalized(&self) -> bool {
        0 <= self.nsec < 1_000_000_000
    }
}

/// A calendar time split into its fields. The fields are independent of each
/// other: nothing relates the day of the month to the month, or the weekday
/// to the date.
#[derive(Clone, Debug, PartialEq, Eq)]
pub struct Tm {
    /// Seconds after the minute, 0 to 60.
    pub tm_sec: i32,
    /// Minutes after the hour, 0 to 59.
    pub tm_min: i32,
    /// Hours after midnight, 0 to 23.
    pub tm_hour: i32,
    /// Day of the month, 1 to 31.
    pub tm_mday: i32,
    /// Months since January, 0 to 11.
    pub tm_mon: i32,
    /// Years since 1900.
    pub tm_year: i32,
    /// Days since Sunday, 0 to 6.
    pub tm_wday: i32,
    /// Days since January 1, 0 to 365.
    pub tm_yday: i32,
    /// Daylight saving time: positive if in effect, zero if not, negative if unknown.
    pub tm_isdst: i32,
    /// Offset from UTC in seconds; zero means UTC.
    pub tm_gmtoff: i64,
    /// Abbreviation of the time zone, if one is known.
    pub tm_zone: Option<String>,
    /// Nanoseconds after the second, 0 to 999_999_999.
    pub tm_nsec: i32,
}

/// The mathematical value of a [`Tm`]: every number an `int`, the zone's
/// abbreviation a sequence of characters.
pub ghost struct TmView {
    pub sec: int,
    pub min: int,
    pub hour: int,
    pub mday: int,
    pub mon: int,
    pub year: int,
    pub wday: int,
    pub yday: int,
    pub isdst: int,
    pub gmtoff: int,
    pub zone: Option<Seq<char>>,
    pub nsec: int,
}

impl TmView {
    /// Every field zero and no zone.
    pub open spec fn zero() -> TmView {
        TmView {
            sec: 0,
            min: 0,
            hour: 0,
            mday: 0,
            mon: 0,
            year: 0,
            wday: 0,
            yday: 0,
            isdst: 0,
            gmtoff: 0,
            zone: None,
            nsec: 0,
        }
    }
}

impl View for Tm {
    type V = TmView;

    open spec fn view(&self) -> TmView {
        TmView {
            sec: self.tm_sec as int,
            min: self.tm_min as int,
            hour: self.tm_hour as int,
            mday: self.tm_mday as int,
            mon: self.tm_mon as int,
            year: self.tm_year as int,
            wday: self.tm_wday as int,
            yday: self.tm_yday as int,
            isdst: self.tm_isdst as int,
            gmtoff: self.tm_gmtoff as int,
            zone: match self.tm_zone {
                Some(z) => Some(z@),
                None => None,
            },
            nsec: self.tm_nsec as int,
        }
    }
}

/// A broken-down time with every field zero and no zone.
pub fn empty_tm() -> (tm: Tm)
    ensures
        tm@ == TmView::zero(),
{
    Tm {
        tm_sec: 0,
        tm_min: 0,
        tm_hour: 0,
        tm_mday: 0,
        tm_mon: 0,
        tm_year: 0,
        tm_wday: 0,
        tm_yday: 0,
        tm_isdst: 0,
        tm_gmtoff: 0,
        tm_zone: None,
        tm_nsec: 0,
    }
}

} // verus!
