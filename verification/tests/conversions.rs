use timefmt::{at, at_utc, empty_tm, get_time, Timespec, Tm, Zone};

fn utc_fields() -> Tm {
    Tm {
        tm_sec: 30,
        tm_min: 31,
        tm_hour: 23,
        tm_mday: 13,
        tm_mon: 1,
        tm_year: 109,
        tm_wday: 5,
        tm_yday: 43,
        tm_isdst: 0,
        tm_gmtoff: 0,
        tm_zone: Some("UTC".to_string()),
        tm_nsec: 0,
    }
}

fn local_fields() -> Tm {
    Tm {
        tm_sec: 30,
        tm_min: 31,
        tm_hour: 15,
        tm_mday: 13,
        tm_mon: 1,
        tm_year: 109,
        tm_wday: 5,
        tm_yday: 43,
        tm_isdst: 0,
        tm_gmtoff: -28800,
        tm_zone: Some("PST".to_string()),
        tm_nsec: 0,
    }
}

#[test]
fn test_at_utc() {
    let time = Timespec { sec: 1234567890, nsec: 54321 };
    let utc = at_utc(time, utc_fields());

    assert!(utc.tm_sec == 30);
    assert!(utc.tm_min == 31);
    assert!(utc.tm_hour == 23);
    assert!(utc.tm_mday == 13);
    assert!(utc.tm_mon == 1);
    assert!(utc.tm_year == 109);
    assert!(utc.tm_wday == 5);
    assert!(utc.tm_yday == 43);
    assert!(utc.tm_isdst == 0);
    assert!(utc.tm_gmtoff == 0);
    assert!(utc.tm_zone.is_some());
    assert!(utc.tm_zone == Some("UTC".to_string()));
    assert!(utc.tm_nsec == 54321);
}

#[test]
fn test_at() {
    let time = Timespec { sec: 1234567890, nsec: 54321 };
    let local = at(time, local_fields());

    assert!(local.tm_sec == 30);
    assert!(local.tm_min == 31);
    assert!(local.tm_hour == 15);
    assert!(local.tm_mday == 13);
    assert!(local.tm_mon == 1);
    assert!(local.tm_year == 109);
    assert!(local.tm_wday == 5);
    assert!(local.tm_yday == 43);
    assert!(local.tm_isdst == 0);
    assert!(local.tm_gmtoff == -28800);
    assert!(local.tm_zone.is_some());
    assert!(local.tm_zone == Some("PST".to_string()));
    assert!(local.tm_nsec == 54321);
}

#[test]
fn test_to_timespec() {
    let time = Timespec { sec: 1234567890, nsec: 54321 };
    let utc = at_utc(time, utc_fields());

    assert!(utc.to_timespec(1234567890) == time);
    let local = at(utc.to_timespec(1234567890), local_fields());
    assert!(local.to_timespec(1234567890) == time);
}

#[test]
fn test_conversions() {
    let time = Timespec { sec: 1234567890, nsec: 54321 };
    let utc = at_utc(time, utc_fields());
    let local = at(time, local_fields());

    assert!(at(local.to_timespec(1234567890), local_fields()) == local);
    assert!(at_utc(local.to_timespec(1234567890), utc_fields()) == utc);
    assert!(
        at(at_utc(local.to_timespec(1234567890), utc_fields()).to_timespec(1234567890), local_fields())
            == local
    );
    assert!(at_utc(utc.to_timespec(1234567890), utc_fields()) == utc);
    assert!(at(utc.to_timespec(1234567890), local_fields()) == local);
    assert!(
        at_utc(at(utc.to_timespec(1234567890), local_fields()).to_timespec(1234567890), utc_fields())
            == utc
    );
}

#[test]
fn a_time_without_offset_is_reduced_as_utc() {
    assert_eq!(utc_fields().zone(), Zone::Utc);
    assert_eq!(empty_tm().zone(), Zone::Utc);
}

#[test]
fn a_time_with_an_offset_is_reduced_as_local() {
    assert_eq!(local_fields().zone(), Zone::Local);
    let mut east = empty_tm();
    east.tm_gmtoff = 3600;
    assert_eq!(east.zone(), Zone::Local);
}

#[test]
fn the_nanoseconds_come_from_the_clock_alone() {
    let mut fields = utc_fields();
    fields.tm_nsec = 999;
    let tm = at_utc(Timespec { sec: 0, nsec: 7 }, fields);
    assert_eq!(tm.tm_nsec, 7);
    assert_eq!(tm.to_timespec(-5), Timespec { sec: -5, nsec: 7 });
}

#[test]
fn the_empty_time_is_zero_everywhere() {
    let tm = empty_tm();
    assert_eq!(tm.tm_sec, 0);
    assert_eq!(tm.tm_min, 0);
    assert_eq!(tm.tm_hour, 0);
    assert_eq!(tm.tm_mday, 0);
    assert_eq!(tm.tm_mon, 0);
    assert_eq!(tm.tm_year, 0);
    assert_eq!(tm.tm_wday, 0);
    assert_eq!(tm.tm_yday, 0);
    assert_eq!(tm.tm_isdst, 0);
    assert_eq!(tm.tm_gmtoff, 0);
    assert_eq!(tm.tm_zone, None);
    assert_eq!(tm.tm_nsec, 0);
}

#[test]
fn the_clock_reads_a_normalized_time_after_2001() {
    let now = get_time();
    assert!(now.sec > 1_000_000_000);
    assert!(0 <= now.nsec && now.nsec < 1_000_000_000);
}

#[test]
fn the_clock_does_not_run_backwards_by_much() {
    let first = get_time();
    let second = get_time();
    assert!(second.sec + 1 >= first.sec);
}
