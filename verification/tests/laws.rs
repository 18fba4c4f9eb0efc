use timefmt::{can_format, empty_tm, strftime, strptime, Tm};

fn text(format: &str, tm: &Tm) -> String {
    assert!(can_format(format, tm, false));
    strftime(format, tm, None)
}

fn round_trip(format: &str, tm: &Tm) -> Tm {
    let written = text(format, tm);
    match strptime(&written, format) {
        Ok(read) => read,
        Err(e) => panic!("{:?} does not read back {:?}: {:?}", format, written, e),
    }
}

fn calendar(year: i32, mon: i32, mday: i32, wday: i32, yday: i32) -> Tm {
    let mut tm = empty_tm();
    tm.tm_year = year - 1900;
    tm.tm_mon = mon;
    tm.tm_mday = mday;
    tm.tm_wday = wday;
    tm.tm_yday = yday;
    tm
}

#[test]
fn every_weekday_and_month_comes_back() {
    for wday in 0..7 {
        let tm = calendar(2009, 0, 1, wday, 0);
        for format in ["%A", "%a", "%w"] {
            let mut kept = empty_tm();
            kept.tm_wday = wday;
            assert_eq!(round_trip(format, &tm), kept);
        }
        if wday > 0 {
            assert_eq!(round_trip("%u", &tm).tm_wday, wday);
        }
    }
    for mon in 0..12 {
        let tm = calendar(2009, mon, 1, 0, 0);
        for format in ["%B", "%b", "%h", "%m"] {
            let mut kept = empty_tm();
            kept.tm_mon = mon;
            assert_eq!(round_trip(format, &tm), kept);
        }
    }
}

#[test]
fn every_number_in_its_range_comes_back() {
    let mut tm = empty_tm();
    for mday in 1..32 {
        tm.tm_mday = mday;
        assert_eq!(round_trip("%d", &tm).tm_mday, mday);
        assert_eq!(round_trip("%e", &tm).tm_mday, mday);
    }
    for hour in 0..24 {
        tm.tm_hour = hour;
        assert_eq!(round_trip("%H", &tm).tm_hour, hour);
        assert_eq!(round_trip("%k", &tm).tm_hour, hour);
        assert_eq!(round_trip("%r", &tm).tm_hour, hour);
        assert_eq!(round_trip("%I %p", &tm).tm_hour, hour);
        assert_eq!(round_trip("%l%P", &tm).tm_hour, hour);
        if hour < 12 {
            assert_eq!(round_trip("%I", &tm).tm_hour, hour);
            assert_eq!(round_trip("%l", &tm).tm_hour, hour);
        }
    }
    for min in 0..60 {
        tm.tm_min = min;
        assert_eq!(round_trip("%M", &tm).tm_min, min);
    }
    for sec in 0..61 {
        tm.tm_sec = sec;
        assert_eq!(round_trip("%S", &tm).tm_sec, sec);
    }
    for yday in 0..366 {
        tm.tm_yday = yday;
        assert_eq!(round_trip("%j", &tm).tm_yday, yday);
    }
    for year in [1000, 1969, 1970, 2009, 9999] {
        tm.tm_year = year - 1900;
        assert_eq!(round_trip("%Y", &tm).tm_year, year - 1900);
    }
    for year in [0, 9, 50, 99] {
        tm.tm_year = year - 1900;
        assert_eq!(round_trip("%y", &tm).tm_year, year - 1900);
    }
    for year in [0, 100, 1900, 2000, 9900] {
        tm.tm_year = year - 1900;
        assert_eq!(round_trip("%C", &tm).tm_year, year - 1900);
    }
}

#[test]
fn every_composite_gives_back_the_fields_it_speaks_of() {
    let mut tm = calendar(2009, 1, 13, 5, 43);
    tm.tm_hour = 15;
    tm.tm_min = 31;
    tm.tm_sec = 30;
    tm.tm_nsec = 54321;
    tm.tm_gmtoff = -28800;
    tm.tm_zone = Some("PST".to_string());

    let mut kept = empty_tm();
    kept.tm_hour = 15;
    kept.tm_min = 31;
    assert_eq!(round_trip("%R", &tm), kept);
    kept.tm_sec = 30;
    assert_eq!(round_trip("%T", &tm), kept);
    assert_eq!(round_trip("%r", &tm), kept);

    let mut kept = empty_tm();
    kept.tm_year = 109;
    kept.tm_mon = 1;
    kept.tm_mday = 13;
    assert_eq!(round_trip("%F", &tm), kept);
    assert_eq!(round_trip("%v", &tm), kept);

    kept.tm_wday = 5;
    kept.tm_hour = 15;
    kept.tm_min = 31;
    kept.tm_sec = 30;
    assert_eq!(round_trip("%c", &tm), kept);

    tm.tm_year = 9 - 1900;
    let mut kept = empty_tm();
    kept.tm_year = 9 - 1900;
    kept.tm_mon = 1;
    kept.tm_mday = 13;
    assert_eq!(round_trip("%D", &tm), kept);
    assert_eq!(round_trip("%x", &tm), kept);
}

#[test]
fn the_fixed_characters_and_the_zero_offset_come_back() {
    let tm = empty_tm();
    for format in ["%n", "%t", "%%", "%z"] {
        assert_eq!(round_trip(format, &tm), empty_tm());
    }
}

#[test]
fn a_whole_format_reads_back_what_it_wrote() {
    let mut tm = calendar(2009, 1, 13, 5, 43);
    tm.tm_hour = 15;
    tm.tm_min = 31;
    tm.tm_sec = 30;
    let read = round_trip("%A, %d %B %Y at %H:%M:%S (day %j, %a/%u)%n", &tm);
    assert_eq!(read, tm);
    let read = round_trip("%Y%m%d%H%M%S", &tm);
    assert_eq!((read.tm_year, read.tm_mon, read.tm_mday), (109, 1, 13));
    assert_eq!((read.tm_hour, read.tm_min, read.tm_sec), (15, 31, 30));
}

#[test]
fn what_does_not_come_back() {
    let mut tm = empty_tm();
    tm.tm_hour = 15;
    assert_eq!(round_trip("%I", &tm).tm_hour, 3);
    assert_eq!(round_trip("%p", &tm).tm_hour, 12);
    tm.tm_hour = 5;
    assert_eq!(round_trip("%p", &tm).tm_hour, 0);
    tm.tm_year = 109;
    assert_eq!(round_trip("%C", &tm).tm_year, 100);
    assert_eq!(round_trip("%y", &tm).tm_year, 9 - 1900);
    tm.tm_wday = 0;
    assert_eq!(round_trip("%u", &tm).tm_wday, 7);
    tm.tm_gmtoff = -28800;
    tm.tm_zone = Some("PST".to_string());
    assert_eq!(round_trip("%z", &tm).tm_gmtoff, 0);
    assert_eq!(round_trip("%Z", &tm).tm_zone, None);
    tm.tm_year = 12345 - 1900;
    assert!(strptime(&text("%Y", &tm), "%Y").is_err());
    assert!(strptime(&text("%X", &tm), "%X").is_err());
}

#[test]
fn numbers_have_their_exact_width() {
    let mut tm = empty_tm();
    tm.tm_mday = 3;
    assert_eq!(text("%d", &tm), "03");
    assert_eq!(text("%e", &tm), " 3");
    assert_eq!(strptime("03", "%d").unwrap().tm_mday, 3);
    assert_eq!(strptime(" 3", "%e").unwrap().tm_mday, 3);
    for value in 0..100 {
        tm.tm_mday = value;
        tm.tm_hour = value;
        tm.tm_min = value;
        tm.tm_sec = value;
        for format in ["%d", "%e", "%H", "%k", "%M", "%S"] {
            assert_eq!(text(format, &tm).chars().count(), 2);
        }
    }
    for yday in 0..366 {
        tm.tm_yday = yday;
        assert_eq!(text("%j", &tm).len(), 3);
    }
}

#[test]
fn the_two_clocks_agree() {
    let mut tm = empty_tm();
    tm.tm_hour = 0;
    assert_eq!(text("%I", &tm), "12");
    assert_eq!(text("%p", &tm), "AM");
    tm.tm_hour = 15;
    assert_eq!(text("%I", &tm), "03");
    assert_eq!(text("%p", &tm), "PM");
    assert_eq!(strptime("12 AM", "%I %p").unwrap().tm_hour, 0);
    assert_eq!(strptime("03 PM", "%I %p").unwrap().tm_hour, 15);
}

#[test]
fn a_composite_means_what_it_stands_for() {
    let pairs = [
        ("%c", "%a %b %e %T %Y"),
        ("%D", "%m/%d/%y"),
        ("%x", "%m/%d/%y"),
        ("%F", "%Y-%m-%d"),
        ("%R", "%H:%M"),
        ("%r", "%I:%M:%S %p"),
        ("%T", "%H:%M:%S"),
        ("%v", "%e-%b-%Y"),
    ];
    let mut tm = calendar(2009, 1, 13, 5, 43);
    tm.tm_hour = 15;
    tm.tm_min = 31;
    tm.tm_sec = 30;
    let inputs = [
        "",
        "15:31:30",
        "15:31",
        "15:31:3",
        "15-31-30",
        "03:31:30 PM",
        "03:31:30 XM",
        "02/13/09",
        "2009-02-13",
        "13-Feb-2009",
        "13-Foo-2009",
        "Fri Feb 13 15:31:30 2009",
        "Fri Feb 13 15:31:30",
        "Fri Feb 13 15:31:30 2009 ",
    ];
    for (composite, expansion) in pairs {
        assert_eq!(text(composite, &tm), text(expansion, &tm));
        for input in inputs {
            assert_eq!(strptime(input, composite), strptime(input, expansion));
        }
    }
    assert_eq!(text("%X", &tm), text("%H:%M:%S", &tm));
}

#[test]
fn a_text_matches_as_a_whole_or_not_at_all() {
    assert!(strptime("Fri Feb 13 15:31:30", "%a %b %e %T %Y").is_err());
    assert_eq!(strptime("", ""), Ok(empty_tm()));
    assert!(strptime("Fri Feb 13 15:31:30 2009", "%a %b %e %T %Y").is_ok());
    assert!(strptime("Fri Feb 13 15:31:30 2009 ", "%a %b %e %T %Y").is_err());
    assert!(strptime(" ", "").is_err());
    assert!(strptime("", " ").is_err());
}

#[test]
fn one_instant_in_two_zones() {
    let local = Tm {
        tm_sec: 30,
        tm_min: 31,
        tm_hour: 15,
        tm_mday: 13,
        tm_mon: 1,
        tm_year: 109,
        tm_wday: 5,
        tm_yday: 43,
        tm_isdst: 0,
        tm_gmtoff: -28800,
        tm_zone: Some("PST".to_string()),
        tm_nsec: 0,
    };
    assert_eq!(local.rfc822(), "Fri, 13 Feb 2009 15:31:30 PST");
    assert_eq!(local.rfc3339(), "2009-02-13T15:31:30-08:00");
    let utc = Tm { tm_hour: 23, tm_gmtoff: 0, tm_zone: Some("UTC".to_string()), ..local };
    assert_eq!(utc.rfc3339(), "2009-02-13T23:31:30Z");
}

#[test]
fn the_zone_names_utc_and_gmt() {
    for name in ["UTC", "GMT"] {
        let tm = strptime(name, "%Z").unwrap();
        assert_eq!(tm.tm_gmtoff, 0);
        assert_eq!(tm.tm_zone, None);
    }
    assert_eq!(strptime("PST", "%Z"), Ok(empty_tm()));
    assert_eq!(strptime("PST x", "%Z x"), Ok(empty_tm()));
}
