use timefmt::{at, at_utc, can_format, strftime, strptime, Timespec, Tm};

fn utc_fields() -> Tm {
    Tm {
        tm_sec: 30,
        tm_min: 31,
        tm_hour: 23,
        tm_mday: 13,
        tm_mon: 1,
        tm_year: 109,
        tm_wday: 5,
        tm_yday: 43,
        tm_isdst: 0,
        tm_gmtoff: 0,
        tm_zone: Some("UTC".to_string()),
        tm_nsec: 0,
    }
}

fn local_fields() -> Tm {
    Tm {
        tm_sec: 30,
        tm_min: 31,
        tm_hour: 15,
        tm_mday: 13,
        tm_mon: 1,
        tm_year: 109,
        tm_wday: 5,
        tm_yday: 43,
        tm_isdst: 0,
        tm_gmtoff: -28800,
        tm_zone: Some("PST".to_string()),
        tm_nsec: 0,
    }
}

fn test(s: &str, format: &str) -> bool {
    match strptime(s, format) {
        Ok(tm) => {
            assert!(can_format(format, &tm, false));
            strftime(format, &tm, None) == s
        }
        Err(e) => panic!("{}", e.message()),
    }
}

fn local_strftime(local: &Tm, format: &str) -> String {
    assert!(can_format(format, local, true));
    local.strftime(format, Some(1234567890))
}

#[test]
fn test_strptime() {
    match strptime("", "") {
        Ok(tm) => {
            assert!(tm.tm_sec == 0);
            assert!(tm.tm_min == 0);
            assert!(tm.tm_hour == 0);
            assert!(tm.tm_mday == 0);
            assert!(tm.tm_mon == 0);
            assert!(tm.tm_year == 0);
            assert!(tm.tm_wday == 0);
            assert!(tm.tm_isdst == 0);
            assert!(tm.tm_gmtoff == 0);
            assert!(tm.tm_zone.is_none());
            assert!(tm.tm_nsec == 0);
        }
        Err(_) => {}
    }

    let format = "%a %b %e %T %Y";
    assert!(strptime("", format).map_err(|e| e.message()) == Err("Invalid time".to_string()));
    assert!(
        strptime("Fri Feb 13 15:31:30", format).map_err(|e| e.message())
            == Err("Invalid time".to_string())
    );

    match strptime("Fri Feb 13 15:31:30 2009", format) {
        Err(e) => panic!("{}", e.message()),
        Ok(tm) => {
            assert!(tm.tm_sec == 30);
            assert!(tm.tm_min == 31);
            assert!(tm.tm_hour == 15);
            assert!(tm.tm_mday == 13);
            assert!(tm.tm_mon == 1);
            assert!(tm.tm_year == 109);
            assert!(tm.tm_wday == 5);
            assert!(tm.tm_yday == 0);
            assert!(tm.tm_isdst == 0);
            assert!(tm.tm_gmtoff == 0);
            assert!(tm.tm_zone.is_none());
            assert!(tm.tm_nsec == 0);
        }
    }

    for day in [
        "Sunday",
        "Monday",
        "Tuesday",
        "Wednesday",
        "Thursday",
        "Friday",
        "Saturday",
    ] {
        assert!(test(day, "%A"));
    }

    for day in ["Sun", "Mon", "Tue", "Wed", "Thu", "Fri", "Sat"] {
        assert!(test(day, "%a"));
    }

    for day in [
        "January",
        "February",
        "March",
        "April",
        "May",
        "June",
        "July",
        "August",
        "September",
        "October",
        "November",
        "December",
    ] {
        assert!(test(day, "%B"));
    }

    for day in [
        "Jan", "Feb", "Mar", "Apr", "May", "Jun", "Jul", "Aug", "Sep", "Oct", "Nov", "Dec",
    ] {
        assert!(test(day, "%b"));
    }

    assert!(test("19", "%C"));
    assert!(test("Fri Feb 13 23:31:30 2009", "%c"));
    assert!(test("02/13/09", "%D"));
    assert!(test("03", "%d"));
    assert!(test("13", "%d"));
    assert!(test(" 3", "%e"));
    assert!(test("13", "%e"));
    assert!(test("2009-02-13", "%F"));
    assert!(test("03", "%H"));
    assert!(test("13", "%H"));
    assert!(test("03", "%I"));
    assert!(test("11", "%I"));
    assert!(test("044", "%j"));
    assert!(test(" 3", "%k"));
    assert!(test("13", "%k"));
    assert!(test(" 1", "%l"));
    assert!(test("11", "%l"));
    assert!(test("03", "%M"));
    assert!(test("13", "%M"));
    assert!(test("\n", "%n"));
    assert!(test("am", "%P"));
    assert!(test("pm", "%P"));
    assert!(test("AM", "%p"));
    assert!(test("PM", "%p"));
    assert!(test("23:31", "%R"));
    assert!(test("11:31:30 AM", "%r"));
    assert!(test("11:31:30 PM", "%r"));
    assert!(test("03", "%S"));
    assert!(test("13", "%S"));
    assert!(test("15:31:30", "%T"));
    assert!(test("\t", "%t"));
    assert!(test("1", "%u"));
    assert!(test("7", "%u"));
    assert!(test("13-Feb-2009", "%v"));
    assert!(test("0", "%w"));
    assert!(test("6", "%w"));
    assert!(test("2009", "%Y"));
    assert!(test("09", "%y"));
    assert!(strptime("UTC", "%Z").unwrap().tm_zone.is_none());
    assert!(strptime("PST", "%Z").unwrap().tm_zone.is_none());
    assert!(strptime("-0000", "%z").unwrap().tm_gmtoff == 0);
    assert!(strptime("-0800", "%z").unwrap().tm_gmtoff == 0);
    assert!(test("%", "%%"));
}

#[test]
fn test_ctime() {
    let time = Timespec { sec: 1234567890, nsec: 54321 };
    let utc = at_utc(time, utc_fields());
    let local = at(time, local_fields());

    assert!(utc.ctime() == "Fri Feb 13 23:31:30 2009");
    assert!(local.ctime() == "Fri Feb 13 15:31:30 2009");
}

#[test]
fn test_strftime() {
    let time = Timespec { sec: 1234567890, nsec: 54321 };
    let utc = at_utc(time, utc_fields());
    let local = at(time, local_fields());

    assert!(local_strftime(&local, "") == "");
    assert!(local_strftime(&local, "%A") == "Friday");
    assert!(local_strftime(&local, "%a") == "Fri");
    assert!(local_strftime(&local, "%B") == "February");
    assert!(local_strftime(&local, "%b") == "Feb");
    assert!(local_strftime(&local, "%C") == "20");
    assert!(local_strftime(&local, "%c") == "Fri Feb 13 15:31:30 2009");
    assert!(local_strftime(&local, "%D") == "02/13/09");
    assert!(local_strftime(&local, "%d") == "13");
    assert!(local_strftime(&local, "%e") == "13");
    assert!(local_strftime(&local, "%F") == "2009-02-13");
    assert!(local_strftime(&local, "%H") == "15");
    assert!(local_strftime(&local, "%I") == "03");
    assert!(local_strftime(&local, "%j") == "044");
    assert!(local_strftime(&local, "%k") == "15");
    assert!(local_strftime(&local, "%l") == " 3");
    assert!(local_strftime(&local, "%M") == "31");
    assert!(local_strftime(&local, "%m") == "02");
    assert!(local_strftime(&local, "%n") == "\n");
    assert!(local_strftime(&local, "%P") == "pm");
    assert!(local_strftime(&local, "%p") == "PM");
    assert!(local_strftime(&local, "%R") == "15:31");
    assert!(local_strftime(&local, "%r") == "03:31:30 PM");
    assert!(local_strftime(&local, "%S") == "30");
    assert!(local_strftime(&local, "%s") == "1234567890");
    assert!(local_strftime(&local, "%T") == "15:31:30");
    assert!(local_strftime(&local, "%t") == "\t");
    assert!(local_strftime(&local, "%u") == "5");
    assert!(local_strftime(&local, "%v") == "13-Feb-2009");
    assert!(local_strftime(&local, "%w") == "5");
    assert!(local_strftime(&local, "%Y") == "2009");
    assert!(local_strftime(&local, "%y") == "09");

    let zone = local_strftime(&local, "%Z");
    assert!(zone == "PST" || zone == "Pacific Standard Time");

    assert!(local_strftime(&local, "%z") == "-0800");
    assert!(local_strftime(&local, "%%") == "%");

    let rfc822 = local.rfc822();
    let prefix = "Fri, 13 Feb 2009 15:31:30 ";
    assert!(
        rfc822 == format!("{}{}", prefix, "PST")
            || rfc822 == format!("{}{}", prefix, "Pacific Standard Time")
    );

    assert!(local.ctime() == "Fri Feb 13 15:31:30 2009");
    assert!(local.rfc822z() == "Fri, 13 Feb 2009 15:31:30 -0800");
    assert!(local.rfc3339() == "2009-02-13T15:31:30-08:00");

    assert!(utc.ctime() == "Fri Feb 13 23:31:30 2009");
    assert!(utc.rfc822() == "Fri, 13 Feb 2009 23:31:30 GMT");
    assert!(utc.rfc822z() == "Fri, 13 Feb 2009 23:31:30 -0000");
    assert!(utc.rfc3339() == "2009-02-13T23:31:30Z");
}
