use timefmt::{can_format, empty_tm, strftime, try_strftime, Tm};

fn sample() -> Tm {
    Tm {
        tm_sec: 30,
        tm_min: 31,
        tm_hour: 15,
        tm_mday: 13,
        tm_mon: 1,
        tm_year: 109,
        tm_wday: 5,
        tm_yday: 43,
        tm_isdst: 0,
        tm_gmtoff: -28800,
        tm_zone: Some("PST".to_string()),
        tm_nsec: 0,
    }
}

fn text(format: &str, tm: &Tm) -> String {
    assert!(can_format(format, tm, false));
    strftime(format, tm, None)
}

#[test]
fn characters_other_than_specifiers_are_written_as_they_are() {
    assert_eq!(text("", &sample()), "");
    assert_eq!(text("on the day", &sample()), "on the day");
    assert_eq!(text("100%%", &sample()), "100%");
    assert_eq!(text("a%nb%tc", &sample()), "a\nb\tc");
    assert_eq!(text("%Y年%m月%d日", &sample()), "2009年02月13日");
}

#[test]
fn numbers_of_a_fixed_width_are_filled_up() {
    let mut tm = empty_tm();
    tm.tm_mday = 3;
    tm.tm_hour = 7;
    tm.tm_min = 5;
    tm.tm_sec = 9;
    tm.tm_yday = 6;
    assert_eq!(text("%d", &tm), "03");
    assert_eq!(text("%e", &tm), " 3");
    assert_eq!(text("%H", &tm), "07");
    assert_eq!(text("%k", &tm), " 7");
    assert_eq!(text("%I", &tm), "07");
    assert_eq!(text("%l", &tm), " 7");
    assert_eq!(text("%M", &tm), "05");
    assert_eq!(text("%S", &tm), "09");
    assert_eq!(text("%m", &tm), "01");
    assert_eq!(text("%j", &tm), "007");
    assert_eq!(text("%C", &tm), "19");
    assert_eq!(text("%y", &tm), "00");
    assert_eq!(text("%Y", &tm), "1900");
    assert_eq!(text("%w", &tm), "0");
    assert_eq!(text("%u", &tm), "7");
}

#[test]
fn numbers_that_need_more_keep_their_digits() {
    let mut tm = empty_tm();
    tm.tm_mday = 123;
    tm.tm_yday = 1233;
    tm.tm_year = 12345 - 1900;
    tm.tm_wday = 42;
    assert_eq!(text("%d", &tm), "123");
    assert_eq!(text("%e", &tm), "123");
    assert_eq!(text("%j", &tm), "1234");
    assert_eq!(text("%Y", &tm), "12345");
    assert_eq!(text("%C", &tm), "123");
    assert_eq!(text("%y", &tm), "45");
    assert_eq!(text("%w", &tm), "42");
    assert_eq!(text("%u", &tm), "42");
}

#[test]
fn negative_numbers_carry_their_sign() {
    let mut tm = empty_tm();
    tm.tm_mday = -5;
    tm.tm_yday = -6;
    tm.tm_hour = -3;
    tm.tm_year = -44 - 1900;
    tm.tm_wday = -1;
    assert_eq!(text("%d", &tm), "-5");
    assert_eq!(text("%e", &tm), "-5");
    assert_eq!(text("%j", &tm), "-05");
    assert_eq!(text("%H", &tm), "-3");
    assert_eq!(text("%I", &tm), "-3");
    assert_eq!(text("%Y", &tm), "-44");
    assert_eq!(text("%C", &tm), "00");
    assert_eq!(text("%y", &tm), "-44");
    assert_eq!(text("%w", &tm), "-1");
    tm.tm_year = -250 - 1900;
    assert_eq!(text("%C", &tm), "-2");
    assert_eq!(text("%y", &tm), "-50");
    tm.tm_mday = -123;
    assert_eq!(text("%d", &tm), "-123");
}

#[test]
fn the_extremes_of_the_fields_are_written_in_full() {
    let mut tm = empty_tm();
    tm.tm_year = i32::MAX;
    tm.tm_mday = i32::MIN;
    tm.tm_yday = i32::MAX;
    tm.tm_mon = i32::MAX;
    assert_eq!(text("%Y", &tm), "2147485547");
    assert_eq!(text("%d", &tm), "-2147483648");
    assert_eq!(text("%j", &tm), "2147483648");
    assert_eq!(text("%m", &tm), "2147483648");
    tm.tm_gmtoff = i64::MIN;
    assert_eq!(text("%z", &tm), "-256204778801521530");
    tm.tm_gmtoff = i64::MAX;
    assert_eq!(text("%z", &tm), "+256204778801521530");
    assert_eq!(strftime("%s", &tm, Some(i64::MIN)), "-9223372036854775808");
}

#[test]
fn the_twelve_hour_clock_has_no_zero() {
    let mut tm = empty_tm();
    let zeros = [
        "12", "01", "02", "03", "04", "05", "06", "07", "08", "09", "10", "11", "12", "01", "02",
        "03", "04", "05", "06", "07", "08", "09", "10", "11",
    ];
    let blanks = [
        "12", " 1", " 2", " 3", " 4", " 5", " 6", " 7", " 8", " 9", "10", "11", "12", " 1", " 2",
        " 3", " 4", " 5", " 6", " 7", " 8", " 9", "10", "11",
    ];
    for hour in 0..24 {
        tm.tm_hour = hour;
        assert_eq!(text("%I", &tm), zeros[hour as usize]);
        assert_eq!(text("%l", &tm), blanks[hour as usize]);
        assert_eq!(text("%p", &tm), if hour < 12 { "AM" } else { "PM" });
        assert_eq!(text("%P", &tm), if hour < 12 { "am" } else { "pm" });
    }
}

#[test]
fn the_names_are_those_of_the_english_calendar() {
    let mut tm = empty_tm();
    let days = ["Sunday", "Monday", "Tuesday", "Wednesday", "Thursday", "Friday", "Saturday"];
    for (i, day) in days.iter().enumerate() {
        tm.tm_wday = i as i32;
        assert_eq!(text("%A", &tm), *day);
        assert_eq!(text("%a", &tm), &day[..3]);
        assert_eq!(text("%w", &tm), i.to_string());
        assert_eq!(text("%u", &tm), if i == 0 { "7".to_string() } else { i.to_string() });
    }
    let months = [
        "January",
        "February",
        "March",
        "April",
        "May",
        "June",
        "July",
        "August",
        "September",
        "October",
        "November",
        "December",
    ];
    for (i, month) in months.iter().enumerate() {
        tm.tm_mon = i as i32;
        assert_eq!(text("%B", &tm), *month);
        assert_eq!(text("%b", &tm), &month[..3]);
        assert_eq!(text("%h", &tm), &month[..3]);
        assert_eq!(text("%m", &tm), format!("{:02}", i + 1));
    }
}

#[test]
fn the_composites_write_their_parts_in_order() {
    let tm = sample();
    assert_eq!(text("%c", &tm), "Fri Feb 13 15:31:30 2009");
    assert_eq!(text("%D", &tm), "02/13/09");
    assert_eq!(text("%x", &tm), "02/13/09");
    assert_eq!(text("%F", &tm), "2009-02-13");
    assert_eq!(text("%R", &tm), "15:31");
    assert_eq!(text("%r", &tm), "03:31:30 PM");
    assert_eq!(text("%T", &tm), "15:31:30");
    assert_eq!(text("%X", &tm), "15:31:30");
    assert_eq!(text("%v", &tm), "13-Feb-2009");
    assert_eq!(text("[%T] [%F]", &tm), "[15:31:30] [2009-02-13]");
}

#[test]
fn the_zone_is_written_by_name_and_by_offset() {
    let mut tm = sample();
    assert_eq!(text("%Z", &tm), "PST");
    assert_eq!(text("%z", &tm), "-0800");
    tm.tm_zone = None;
    assert_eq!(text("%Z", &tm), "");
    assert_eq!(text("<%Z>", &tm), "<>");
    tm.tm_gmtoff = 0;
    assert_eq!(text("%z", &tm), "-0000");
    tm.tm_gmtoff = 19800;
    assert_eq!(text("%z", &tm), "+0530");
    tm.tm_gmtoff = -12600;
    assert_eq!(text("%z", &tm), "-0330");
    tm.tm_gmtoff = 59;
    assert_eq!(text("%z", &tm), "+0000");
    tm.tm_gmtoff = -3599;
    assert_eq!(text("%z", &tm), "-0059");
    tm.tm_gmtoff = 360_000;
    assert_eq!(text("%z", &tm), "+10000");
}

#[test]
fn the_seconds_since_1970_are_written_as_given() {
    let tm = sample();
    assert_eq!(strftime("%s", &tm, Some(1234567890)), "1234567890");
    assert_eq!(strftime("%s", &tm, Some(0)), "0");
    assert_eq!(strftime("%s", &tm, Some(-86400)), "-86400");
    assert_eq!(strftime("@%s %T", &tm, Some(7)), "@7 15:31:30");
    assert_eq!(tm.strftime("%s", Some(42)), "42");
}

#[test]
fn what_cannot_be_written_is_told_beforehand() {
    let tm = sample();
    for letter in ['G', 'g', 'U', 'V', 'W', '+', 'q', 'E', 'O', 'f'] {
        assert!(!can_format(&format!("%{}", letter), &tm, true));
        assert!(!can_format(&format!("%Y %{} %d", letter), &tm, true));
    }
    assert!(!can_format("%", &tm, true));
    assert!(!can_format("%Y%", &tm, true));
    assert!(can_format("%Y%%", &tm, true));
    assert!(can_format("%%G", &tm, true));
    assert!(!can_format("%s", &tm, false));
    assert!(can_format("%s", &tm, true));
    assert!(!can_format("%F %s", &tm, false));
}

#[test]
fn a_weekday_or_month_without_a_name_cannot_be_named() {
    let mut tm = sample();
    tm.tm_wday = 7;
    assert!(!can_format("%A", &tm, false));
    assert!(!can_format("%a", &tm, false));
    assert!(!can_format("%c", &tm, false));
    assert!(can_format("%w %u %F", &tm, false));
    tm.tm_wday = -1;
    assert!(!can_format("%a", &tm, false));
    tm.tm_wday = 0;
    tm.tm_mon = 12;
    assert!(!can_format("%B", &tm, false));
    assert!(!can_format("%b", &tm, false));
    assert!(!can_format("%h", &tm, false));
    assert!(!can_format("%v", &tm, false));
    assert!(!can_format("%c", &tm, false));
    assert!(can_format("%m %D", &tm, false));
    tm.tm_mon = -1;
    assert!(!can_format("%b", &tm, false));
}

#[test]
fn the_named_forms_follow_their_standards() {
    let local = sample();
    assert_eq!(local.ctime(), "Fri Feb 13 15:31:30 2009");
    assert_eq!(local.rfc822(), "Fri, 13 Feb 2009 15:31:30 PST");
    assert_eq!(local.rfc822z(), "Fri, 13 Feb 2009 15:31:30 -0800");
    assert_eq!(local.rfc3339(), "2009-02-13T15:31:30-08:00");

    let mut utc = sample();
    utc.tm_hour = 23;
    utc.tm_gmtoff = 0;
    utc.tm_zone = Some("UTC".to_string());
    assert_eq!(utc.ctime(), "Fri Feb 13 23:31:30 2009");
    assert_eq!(utc.rfc822(), "Fri, 13 Feb 2009 23:31:30 GMT");
    assert_eq!(utc.rfc822z(), "Fri, 13 Feb 2009 23:31:30 -0000");
    assert_eq!(utc.rfc3339(), "2009-02-13T23:31:30Z");
}

#[test]
fn the_offset_of_rfc3339_has_a_colon_and_a_sign() {
    let mut tm = sample();
    tm.tm_gmtoff = 19800;
    assert_eq!(tm.rfc3339(), "2009-02-13T15:31:30+05:30");
    tm.tm_gmtoff = -1;
    assert_eq!(tm.rfc3339(), "2009-02-13T15:31:30-00:00");
    tm.tm_gmtoff = 1;
    assert_eq!(tm.rfc3339(), "2009-02-13T15:31:30+00:00");
    tm.tm_gmtoff = 86399;
    assert_eq!(tm.rfc3339(), "2009-02-13T15:31:30+23:59");
}

#[test]
fn a_zone_without_a_name_leaves_rfc822_without_one() {
    let mut tm = sample();
    tm.tm_zone = None;
    assert_eq!(tm.rfc822(), "Fri, 13 Feb 2009 15:31:30 ");
    tm.tm_mday = 3;
    assert_eq!(tm.ctime(), "Fri Feb  3 15:31:30 2009");
}

#[test]
fn formatting_on_trial_tells_what_it_cannot_do() {
    let tm = sample();
    assert_eq!(try_strftime("%F %T", &tm, None), Some("2009-02-13 15:31:30".to_string()));
    assert_eq!(try_strftime("%s", &tm, Some(5)), Some("5".to_string()));
    assert_eq!(try_strftime("%s", &tm, None), None);
    assert_eq!(try_strftime("%G", &tm, None), None);
    assert_eq!(try_strftime("%", &tm, Some(5)), None);
    let mut odd = sample();
    odd.tm_wday = 9;
    assert_eq!(try_strftime("%a", &odd, None), None);
    assert_eq!(try_strftime("%w", &odd, None), Some("9".to_string()));
}
