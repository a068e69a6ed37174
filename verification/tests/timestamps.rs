use post_extract::{build_post_time, ExtractError};

fn invalid(year: i32, month: u32, day: u32) -> Result<String, ExtractError> {
    Err(ExtractError::InvalidCalendarDate { year, month, day })
}

#[test]
fn timestamp_is_midnight_utc_plus_seconds() {
    assert_eq!(build_post_time(2023, 4, 1, 0).unwrap(), "2023-04-01T00:00:00+00:00");
    assert_eq!(build_post_time(2023, 4, 1, 5).unwrap(), "2023-04-01T00:00:05+00:00");
    assert_eq!(build_post_time(2023, 12, 31, 59).unwrap(), "2023-12-31T00:00:59+00:00");
    assert_eq!(build_post_time(1996, 12, 19, 42).unwrap(), "1996-12-19T00:00:42+00:00");
}

#[test]
fn months_and_days_out_of_range_are_no_dates() {
    assert_eq!(build_post_time(2023, 13, 1, 0), invalid(2023, 13, 1));
    assert_eq!(build_post_time(2023, 0, 1, 0), invalid(2023, 0, 1));
    assert_eq!(build_post_time(2023, 1, 0, 0), invalid(2023, 1, 0));
    assert_eq!(build_post_time(2023, 1, 32, 0), invalid(2023, 1, 32));
    assert_eq!(build_post_time(2023, 4, 31, 0), invalid(2023, 4, 31));
    assert_eq!(build_post_time(2023, 6, 31, 0), invalid(2023, 6, 31));
    assert_eq!(build_post_time(2023, 9, 31, 0), invalid(2023, 9, 31));
    assert_eq!(build_post_time(2023, 11, 31, 0), invalid(2023, 11, 31));
    assert_eq!(build_post_time(2023, 4294967295, 4294967295, 0), invalid(2023, 4294967295, 4294967295));
}

#[test]
fn every_month_has_its_last_day() {
    let last = [31, 28, 31, 30, 31, 30, 31, 31, 30, 31, 30, 31];
    for (index, days) in last.iter().enumerate() {
        let month = index as u32 + 1;
        assert!(build_post_time(2023, month, *days, 0).is_ok(), "{month}");
        assert_eq!(build_post_time(2023, month, days + 1, 0), invalid(2023, month, days + 1));
    }
}

#[test]
fn leap_years_follow_the_gregorian_rule() {
    assert!(build_post_time(2024, 2, 29, 0).is_ok());
    assert!(build_post_time(2000, 2, 29, 0).is_ok());
    assert!(build_post_time(0, 2, 29, 0).is_ok());
    assert!(build_post_time(-4, 2, 29, 0).is_ok());
    assert!(build_post_time(-400, 2, 29, 0).is_ok());
    assert_eq!(build_post_time(2023, 2, 29, 0), invalid(2023, 2, 29));
    assert_eq!(build_post_time(1900, 2, 29, 0), invalid(1900, 2, 29));
    assert_eq!(build_post_time(2100, 2, 29, 0), invalid(2100, 2, 29));
    assert_eq!(build_post_time(-100, 2, 29, 0), invalid(-100, 2, 29));
    assert_eq!(build_post_time(-1, 2, 29, 0), invalid(-1, 2, 29));
    assert_eq!(build_post_time(2024, 2, 30, 0), invalid(2024, 2, 30));
}

#[test]
fn years_have_a_first_and_a_last() {
    assert_eq!(build_post_time(262142, 12, 31, 0).unwrap(), "+262142-12-31T00:00:00+00:00");
    assert_eq!(build_post_time(262143, 1, 1, 0), invalid(262143, 1, 1));
    assert_eq!(build_post_time(-262143, 1, 1, 0).unwrap(), "-262143-01-01T00:00:00+00:00");
    assert_eq!(build_post_time(-262144, 12, 31, 0), invalid(-262144, 12, 31));
    assert_eq!(build_post_time(i32::MAX, 1, 1, 0), invalid(i32::MAX, 1, 1));
    assert_eq!(build_post_time(i32::MIN, 1, 1, 0), invalid(i32::MIN, 1, 1));
}

#[test]
fn years_are_written_with_four_digits_or_a_sign() {
    assert_eq!(build_post_time(0, 1, 1, 0).unwrap(), "0000-01-01T00:00:00+00:00");
    assert_eq!(build_post_time(7, 1, 1, 0).unwrap(), "0007-01-01T00:00:00+00:00");
    assert_eq!(build_post_time(987, 1, 1, 0).unwrap(), "0987-01-01T00:00:00+00:00");
    assert_eq!(build_post_time(9999, 1, 1, 0).unwrap(), "9999-01-01T00:00:00+00:00");
    assert_eq!(build_post_time(10000, 1, 1, 0).unwrap(), "+10000-01-01T00:00:00+00:00");
    assert_eq!(build_post_time(-1, 1, 1, 0).unwrap(), "-0001-01-01T00:00:00+00:00");
    assert_eq!(build_post_time(-9999, 1, 1, 0).unwrap(), "-9999-01-01T00:00:00+00:00");
    assert_eq!(build_post_time(-10000, 1, 1, 0).unwrap(), "-10000-01-01T00:00:00+00:00");
}

#[test]
fn different_seconds_give_different_timestamps() {
    let mut seen = Vec::new();
    for seconds in 0..60 {
        let written = build_post_time(2023, 4, 1, seconds).unwrap();
        assert_eq!(written, format!("2023-04-01T00:00:{seconds:02}+00:00"));
        assert!(!seen.contains(&written));
        seen.push(written);
    }
}
