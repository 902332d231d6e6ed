use request_executor::timestamp::{Timestamp, MAX_YEAR, MIN_YEAR};

fn text(year: i32, month: u32, day: u32, hour: u32, minute: u32, second: u32) -> String {
    Timestamp::new(year, month, day, hour, minute, second).unwrap().text()
}

fn looks_like_a_timestamp(text: &str) -> bool {
    let bytes = text.as_bytes();
    bytes.len() == 19
        && bytes.iter().enumerate().all(|(i, b)| match i {
            4 | 7 => *b == b'-',
            10 => *b == b' ',
            13 | 16 => *b == b':',
            _ => b.is_ascii_digit(),
        })
}

#[test]
fn a_moment_reads_year_month_day_hour_minute_second() {
    assert_eq!(text(2024, 1, 2, 3, 4, 5), "2024-01-02 03:04:05");
    assert_eq!(text(1999, 12, 31, 23, 59, 59), "1999-12-31 23:59:59");
    assert_eq!(text(2000, 10, 10, 10, 10, 10), "2000-10-10 10:10:10");
    assert_eq!(text(1970, 1, 1, 0, 0, 0), "1970-01-01 00:00:00");
}

#[test]
fn short_years_are_filled_with_zeros() {
    assert_eq!(text(0, 1, 1, 0, 0, 0), "0000-01-01 00:00:00");
    assert_eq!(text(7, 6, 5, 4, 3, 2), "0007-06-05 04:03:02");
    assert_eq!(text(999, 12, 31, 0, 0, 0), "0999-12-31 00:00:00");
    assert_eq!(text(1000, 1, 1, 0, 0, 0), "1000-01-01 00:00:00");
    assert_eq!(text(9999, 12, 31, 23, 59, 59), "9999-12-31 23:59:59");
}

#[test]
fn years_beyond_four_digits_carry_a_sign() {
    assert_eq!(text(10000, 1, 1, 0, 0, 0), "+10000-01-01 00:00:00");
    assert_eq!(text(MAX_YEAR, 12, 31, 23, 59, 59), "+262142-12-31 23:59:59");
    assert_eq!(text(-1, 1, 1, 0, 0, 0), "-0001-01-01 00:00:00");
    assert_eq!(text(-999, 1, 1, 0, 0, 0), "-0999-01-01 00:00:00");
    assert_eq!(text(-9999, 1, 1, 0, 0, 0), "-9999-01-01 00:00:00");
    assert_eq!(text(-10000, 1, 1, 0, 0, 0), "-10000-01-01 00:00:00");
    assert_eq!(text(MIN_YEAR, 1, 1, 0, 0, 0), "-262143-01-01 00:00:00");
}

#[test]
fn years_outside_the_calendar_are_refused() {
    assert_eq!(MIN_YEAR, -262143);
    assert_eq!(MAX_YEAR, 262142);
    assert!(Timestamp::new(MAX_YEAR + 1, 1, 1, 0, 0, 0).is_none());
    assert!(Timestamp::new(MIN_YEAR - 1, 12, 31, 0, 0, 0).is_none());
    assert!(Timestamp::new(i32::MAX, 1, 1, 0, 0, 0).is_none());
    assert!(Timestamp::new(i32::MIN, 1, 1, 0, 0, 0).is_none());
}

#[test]
fn days_that_do_not_exist_are_refused() {
    assert!(Timestamp::new(2023, 2, 29, 0, 0, 0).is_none());
    assert!(Timestamp::new(2024, 2, 29, 0, 0, 0).is_some());
    assert!(Timestamp::new(2024, 2, 30, 0, 0, 0).is_none());
    assert!(Timestamp::new(1900, 2, 29, 0, 0, 0).is_none());
    assert!(Timestamp::new(2000, 2, 29, 0, 0, 0).is_some());
    assert!(Timestamp::new(-4, 2, 29, 0, 0, 0).is_some());
    assert!(Timestamp::new(-100, 2, 29, 0, 0, 0).is_none());
    assert!(Timestamp::new(-400, 2, 29, 0, 0, 0).is_some());
    assert!(Timestamp::new(0, 2, 29, 0, 0, 0).is_some());
    assert!(Timestamp::new(2023, 4, 31, 0, 0, 0).is_none());
    assert!(Timestamp::new(2023, 4, 30, 0, 0, 0).is_some());
    assert!(Timestamp::new(2023, 1, 31, 0, 0, 0).is_some());
    assert!(Timestamp::new(2023, 1, 32, 0, 0, 0).is_none());
    assert!(Timestamp::new(2023, 0, 1, 0, 0, 0).is_none());
    assert!(Timestamp::new(2023, 13, 1, 0, 0, 0).is_none());
    assert!(Timestamp::new(2023, 1, 0, 0, 0, 0).is_none());
}

#[test]
fn times_that_do_not_exist_are_refused() {
    assert!(Timestamp::new(2023, 1, 1, 24, 0, 0).is_none());
    assert!(Timestamp::new(2023, 1, 1, 0, 60, 0).is_none());
    assert!(Timestamp::new(2023, 1, 1, 0, 0, 60).is_none());
    assert!(Timestamp::new(2023, 1, 1, 23, 59, 59).is_some());
}

#[test]
fn what_is_valid_is_what_the_calendar_crate_takes() {
    for year in [-401, -400, -100, -4, -1, 0, 1, 4, 100, 400, 1900, 2000, 2023, 2024, 2100] {
        for month in 0u32..=13 {
            for day in 0u32..=32 {
                let theirs = chrono::NaiveDate::from_ymd_opt(year, month, day).is_some();
                let ours = Timestamp::new(year, month, day, 12, 0, 0).is_some();
                assert_eq!(ours, theirs, "{}-{}-{}", year, month, day);
            }
        }
    }
}

#[test]
fn the_parts_of_a_moment_can_be_read_back() {
    let made = Timestamp::new(2024, 2, 29, 13, 14, 15).unwrap();
    assert_eq!(made.year(), 2024);
    assert_eq!(made.month(), 2);
    assert_eq!(made.day(), 29);
    assert_eq!(made.hour(), 13);
    assert_eq!(made.minute(), 14);
    assert_eq!(made.second(), 15);
}

#[test]
fn now_is_a_moment_of_these_days() {
    let before = chrono::Local::now().naive_local();
    let now = Timestamp::now();
    let after = chrono::Local::now().naive_local();
    let read = chrono::NaiveDate::from_ymd_opt(now.year(), now.month(), now.day())
        .unwrap()
        .and_hms_opt(now.hour(), now.minute(), now.second())
        .unwrap();
    assert!(before - chrono::Duration::seconds(1) <= read);
    assert!(read <= after);
    assert!(looks_like_a_timestamp(&now.text()));
    assert_eq!(now.text(), read.format("%Y-%m-%d %H:%M:%S").to_string());
}
