use alamo_schedule::format_show_time;
use alamo_schedule::parse_show_time;

fn stamp(
    year: i32,
    month: u32,
    day: u32,
    hour: u32,
    minute: u32,
    second: u32,
) -> alamo_schedule::Stamp {
    alamo_schedule::Stamp { year, month, day, hour, minute, second }
}

#[test]
fn parses_a_valid_show_time() {
    let st = parse_show_time("2099-01-05T19:30:00").expect("valid");
    assert_eq!(st, stamp(2099, 1, 5, 19, 30, 0));
}

#[test]
fn parses_another_valid_show_time() {
    let st = parse_show_time("2025-12-31T23:59:59").expect("valid");
    assert_eq!(st, stamp(2025, 12, 31, 23, 59, 59));
}

#[test]
fn rejects_out_of_range_fields() {
    assert!(parse_show_time("2025-13-40T99:99:00").is_none());
}

#[test]
fn rejects_month_thirteen() {
    assert!(parse_show_time("2025-13-01T10:00:00").is_none());
}

#[test]
fn rejects_hour_twenty_four() {
    assert!(parse_show_time("2025-06-01T24:00:00").is_none());
}

#[test]
fn rejects_wrong_shape() {
    assert!(parse_show_time("2025-06-01 10:00:00").is_none());
    assert!(parse_show_time("2025-6-1T10:00:00").is_none());
    assert!(parse_show_time("2025-06-01T10:00").is_none());
    assert!(parse_show_time("2025-06-01T10:00:00Z").is_none());
    assert!(parse_show_time("").is_none());
    assert!(parse_show_time("not a time at all!").is_none());
}

#[test]
fn rejects_non_ascii_text() {
    assert!(parse_show_time("２025-06-01T10:00:00").is_none());
}

#[test]
fn accepts_leap_day_in_leap_year() {
    assert!(parse_show_time("2024-02-29T12:00:00").is_some());
    assert!(parse_show_time("2000-02-29T12:00:00").is_some());
}

#[test]
fn rejects_leap_day_outside_leap_year() {
    assert!(parse_show_time("2023-02-29T12:00:00").is_none());
    assert!(parse_show_time("1900-02-28T12:00:00").is_some());
    assert!(parse_show_time("2100-02-29T12:00:00").is_none());
}

#[test]
fn rejects_day_thirty_one_in_short_month() {
    assert!(parse_show_time("2025-04-31T12:00:00").is_none());
    assert!(parse_show_time("2025-04-30T12:00:00").is_some());
}

#[test]
fn formats_show_time_as_month_day_hour_minute() {
    assert_eq!(format_show_time("2099-01-05T19:30:00"), "01/05 19:30");
}

#[test]
fn formatting_keeps_the_original_digits() {
    assert_eq!(format_show_time("2025-12-31T23:59:58"), "12/31 23:59");
    assert_eq!(format_show_time("2025-13-40T99:98:97"), "13/40 99:98");
}
