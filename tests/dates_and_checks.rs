use rustyoutube::dates::{decimal_text, describe_age, format_date, format_date_parsed, parse_i64, should_check_for_updates};

// 2024-03-01T00:00:00Z
const NOW: i64 = 1_709_251_200;
// chrono's day number of 2024-03-01
const TODAY: i32 = 738_946;

#[test]
fn ages_read_in_days_months_years() {
    assert_eq!(describe_age(1), "1 day ago");
    assert_eq!(describe_age(30), "30 days ago");
    assert_eq!(describe_age(31), "1 month ago");
    assert_eq!(describe_age(365), "12 months ago");
    assert_eq!(describe_age(366), "1 year ago");
    assert_eq!(describe_age(800), "2 years ago");
}

#[test]
fn rfc3339_dates() {
    assert_eq!(format_date("2024-02-28T00:00:00Z", NOW, TODAY), "2 days ago");
    assert_eq!(format_date("2024-02-29T12:00:00Z", NOW, TODAY), "Today");
    assert_eq!(format_date("2024-03-02T00:00:00Z", NOW, TODAY), "Today");
    assert_eq!(format_date("2021-01-01T00:00:00+00:00", NOW, TODAY), "3 years ago");
}

#[test]
fn plain_dates() {
    assert_eq!(format_date("2024-02-01", NOW, TODAY), "29 days ago");
    assert_eq!(format_date("2024-01-01", NOW, TODAY), "2 months ago");
    assert_eq!(format_date("2024-03-01", NOW, TODAY), "2024-03-01");
    assert_eq!(format_date("yesterday", NOW, TODAY), "yesterday");
    assert_eq!(format_date("", NOW, TODAY), "Unknown date");
}

#[test]
fn dates_from_given_parses() {
    assert_eq!(format_date_parsed("x", Some(0), None, 86_400 * 3, 0), "3 days ago");
    assert_eq!(format_date_parsed("x", None, Some(10), 0, 12), "2 days ago");
    assert_eq!(format_date_parsed("x", None, Some(10), 0, 10), "x");
}

#[test]
fn decimal_numbers() {
    assert_eq!(decimal_text(0), "0");
    assert_eq!(decimal_text(1907), "1907");
    assert_eq!(decimal_text(u64::MAX), u64::MAX.to_string());
}

#[test]
fn integers_parse_like_std() {
    for s in ["0", "-0", "+7", "-9223372036854775808", "9223372036854775807", "9223372036854775808", "", "-", "+", "12a", " 1", "99999999999999999999"] {
        assert_eq!(parse_i64(s), s.parse::<i64>().ok(), "input {:?}", s);
    }
}

#[test]
fn update_check_once_a_day() {
    assert!(should_check_for_updates(None, 1000));
    assert!(should_check_for_updates(Some("garbage"), 1000));
    assert!(!should_check_for_updates(Some(" 1000\n"), 1000 + 86_400));
    assert!(should_check_for_updates(Some("1000"), 1000 + 86_401));
    assert!(!should_check_for_updates(Some("-9223372036854775808"), i64::MIN));
    assert!(should_check_for_updates(Some("-9223372036854775808"), i64::MAX));
}
