use chrono::{FixedOffset, NaiveDate, TimeZone};
use hest::due::format_due;
use hest::text::{split_once_space, starts_with, str_eq, trim_end_str, trim_str};
use hest::Due;

#[test]
fn trims_unicode_white_space_at_both_ends() {
    assert_eq!(trim_str("  \t hello world \n"), "hello world");
    assert_eq!(trim_str("\u{3000}x\u{a0}"), "x");
    assert_eq!(trim_str("   "), "");
    assert_eq!(trim_str(""), "");
    assert_eq!(trim_str("a b"), "a b");
}

#[test]
fn trim_end_keeps_leading_white_space() {
    assert_eq!(trim_end_str("  secret \r\n"), "  secret");
    assert_eq!(trim_end_str("pw"), "pw");
    assert_eq!(trim_end_str("\n"), "");
}

#[test]
fn prefixes_and_equality() {
    assert!(starts_with("@echo hi", "@echo"));
    assert!(starts_with("@echo", "@echo"));
    assert!(!starts_with("@ech", "@echo"));
    assert!(!starts_with("hello", "@echo"));
    assert!(starts_with("anything", ""));
    assert!(str_eq("add", "add"));
    assert!(!str_eq("add", "adds"));
    assert!(!str_eq("list", "lisT"));
}

#[test]
fn splits_at_the_first_space_only() {
    assert_eq!(split_once_space("add 2024-01-02 10:00 x y"), ("add", Some("2024-01-02 10:00 x y")));
    assert_eq!(split_once_space("list"), ("list", None));
    assert_eq!(split_once_space(""), ("", None));
    assert_eq!(split_once_space("delete "), ("delete", Some("")));
    assert_eq!(split_once_space(" x"), ("", Some("x")));
}

fn due(year: i32, month: u32, day: u32, hour: u32, minute: u32) -> Due {
    Due { year, month, day, hour, minute, second: 0, nanosecond: 0, offset_seconds: 3600 }
}

#[test]
fn formats_due_times_like_chrono() {
    assert_eq!(format_due(&due(2024, 5, 17, 9, 30)), "2024-05-17 09:30");
    assert_eq!(format_due(&due(999, 1, 2, 0, 0)), "0999-01-02 00:00");
    assert_eq!(format_due(&due(12345, 12, 31, 23, 59)), "+12345-12-31 23:59");
    assert_eq!(format_due(&due(-5, 3, 4, 5, 6)), "-0005-03-04 05:06");
}

#[test]
fn formats_due_times_as_chrono_does() {
    let cases = [(2024, 5, 17, 9, 30), (999, 1, 2, 0, 0), (12345, 12, 31, 23, 59), (-5, 3, 4, 5, 6)];
    for (y, m, d, h, mi) in cases {
        let naive = NaiveDate::from_ymd_opt(y, m, d).unwrap().and_hms_opt(h, mi, 0).unwrap();
        let dt = FixedOffset::east_opt(3600).unwrap().from_local_datetime(&naive).unwrap();
        assert_eq!(format_due(&due(y, m, d, h, mi)), dt.format("%Y-%m-%d %H:%M").to_string());
    }
}

#[test]
fn due_validity_follows_the_calendar() {
    assert!(due(2024, 2, 29, 0, 0).is_valid());
    assert!(!due(2023, 2, 29, 0, 0).is_valid());
    assert!(!due(1900, 2, 29, 0, 0).is_valid());
    assert!(due(2000, 2, 29, 0, 0).is_valid());
    assert!(due(-4, 2, 29, 0, 0).is_valid());
    assert!(!due(2024, 13, 1, 0, 0).is_valid());
    assert!(!due(2024, 4, 31, 0, 0).is_valid());
    assert!(!due(2024, 1, 1, 24, 0).is_valid());
    assert!(!due(262143, 1, 1, 0, 0).is_valid());
    let mut d = due(2024, 1, 1, 0, 0);
    d.offset_seconds = 86400;
    assert!(!d.is_valid());
    let mut leap = due(2016, 12, 31, 23, 59);
    leap.second = 59;
    leap.nanosecond = 1_500_000_000;
    assert!(leap.is_valid());
    leap.second = 58;
    assert!(!leap.is_valid());
}
