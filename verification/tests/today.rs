use td::commands::today::TodayOptions;
use td::output::helpers::{format_priority, truncate_str};


#[test]
fn test_today_options_defaults() {
    let opts = TodayOptions {
        include_overdue: true,
        include_upcoming: None,
    };

    assert!(opts.include_overdue);
    assert!(opts.include_upcoming.is_none());
}

#[test]
fn test_today_options_with_upcoming() {
    let opts = TodayOptions {
        include_overdue: true,
        include_upcoming: Some(3),
    };

    assert!(opts.include_overdue);
    assert_eq!(opts.include_upcoming, Some(3));
}

#[test]
fn today_test_format_priority_no_colors() {
    assert_eq!(format_priority(4, false), "p1");
    assert_eq!(format_priority(3, false), "p2");
    assert_eq!(format_priority(2, false), "p3");
    assert_eq!(format_priority(1, false), "p4");
}

#[test]
fn today_test_truncate_str() {
    assert_eq!(truncate_str("short", 10), "short");
    assert_eq!(truncate_str("this is a long string", 10), "this is...");
}
