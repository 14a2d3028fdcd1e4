use buddha_notify::models::{format_number, Buddha, BuddhaDate, DateTime};

#[test]
fn test_format_date() {
    let dt = DateTime {
        day: 5,
        month: 9,
        year: 2024,
    };
    assert_eq!(dt.format_date(), "20240905");

    let dt = DateTime {
        day: 15,
        month: 12,
        year: 2024,
    };
    assert_eq!(dt.format_date(), "20241215");
}

#[test]
fn test_buddha_new() {
    let buddha = Buddha::new();
    assert!(!buddha.today.found);
    assert!(!buddha.tomorrow.found);
    assert!(buddha.today.description.is_empty());
    assert!(buddha.tomorrow.description.is_empty());
}

#[test]
fn format_number_pads_single_digits() {
    assert_eq!(format_number(0), "00");
    assert_eq!(format_number(9), "09");
    assert_eq!(format_number(10), "10");
    assert_eq!(format_number(31), "31");
}

#[test]
fn format_date_first_of_january() {
    let dt = DateTime { day: 1, month: 1, year: 2025 };
    assert_eq!(dt.format_date(), "20250101");
}

#[test]
fn from_date_rolls_over_year_end() {
    let d = BuddhaDate::from_date(2024, 12, 31);
    assert_eq!(d.today, DateTime { day: 31, month: 12, year: 2024 });
    assert_eq!(d.tomorrow, DateTime { day: 1, month: 1, year: 2025 });
    assert_eq!(d.year, 2567);
}

#[test]
fn from_date_handles_leap_years() {
    let d = BuddhaDate::from_date(2024, 2, 28);
    assert_eq!(d.tomorrow, DateTime { day: 29, month: 2, year: 2024 });
    let d = BuddhaDate::from_date(2023, 2, 28);
    assert_eq!(d.tomorrow, DateTime { day: 1, month: 3, year: 2023 });
    let d = BuddhaDate::from_date(1900, 2, 28);
    assert_eq!(d.tomorrow, DateTime { day: 1, month: 3, year: 1900 });
}

#[test]
fn from_date_keeps_today_when_no_successor() {
    let d = BuddhaDate::from_date(2024, 13, 1);
    assert_eq!(d.tomorrow, d.today);
    let d = BuddhaDate::from_date(262142, 12, 31);
    assert_eq!(d.tomorrow, d.today);
}
