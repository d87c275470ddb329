use chrono::{Datelike, NaiveDate};
use twitter_archive::calendar::{check_date, weekday};
use twitter_archive::instant::Instant;

#[test]
fn weekday_of_known_dates() {
    assert_eq!(weekday(2023, 8, 12), 5);
    assert_eq!(weekday(2015, 9, 8), 1);
    assert_eq!(weekday(1970, 1, 1), 3);
    assert_eq!(weekday(2000, 2, 29), 1);
    assert_eq!(weekday(2024, 1, 1), 0);
    assert_eq!(weekday(2023, 1, 1), 6);
}

#[test]
fn weekday_agrees_with_chrono_on_every_day_of_some_decades() {
    for year in 1990..=2040u32 {
        for month in 1..=12u32 {
            for day in 1..=31u32 {
                if let Some(date) = NaiveDate::from_ymd_opt(year as i32, month, day) {
                    assert!(check_date(year, month, day));
                    assert_eq!(weekday(year, month, day), date.weekday().num_days_from_monday());
                } else {
                    assert!(!check_date(year, month, day));
                }
            }
        }
    }
}

#[test]
fn weekday_agrees_with_chrono_at_the_ends_of_every_year() {
    for year in 0..=9999u32 {
        for (month, day) in [(1u32, 1u32), (2, 28), (3, 1), (12, 31)] {
            let date = NaiveDate::from_ymd_opt(year as i32, month, day).unwrap();
            assert_eq!(weekday(year, month, day), date.weekday().num_days_from_monday(), "{year}-{month}-{day}");
        }
        assert_eq!(check_date(year, 2, 29), NaiveDate::from_ymd_opt(year as i32, 2, 29).is_some(), "{year}");
    }
}

#[test]
fn dates_that_do_not_exist() {
    assert!(!check_date(2023, 0, 1));
    assert!(!check_date(2023, 13, 1));
    assert!(!check_date(2023, 1, 0));
    assert!(!check_date(2023, 1, 32));
    assert!(!check_date(2023, 4, 31));
    assert!(!check_date(2023, 2, 29));
    assert!(!check_date(1900, 2, 29));
    assert!(check_date(2000, 2, 29));
    assert!(check_date(0, 2, 29));
    assert!(check_date(2023, 12, 31));
}

#[test]
fn an_instant_is_a_valid_moment_or_nothing() {
    assert!(Instant::new(2023, 8, 12, 16, 10, 37, 0).is_some());
    assert!(Instant::new(0, 1, 1, 0, 0, 0, 0).is_some());
    assert!(Instant::new(9999, 12, 31, 23, 59, 59, 999).is_some());
    assert!(Instant::new(10000, 1, 1, 0, 0, 0, 0).is_none());
    assert!(Instant::new(2023, 2, 29, 0, 0, 0, 0).is_none());
    assert!(Instant::new(2023, 8, 12, 24, 0, 0, 0).is_none());
    assert!(Instant::new(2023, 8, 12, 0, 60, 0, 0).is_none());
    assert!(Instant::new(2023, 8, 12, 0, 0, 60, 0).is_none());
    assert!(Instant::new(2023, 8, 12, 0, 0, 0, 1000).is_none());
}
