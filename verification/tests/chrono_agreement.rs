use chrono::{DateTime, NaiveDate, NaiveDateTime, TimeZone, Utc};
use twitter_archive::convert::{
    created_at, date_time_iso_8601, date_year_month_day, date_year_month_day_hour_minute_second,
};
use twitter_archive::instant::Instant;

fn date_time_of(instant: &Instant) -> DateTime<Utc> {
    NaiveDate::from_ymd_opt(instant.year() as i32, instant.month(), instant.day())
        .unwrap()
        .and_hms_milli_opt(instant.hour(), instant.minute(), instant.second(), instant.millisecond())
        .unwrap()
        .and_utc()
}

fn samples() -> Vec<Instant> {
    let mut all = Vec::new();
    for year in [0u32, 1, 99, 100, 400, 999, 1000, 1582, 1899, 1900, 1970, 1999, 2000, 2023, 2024, 2100, 9999] {
        for (month, day) in [(1u32, 1u32), (1, 31), (2, 28), (2, 29), (3, 1), (6, 30), (8, 12), (12, 31)] {
            for (hour, minute, second, ms) in [(0u32, 0u32, 0u32, 0u32), (16, 10, 37, 0), (23, 59, 59, 999), (9, 5, 3, 68)] {
                if let Some(instant) = Instant::new(year, month, day, hour, minute, second, ms) {
                    all.push(instant);
                }
            }
        }
    }
    all
}

#[test]
fn created_at_writes_what_chrono_writes() {
    for instant in samples() {
        let expected = date_time_of(&instant).format("%a %b %d %T %z %Y").to_string();
        assert_eq!(created_at::serialize(&instant), expected);
    }
}

#[test]
fn created_at_reads_what_chrono_reads() {
    for instant in samples() {
        let text = created_at::serialize(&instant);
        let theirs: DateTime<Utc> = DateTime::parse_from_str(&text, "%a %b %d %T %z %Y").unwrap().into();
        let ours = created_at::deserialize(&text).unwrap();
        assert_eq!(date_time_of(&ours), theirs, "{text}");
    }
}

#[test]
fn created_at_brings_offsets_to_utc_as_chrono_does() {
    for text in [
        "Sat Aug 12 12:10:37 -0400 2023",
        "Sat Aug 12 21:40:37 +0530 2023",
        "Sat Aug 12 23:30:00 -0100 2023",
        "Sun Jan 01 00:30:00 +0100 2023",
        "Fri Mar 01 00:00:00 +0001 2024",
        "Mon Mar 01 00:00:00 +2359 2100",
        "Thu Dec 31 23:59:59 -2359 2020",
        "Tue Feb 29 12:00:00 +1400 2000",
        "Sat Aug 12 16:10:37 -0000 2023",
    ] {
        let theirs: DateTime<Utc> = DateTime::parse_from_str(text, "%a %b %d %T %z %Y").unwrap().into();
        let ours = created_at::deserialize(text).unwrap();
        assert_eq!(date_time_of(&ours), theirs, "{text}");
    }
}

#[test]
fn created_at_refuses_the_day_of_the_week_that_chrono_refuses() {
    for text in ["Sun Aug 12 16:10:37 +0000 2023", "Mon Feb 29 12:00:00 +0000 2000", "Fri Jan 01 00:00:00 +0000 0000"] {
        assert!(DateTime::parse_from_str(text, "%a %b %d %T %z %Y").is_err(), "{text}");
        assert!(created_at::deserialize(text).is_err(), "{text}");
    }
}

#[test]
fn iso_8601_writes_and_reads_what_chrono_does() {
    for instant in samples() {
        let expected = date_time_of(&instant).format("%FT%T.%3fZ").to_string();
        let text = date_time_iso_8601::serialize(&instant);
        assert_eq!(text, expected);
        let theirs = NaiveDateTime::parse_from_str(&text, "%FT%T.%3fZ").unwrap();
        let ours = date_time_iso_8601::deserialize(&text).unwrap();
        assert_eq!(date_time_of(&ours), Utc.from_utc_datetime(&theirs));
        assert_eq!(ours, instant);
    }
}

#[test]
fn year_month_day_writes_and_reads_what_chrono_does() {
    for instant in samples() {
        let expected = date_time_of(&instant).format("%Y.%m.%d").to_string();
        let text = date_year_month_day::serialize(&instant);
        assert_eq!(text, expected);
        let theirs = NaiveDate::parse_from_str(&text, "%Y.%m.%d").unwrap();
        let ours = date_year_month_day::deserialize(&text).unwrap();
        assert_eq!(date_time_of(&ours), Utc.from_utc_datetime(&theirs.into()));
    }
}

#[test]
fn year_month_day_hour_minute_second_writes_and_reads_what_chrono_does() {
    for instant in samples() {
        let expected = date_time_of(&instant).format("%F %T").to_string();
        let text = date_year_month_day_hour_minute_second::serialize(&instant);
        assert_eq!(text, expected);
        let theirs = NaiveDateTime::parse_from_str(&text, "%F %T").unwrap();
        let ours = date_year_month_day_hour_minute_second::deserialize(&text).unwrap();
        assert_eq!(date_time_of(&ours), Utc.from_utc_datetime(&theirs));
    }
}
