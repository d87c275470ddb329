use twitter_archive::convert::{
    created_at, date_time_iso_8601, date_year_month_day, date_year_month_day_hour_minute_second,
    indices, number_like_string,
};
use twitter_archive::error::{Codec, FormatError};
use twitter_archive::instant::Instant;

fn at(year: u32, month: u32, day: u32, hour: u32, minute: u32, second: u32, ms: u32) -> Instant {
    Instant::new(year, month, day, hour, minute, second, ms).unwrap()
}

fn mismatch(codec: Codec, text: &str) -> FormatError {
    FormatError::PatternMismatch { codec, text: text.to_string() }
}

#[test]
fn created_at_reads_the_documented_example() {
    let instant = created_at::deserialize("Sat Aug 12 16:10:37 +0000 2023").unwrap();
    assert_eq!(instant, at(2023, 8, 12, 16, 10, 37, 0));
    assert_eq!(created_at::serialize(&instant), "Sat Aug 12 16:10:37 +0000 2023");
}

#[test]
fn created_at_fields_are_those_of_the_text() {
    let instant = created_at::deserialize("Sat Aug 12 16:10:37 +0000 2023").unwrap();
    assert_eq!(instant.year(), 2023);
    assert_eq!(instant.month(), 8);
    assert_eq!(instant.day(), 12);
    assert_eq!(instant.hour(), 16);
    assert_eq!(instant.minute(), 10);
    assert_eq!(instant.second(), 37);
    assert_eq!(instant.millisecond(), 0);
}

#[test]
fn created_at_brings_a_western_offset_to_utc() {
    let instant = created_at::deserialize("Sat Aug 12 12:10:37 -0400 2023").unwrap();
    assert_eq!(instant, at(2023, 8, 12, 16, 10, 37, 0));
    assert_eq!(created_at::serialize(&instant), "Sat Aug 12 16:10:37 +0000 2023");
}

#[test]
fn created_at_brings_an_eastern_offset_to_utc() {
    let instant = created_at::deserialize("Sat Aug 12 21:40:37 +0530 2023").unwrap();
    assert_eq!(instant, at(2023, 8, 12, 16, 10, 37, 0));
}

#[test]
fn created_at_offset_can_change_the_day() {
    let later = created_at::deserialize("Sat Aug 12 23:30:00 -0100 2023").unwrap();
    assert_eq!(later, at(2023, 8, 13, 0, 30, 0, 0));
    assert_eq!(created_at::serialize(&later), "Sun Aug 13 00:30:00 +0000 2023");
    let earlier = created_at::deserialize("Sun Jan 01 00:30:00 +0100 2023").unwrap();
    assert_eq!(earlier, at(2022, 12, 31, 23, 30, 0, 0));
    assert_eq!(created_at::serialize(&earlier), "Sat Dec 31 23:30:00 +0000 2022");
}

#[test]
fn created_at_offset_can_reach_the_leap_day() {
    let instant = created_at::deserialize("Fri Mar 01 00:00:00 +0001 2024").unwrap();
    assert_eq!(instant, at(2024, 2, 29, 23, 59, 0, 0));
    assert_eq!(created_at::serialize(&instant), "Thu Feb 29 23:59:00 +0000 2024");
}

#[test]
fn created_at_takes_a_negative_zero_offset_and_writes_a_positive_one() {
    let instant = created_at::deserialize("Sat Aug 12 16:10:37 -0000 2023").unwrap();
    assert_eq!(instant, at(2023, 8, 12, 16, 10, 37, 0));
    assert_eq!(created_at::serialize(&instant), "Sat Aug 12 16:10:37 +0000 2023");
}

#[test]
fn created_at_leaves_the_milliseconds_out() {
    let instant = at(2023, 8, 12, 16, 10, 37, 999);
    let text = created_at::serialize(&instant);
    assert_eq!(text, "Sat Aug 12 16:10:37 +0000 2023");
    assert_eq!(created_at::deserialize(&text).unwrap(), at(2023, 8, 12, 16, 10, 37, 0));
}

#[test]
fn created_at_refuses_a_day_of_the_week_that_the_date_is_not() {
    let text = "Sun Aug 12 16:10:37 +0000 2023";
    assert_eq!(created_at::deserialize(text), Err(mismatch(Codec::CreatedAt, text)));
}

#[test]
fn created_at_refuses_what_is_not_in_the_layout() {
    for text in [
        "",
        "Sat Aug 12 16:10:37 +0000 202",
        "Sat Aug 12 16:10:37 +0000 20233",
        "sat Aug 12 16:10:37 +0000 2023",
        "SAT Aug 12 16:10:37 +0000 2023",
        "Sat aug 12 16:10:37 +0000 2023",
        "Sat Aug 12 16:10:37 0000+ 2023",
        "Sat Aug 12 16:10:37  0000 2023",
        "Sat Aug 12 16:10:37 Z0000 2023",
        "Sat Aug 12 16-10-37 +0000 2023",
        "Sat Aug 12T16:10:37 +0000 2023",
        "Sat Aug  2 16:10:37 +0000 2023",
        "Sat Aug 1x 16:10:37 +0000 2023",
        "Sat Aug 12 16:10:37 +00:00 023",
        "Sat Aug 12 16:10:37 +0000 2O23",
        "Sat,Aug 12 16:10:37 +0000 2023",
        "Sat Aug 12 16:10:37 +0000 2023 ",
        " Sat Aug 12 16:10:37 +0000 2023",
        "Sáb Aug 12 16:10:37 +0000 2023",
    ] {
        assert_eq!(created_at::deserialize(text), Err(mismatch(Codec::CreatedAt, text)), "{text}");
    }
}

#[test]
fn created_at_refuses_numbers_out_of_range() {
    for text in [
        "Thu Aug 32 16:10:37 +0000 2023",
        "Sat Aug 00 16:10:37 +0000 2023",
        "Wed Feb 29 16:10:37 +0000 2023",
        "Sat Aug 12 24:10:37 +0000 2023",
        "Sat Aug 12 16:60:37 +0000 2023",
        "Sat Aug 12 16:10:60 +0000 2023",
        "Sat Aug 12 16:10:37 +2400 2023",
        "Sat Aug 12 16:10:37 +0060 2023",
        "Sat Aug 12 16:10:37 -9959 2023",
    ] {
        assert_eq!(created_at::deserialize(text), Err(mismatch(Codec::CreatedAt, text)), "{text}");
    }
}

#[test]
fn created_at_refuses_an_instant_outside_the_years_of_four_digits() {
    let last = at(9999, 12, 31, 23, 30, 0, 0);
    let written = created_at::serialize(&last);
    assert_eq!(written, "Fri Dec 31 23:30:00 +0000 9999");
    assert_eq!(created_at::deserialize(&written), Ok(last));
    let beyond = "Fri Dec 31 23:30:00 -0100 9999";
    assert_eq!(created_at::deserialize(beyond), Err(mismatch(Codec::CreatedAt, beyond)));
    let first = at(0, 1, 1, 0, 30, 0, 0);
    let written = created_at::serialize(&first);
    assert_eq!(written, "Sat Jan 01 00:30:00 +0000 0000");
    assert_eq!(created_at::deserialize(&written), Ok(first));
    let before = "Sat Jan 01 00:30:00 +0100 0000";
    assert_eq!(created_at::deserialize(before), Err(mismatch(Codec::CreatedAt, before)));
}

#[test]
fn created_at_round_trips_every_day_of_a_leap_year_and_of_a_common_year() {
    for year in [2023u32, 2024] {
        for month in 1..=12u32 {
            for day in 1..=31u32 {
                if let Some(instant) = Instant::new(year, month, day, 7, 8, 9, 0) {
                    let text = created_at::serialize(&instant);
                    assert_eq!(text.chars().count(), 30);
                    assert_eq!(created_at::deserialize(&text), Ok(instant), "{text}");
                }
            }
        }
    }
}

#[test]
fn iso_8601_reads_and_writes_the_documented_example() {
    let text = "2023-08-30T23:20:03.000Z";
    let instant = date_time_iso_8601::deserialize(text).unwrap();
    assert_eq!(instant, at(2023, 8, 30, 23, 20, 3, 0));
    assert_eq!(date_time_iso_8601::serialize(&instant), text);
}

#[test]
fn iso_8601_keeps_the_milliseconds() {
    let text = "2020-01-20T21:42:09.068Z";
    let instant = date_time_iso_8601::deserialize(text).unwrap();
    assert_eq!(instant, at(2020, 1, 20, 21, 42, 9, 68));
    assert_eq!(date_time_iso_8601::serialize(&instant), text);
}

#[test]
fn iso_8601_always_writes_three_digits_and_a_z() {
    assert_eq!(date_time_iso_8601::serialize(&at(2023, 8, 12, 17, 10, 37, 0)), "2023-08-12T17:10:37.000Z");
    assert_eq!(date_time_iso_8601::serialize(&at(7, 1, 2, 3, 4, 5, 6)), "0007-01-02T03:04:05.006Z");
    assert_eq!(date_time_iso_8601::serialize(&at(9999, 12, 31, 23, 59, 59, 999)), "9999-12-31T23:59:59.999Z");
}

#[test]
fn iso_8601_takes_the_leap_day_only_in_a_leap_year() {
    assert_eq!(date_time_iso_8601::deserialize("2024-02-29T00:00:00.000Z"), Ok(at(2024, 2, 29, 0, 0, 0, 0)));
    assert_eq!(date_time_iso_8601::deserialize("2000-02-29T00:00:00.000Z"), Ok(at(2000, 2, 29, 0, 0, 0, 0)));
    for text in ["2023-02-29T00:00:00.000Z", "1900-02-29T00:00:00.000Z", "2100-02-29T00:00:00.000Z"] {
        assert_eq!(date_time_iso_8601::deserialize(text), Err(mismatch(Codec::DateTimeIso8601, text)));
    }
}

#[test]
fn iso_8601_refuses_what_is_not_in_the_layout() {
    for text in [
        "",
        "2023-08-30T23:20:03Z",
        "2023-08-30T23:20:03.00Z",
        "2023-08-30T23:20:03.0000Z",
        "2023-08-30T23:20:03.000z",
        "2023-08-30T23:20:03.000",
        "2023-08-30 23:20:03.000Z",
        "2023-08-30t23:20:03.000Z",
        "2023-8-30T23:20:03.000Z",
        "2023/08/30T23:20:03.000Z",
        "2023-08-30T23:20:03,000Z",
        "2023-08-30T23:20:03.000+00:00",
        "+023-08-30T23:20:03.000Z",
        "2023-08-30T23:20:03.000Z ",
        "2023-08-30T23:20:0３.000Z",
    ] {
        assert_eq!(date_time_iso_8601::deserialize(text), Err(mismatch(Codec::DateTimeIso8601, text)), "{text}");
    }
}

#[test]
fn iso_8601_refuses_numbers_out_of_range() {
    for text in [
        "2023-00-30T23:20:03.000Z",
        "2023-13-30T23:20:03.000Z",
        "2023-08-00T23:20:03.000Z",
        "2023-08-32T23:20:03.000Z",
        "2023-04-31T23:20:03.000Z",
        "2023-08-30T24:20:03.000Z",
        "2023-08-30T23:60:03.000Z",
        "2023-08-30T23:20:60.000Z",
    ] {
        assert_eq!(date_time_iso_8601::deserialize(text), Err(mismatch(Codec::DateTimeIso8601, text)), "{text}");
    }
}

#[test]
fn year_month_day_reads_and_writes_the_documented_example() {
    let text = "2021.10.20";
    let instant = date_year_month_day::deserialize(text).unwrap();
    assert_eq!(instant, at(2021, 10, 20, 0, 0, 0, 0));
    assert_eq!(date_year_month_day::serialize(&instant), text);
    assert_eq!(date_year_month_day::deserialize("2020.02.01"), Ok(at(2020, 2, 1, 0, 0, 0, 0)));
}

#[test]
fn year_month_day_writes_the_day_alone() {
    let instant = at(2021, 10, 20, 17, 0, 52, 123);
    let text = date_year_month_day::serialize(&instant);
    assert_eq!(text, "2021.10.20");
    assert_eq!(date_year_month_day::deserialize(&text), Ok(at(2021, 10, 20, 0, 0, 0, 0)));
}

#[test]
fn year_month_day_refuses_what_is_not_a_day() {
    for text in ["", "2021-10-20", "2021.10.2", "2021.1.20", "21.10.20", "2021.10.20 ", "2021.13.01", "2021.02.30", "2021.00.10", "2021.10.00", "2021.10.2O"] {
        assert_eq!(date_year_month_day::deserialize(text), Err(mismatch(Codec::DateYearMonthDay, text)), "{text}");
    }
}

#[test]
fn year_month_day_hour_minute_second_reads_and_writes_the_documented_example() {
    let text = "2023-06-05 17:00:52";
    let instant = date_year_month_day_hour_minute_second::deserialize(text).unwrap();
    assert_eq!(instant, at(2023, 6, 5, 17, 0, 52, 0));
    assert_eq!(date_year_month_day_hour_minute_second::serialize(&instant), text);
    assert_eq!(
        date_year_month_day_hour_minute_second::deserialize("2021-10-20 17:00:52"),
        Ok(at(2021, 10, 20, 17, 0, 52, 0))
    );
}

#[test]
fn year_month_day_hour_minute_second_leaves_the_milliseconds_out() {
    let text = date_year_month_day_hour_minute_second::serialize(&at(2023, 6, 5, 17, 0, 52, 7));
    assert_eq!(text, "2023-06-05 17:00:52");
}

#[test]
fn year_month_day_hour_minute_second_refuses_what_is_not_in_the_layout() {
    for text in [
        "",
        "2023-06-05T17:00:52",
        "2023-06-05 17:00",
        "2023-06-05 17:00:52.000",
        "2023-06-05  17:00:52",
        "2023-06-31 17:00:52",
        "2023-06-05 24:00:52",
        "2023-06-05 17:60:52",
        "2023-06-05 17:00:60",
        "2023.06.05 17:00:52",
    ] {
        assert_eq!(
            date_year_month_day_hour_minute_second::deserialize(text),
            Err(mismatch(Codec::DateYearMonthDayHourMinuteSecond, text)),
            "{text}"
        );
    }
}

#[test]
fn number_reads_and_writes_the_documented_example() {
    assert_eq!(number_like_string::deserialize("68419"), Ok(68419));
    assert_eq!(number_like_string::serialize(&68419), "68419");
    assert_eq!(number_like_string::deserialize("5"), Ok(5));
}

#[test]
fn number_with_leading_zeros_is_written_without_them() {
    let number = number_like_string::deserialize("007").unwrap();
    assert_eq!(number, 7);
    assert_eq!(number_like_string::serialize(&number), "7");
    assert_ne!(number_like_string::serialize(&number), "007");
}

#[test]
fn number_zero_is_one_digit() {
    assert_eq!(number_like_string::serialize(&0), "0");
    assert_eq!(number_like_string::deserialize("0"), Ok(0));
    assert_eq!(number_like_string::deserialize("0000"), Ok(0));
}

#[test]
fn number_reaches_the_width_of_the_integer_and_no_further() {
    assert_eq!(number_like_string::deserialize("18446744073709551615"), Ok(u64::MAX));
    assert_eq!(number_like_string::serialize(&u64::MAX), "18446744073709551615");
    assert_eq!(number_like_string::deserialize("00018446744073709551615"), Ok(u64::MAX));
    for text in ["18446744073709551616", "18446744073709551620", "99999999999999999999", "184467440737095516150"] {
        assert_eq!(number_like_string::deserialize(text), Err(mismatch(Codec::NumberLikeString, text)), "{text}");
    }
}

#[test]
fn number_refuses_what_is_not_all_digits() {
    for text in ["", "+5", "-5", "5 ", " 5", "12a", "1_000", "1,000", "1.0", "0x10", "٣", "１２"] {
        assert_eq!(number_like_string::deserialize(text), Err(mismatch(Codec::NumberLikeString, text)), "{text}");
    }
}

#[test]
fn number_round_trips() {
    for number in [0u64, 1, 9, 10, 11, 99, 100, 101, 12345, 1_000_000, 3333333333333333333, u64::MAX - 1, u64::MAX] {
        let text = number_like_string::serialize(&number);
        assert_eq!(text, number.to_string());
        assert_eq!(number_like_string::deserialize(&text), Ok(number));
    }
}

fn strings(values: &[&str]) -> Vec<String> {
    values.iter().map(|s| s.to_string()).collect()
}

#[test]
fn indices_reads_and_writes_the_documented_example() {
    assert_eq!(indices::deserialize(&strings(&["68", "419"])), Ok([68, 419]));
    assert_eq!(indices::serialize(&[68, 419]), strings(&["68", "419"]));
}

#[test]
fn indices_checks_the_length() {
    assert_eq!(
        indices::deserialize(&strings(&["1"])),
        Err(FormatError::LengthMismatch { name: "indices".to_string(), wanted: 2, found: 1 })
    );
    assert_eq!(
        indices::deserialize(&strings(&["1", "2", "3"])),
        Err(FormatError::LengthMismatch { name: "indices".to_string(), wanted: 2, found: 3 })
    );
    assert_eq!(
        indices::deserialize(&strings(&[])),
        Err(FormatError::LengthMismatch { name: "indices".to_string(), wanted: 2, found: 0 })
    );
    assert_eq!(indices::deserialize(&strings(&["1", "2"])), Ok([1, 2]));
}

#[test]
fn indices_checks_the_length_before_the_numbers() {
    assert_eq!(
        indices::deserialize(&strings(&["x", "2", "3"])),
        Err(FormatError::LengthMismatch { name: "indices".to_string(), wanted: 2, found: 3 })
    );
}

#[test]
fn indices_refuses_the_first_text_that_is_no_number() {
    assert_eq!(indices::deserialize(&strings(&["a", "b"])), Err(mismatch(Codec::NumberLikeString, "a")));
    assert_eq!(indices::deserialize(&strings(&["1", "-2"])), Err(mismatch(Codec::NumberLikeString, "-2")));
}

#[test]
fn indices_asks_no_order_of_the_two() {
    assert_eq!(indices::deserialize(&strings(&["419", "68"])), Ok([419, 68]));
    assert_eq!(indices::deserialize(&strings(&["0", "0"])), Ok([0, 0]));
}

#[test]
fn indices_round_trip() {
    for pair in [[0u64, 0], [0, 1], [68, 419], [u64::MAX, 0]] {
        assert_eq!(indices::deserialize(&indices::serialize(&pair)), Ok(pair));
    }
}
