//! The codecs: one module for each textual encoding, each with a
//! `deserialize` that reads it and a `serialize` that writes it.

pub mod created_at;
pub mod date_time_iso_8601;
pub mod date_year_month_day;
pub mod date_year_month_day_hour_minute_second;
pub mod indices;
pub mod number_like_string;
