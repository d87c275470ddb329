//! Typed values for the records of a Twitter data export, and the codecs
//! that turn their textual encodings into those values and back.
//!
//! The export writes dates in four fixed layouts, numbers as strings of
//! digits, and ranges as arrays of two such strings. [`convert`] has one
//! codec for each, and states of each that what it writes is read back,
//! and that a canonical text is written again character for character.
//!
//! Records are read from and written to [`json::Json`] values. Every
//! element of a file of the export is an [`envelope`]; a list may hold
//! [`events`] of several variants, which are told apart by their shapes in
//! a fixed order of priority; and [`structs`] has the records themselves,
//! each a [`record::Record`].

pub mod calendar;
pub mod convert;
pub mod envelope;
pub mod error;
pub mod events;
pub mod instant;
pub mod json;
pub mod layout;
pub mod record;
pub mod structs;
pub mod text;
