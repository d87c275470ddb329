//! The one error type of the codecs.

use vstd::prelude::*;

verus! {

/// The scalar and compound codecs, by the module that holds each.
#[derive(Clone, Copy, Debug, PartialEq, Eq, Structural)]
pub enum Codec {
    /// `Sat Aug 12 16:10:37 +0000 2023`
    CreatedAt,
    /// `2023-08-30T23:20:03.000Z`
    DateTimeIso8601,
    /// `2021.10.20`
    DateYearMonthDay,
    /// `2023-06-05 17:00:52`
    DateYearMonthDayHourMinuteSecond,
    /// `"68419"`
    NumberLikeString,
    /// `["68", "419"]`
    Indices,
}

/// Why a value could not be decoded.
#[derive(Clone, Debug, PartialEq, Eq)]
pub enum FormatError {
    /// The value is of the wrong JSON kind, or lacks what was expected of
    /// it; `expected` names the key or the kind that was looked for.
    ShapeMismatch { expected: String },
    /// `text` is not written in the fixed layout of `codec`.
    PatternMismatch { codec: Codec, text: String },
    /// A sequence held `found` elements where `name` takes `wanted`.
    LengthMismatch { name: String, wanted: usize, found: usize },
    /// The element at `index` of a list has the shape of none of the
    /// variants in `attempted`, which are in the order they were tried.
    NoVariantMatched { index: usize, attempted: Vec<String> },
}

/// What a `FormatError` says, over plain sequences.
pub enum FormatErrorModel {
    ShapeMismatch { expected: Seq<char> },
    PatternMismatch { codec: Codec, text: Seq<char> },
    LengthMismatch { name: Seq<char>, wanted: nat, found: nat },
    NoVariantMatched { index: nat, attempted: Seq<Seq<char>> },
}

impl View for FormatError {
    type V = FormatErrorModel;

    open spec fn view(&self) -> FormatErrorModel {
        match self {
            FormatError::ShapeMismatch { expected } => FormatErrorModel::ShapeMismatch {
                expected: expected@,
            },
            FormatError::PatternMismatch { codec, text } => FormatErrorModel::PatternMismatch {
                codec: *codec,
                text: text@,
            },
            FormatError::LengthMismatch { name, wanted, found } => {
                FormatErrorModel::LengthMismatch {
                    name: name@,
                    wanted: *wanted as nat,
                    found: *found as nat,
                }
            },
            FormatError::NoVariantMatched { index, attempted } => {
                FormatErrorModel::NoVariantMatched {
                    index: *index as nat,
                    attempted: attempted@.map_values(|s: String| s@),
                }
            },
        }
    }
}

} // verus!
