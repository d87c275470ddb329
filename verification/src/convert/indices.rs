//! A pair of offsets into a text, written as an array of two numbers in
//! strings, as in `"indices": ["68", "419"]`.

use vstd::prelude::*;
use vstd::string::*;
use crate::convert::number_like_string;
use crate::error::{Codec, FormatError, FormatErrorModel};
use crate::text::texts;

verus! {

/// The pair that `values` writes: there are exactly two of them, and each
/// is the text of a number.
pub open spec fn decoded(values: Seq<Seq<char>>) -> Option<(u64, u64)> {
    if values.len() == 2 && number_like_string::decoded(values[0]).is_some()
        && number_like_string::decoded(values[1]).is_some() {
        Some(
            (
                number_like_string::decoded(values[0]).unwrap(),
                number_like_string::decoded(values[1]).unwrap(),
            ),
        )
    } else {
        None
    }
}

/// The two texts of a pair, the start first.
pub open spec fn encoded(pair: (u64, u64)) -> Seq<Seq<char>> {
    seq![number_like_string::encoded(pair.0), number_like_string::encoded(pair.1)]
}

/// The error that `values` is refused with: the length comes first, then
/// the first of the two texts that is no number.
pub open spec fn refusal(values: Seq<Seq<char>>) -> FormatErrorModel {
    if values.len() != 2 {
        FormatErrorModel::LengthMismatch { name: "indices"@, wanted: 2, found: values.len() }
    } else if number_like_string::decoded(values[0]).is_none() {
        FormatErrorModel::PatternMismatch { codec: Codec::NumberLikeString, text: values[0] }
    } else {
        FormatErrorModel::PatternMismatch { codec: Codec::NumberLikeString, text: values[1] }
    }
}

/// Reads a pair of offsets from an array of two numbers in strings. No
/// order is asked of the two.
pub fn deserialize(seq: &Vec<String>) -> (r: Result<[u64; 2], FormatError>)
    ensures
        match r {
            Ok(pair) => decoded(texts(seq@)) == Some((pair[0], pair[1])),
            Err(e) => decoded(texts(seq@)).is_none() && e@ == refusal(texts(seq@)),
        },
{
    if seq.len() != 2 {
        return Err(
            FormatError::LengthMismatch {
                name: String::from_str("indices"),
                wanted: 2,
                found: seq.len(),
            },
        );
    }
    let start: u64 = match number_like_string::deserialize(seq[0].as_str()) {
        Ok(n) => n,
        Err(e) => {
            return Err(e);
        },
    };
    let end: u64 = match number_like_string::deserialize(seq[1].as_str()) {
        Ok(n) => n,
        Err(e) => {
            return Err(e);
        },
    };
    Ok([start, end])
}

/// Writes a pair of offsets as an array of two numbers in strings.
pub fn serialize(indices: &[u64; 2]) -> (r: Vec<String>)
    ensures
        texts(r@) == encoded((indices[0], indices[1])),
{
    let mut out: Vec<String> = Vec::new();
    out.push(number_like_string::serialize(&indices[0]));
    out.push(number_like_string::serialize(&indices[1]));
    proof {
        assert(texts(out@) =~= encoded((indices[0], indices[1])));
    }
    out
}

/// Every pair comes back from its own two texts.
pub proof fn pair_round_trip(pair: (u64, u64))
    ensures
        decoded(encoded(pair)) == Some(pair),
{
    number_like_string::number_round_trip(pair.0);
    number_like_string::number_round_trip(pair.1);
}

/// Two canonical texts come back, character for character, from the pair
/// that they write.
pub proof fn texts_round_trip(values: Seq<Seq<char>>)
    requires
        values.len() == 2,
        number_like_string::is_canonical(values[0]),
        number_like_string::is_canonical(values[1]),
    ensures
        decoded(values).is_some(),
        encoded(decoded(values).unwrap()) == values,
{
    number_like_string::text_round_trip(values[0]);
    number_like_string::text_round_trip(values[1]);
    assert(encoded(decoded(values).unwrap()) =~= values);
}

/// Only a sequence of exactly two texts is decoded.
pub proof fn length_is_checked(values: Seq<Seq<char>>)
    requires
        values.len() != 2,
    ensures
        decoded(values).is_none(),
        refusal(values) == (FormatErrorModel::LengthMismatch {
            name: "indices"@,
            wanted: 2,
            found: values.len(),
        }),
{
}

} // verus!
