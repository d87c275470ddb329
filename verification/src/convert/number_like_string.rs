//! An unsigned number written as a string of decimal digits, as in
//! `"editsRemaining": "5"`.

use vstd::prelude::*;
use vstd::string::*;
use crate::error::{Codec, FormatError, FormatErrorModel};
use crate::text::{
    all_digits, chars_of, decimal_text, digits_value, is_minimal_decimal, lemma_decimal_text,
    lemma_decimal_text_of_value, push_decimal, read_digits,
};

verus! {

/// The number that `text` writes: `text` is one or more decimal digits,
/// with no sign and nothing else, and what they write fits in 64 bits.
/// Leading zeros are read and count for nothing.
pub open spec fn decoded(text: Seq<char>) -> Option<u64> {
    if text.len() > 0 && all_digits(text) && digits_value(text) <= u64::MAX {
        Some(digits_value(text) as u64)
    } else {
        None
    }
}

/// The text of `value`: its decimal digits, with no leading zero.
pub open spec fn encoded(value: u64) -> Seq<char> {
    decimal_text(value as nat)
}

/// A text is canonical when it is the shortest that writes its number.
pub open spec fn is_canonical(text: Seq<char>) -> bool {
    decoded(text).is_some() && is_minimal_decimal(text)
}

/// Reads a number from its digits.
pub fn deserialize(value: &str) -> (r: Result<u64, FormatError>)
    ensures
        match r {
            Ok(number) => decoded(value@) == Some(number),
            Err(e) => decoded(value@).is_none() && e@ == (FormatErrorModel::PatternMismatch {
                codec: Codec::NumberLikeString,
                text: value@,
            }),
        },
{
    let chars = chars_of(value);
    let n: usize = chars.len();
    proof {
        assert(chars@.subrange(0, n as int) =~= value@);
    }
    if n > 0 {
        if let Some(number) = read_digits(&chars, 0, n) {
            return Ok(number);
        }
    }
    Err(FormatError::PatternMismatch { codec: Codec::NumberLikeString, text: String::from_str(value) })
}

/// Writes a number as its digits.
pub fn serialize(value: &u64) -> (r: String)
    ensures
        r@ == encoded(*value),
{
    let mut out = String::new();
    push_decimal(&mut out, *value);
    proof {
        assert(Seq::<char>::empty() + decimal_text(*value as nat) =~= decimal_text(*value as nat));
    }
    out
}

/// Every number comes back from its own text.
pub proof fn number_round_trip(value: u64)
    ensures
        decoded(encoded(value)) == Some(value),
        is_canonical(encoded(value)),
{
    lemma_decimal_text(value as nat);
}

/// A canonical text comes back, character for character, from the number
/// that it writes.
pub proof fn text_round_trip(text: Seq<char>)
    requires
        is_canonical(text),
    ensures
        encoded(decoded(text).unwrap()) == text,
{
    lemma_decimal_text_of_value(text);
}

/// A text that decodes and is not canonical (it has a leading zero and
/// more digits) does not come back: what is written in its place is the
/// canonical text of the same number.
pub proof fn padded_text_changes(text: Seq<char>)
    requires
        decoded(text).is_some(),
        !is_canonical(text),
    ensures
        encoded(decoded(text).unwrap()) != text,
        is_canonical(encoded(decoded(text).unwrap())),
        decoded(encoded(decoded(text).unwrap())) == decoded(text),
{
    lemma_decimal_text(digits_value(text));
}

} // verus!
