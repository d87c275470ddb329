//! Fixed-width numbers at fixed places of a text: the pieces that the
//! date layouts are made of.

use vstd::prelude::*;
use vstd::string::*;
use crate::error::{Codec, FormatError, FormatErrorModel};
use crate::text::{
    all_digits, digits_value, fixed_text, lemma_digits_value_bound, lemma_fixed_text,
    lemma_fixed_text_of_value, pow10, read_digits,
};

verus! {

/// The `width` characters of `text` from `from` on are digits.
pub open spec fn has_number_at(text: Seq<char>, from: int, width: int) -> bool
    recommends
        0 <= from,
        0 <= width,
        from + width <= text.len(),
{
    all_digits(text.subrange(from, from + width))
}

/// The number that the `width` characters of `text` from `from` on write.
pub open spec fn number_at(text: Seq<char>, from: int, width: int) -> nat
    recommends
        0 <= from,
        0 <= width,
        from + width <= text.len(),
{
    digits_value(text.subrange(from, from + width))
}

/// Powers of ten up to the fourth, the widest field of the layouts.
pub proof fn lemma_pow10_small()
    ensures
        pow10(0) == 1,
        pow10(1) == 10,
        pow10(2) == 100,
        pow10(3) == 1000,
        pow10(4) == 10000,
{
    assert(pow10(0) == 1);
    assert(pow10(1) == 10);
    assert(pow10(2) == 100);
    assert(pow10(3) == 1000);
    assert(pow10(4) == 10000);
}

/// A text that holds the fixed-width text of `n` at `from` has a number
/// there, and the number is `n`.
pub proof fn lemma_number_written(text: Seq<char>, from: int, width: int, n: int)
    requires
        0 <= from,
        0 <= width <= 4,
        from + width <= text.len(),
        0 <= n < pow10(width as nat),
        text.subrange(from, from + width) == fixed_text(n as nat, width as nat),
    ensures
        has_number_at(text, from, width),
        number_at(text, from, width) == n,
{
    lemma_fixed_text(n as nat, width as nat);
}

/// Where a text has a number, it holds the fixed-width text of that
/// number.
pub proof fn lemma_number_read(text: Seq<char>, from: int, width: int)
    requires
        0 <= from,
        0 <= width,
        from + width <= text.len(),
        has_number_at(text, from, width),
    ensures
        text.subrange(from, from + width) == fixed_text(
            number_at(text, from, width),
            width as nat,
        ),
        number_at(text, from, width) < pow10(width as nat),
{
    lemma_fixed_text_of_value(text.subrange(from, from + width));
    lemma_digits_value_bound(text.subrange(from, from + width));
}

/// Reads the number of `width` digits at `from`, if there is one.
pub fn read_field(chars: &Vec<char>, from: usize, width: usize) -> (r: Option<u32>)
    requires
        width <= 4,
        from + width <= chars@.len(),
    ensures
        r.is_some() == has_number_at(chars@, from as int, width as int),
        r matches Some(v) ==> v == number_at(chars@, from as int, width as int) && v < pow10(
            width as nat,
        ),
{
    proof {
        lemma_pow10_small();
        if all_digits(chars@.subrange(from as int, from + width)) {
            lemma_digits_value_bound(chars@.subrange(from as int, from + width));
        }
    }
    let n: usize = chars.len();
    assert(from + width <= n);
    match read_digits(chars, from, from + width) {
        Some(v) => Some(v as u32),
        None => None,
    }
}

/// The error of a text that is not in the layout of `codec`.
pub fn mismatch(codec: Codec, value: &str) -> (e: FormatError)
    ensures
        e@ == (FormatErrorModel::PatternMismatch { codec, text: value@ }),
{
    FormatError::PatternMismatch { codec, text: String::from_str(value) }
}

} // verus!
