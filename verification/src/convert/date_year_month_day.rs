//! A day, written as in `"createdDate": "2020.02.01"`. The instant that is
//! read is the midnight that begins the day, in UTC; what is written of an
//! instant is its day alone.

use vstd::prelude::*;
use vstd::string::*;
use crate::error::{Codec, FormatError, FormatErrorModel};
use crate::instant::{Civil, Instant};
use crate::layout::{
    has_number_at, lemma_number_read, lemma_number_written, lemma_pow10_small, mismatch,
    number_at, read_field,
};
use crate::text::{chars_of, fixed_text, lemma_fixed_text, push_fixed};

verus! {

/// `text` has the 10 characters of the layout, digits where numbers stand
/// and a point between them.
pub open spec fn is_layout(text: Seq<char>) -> bool {
    &&& text.len() == 10
    &&& has_number_at(text, 0, 4)
    &&& text[4] == '.'
    &&& has_number_at(text, 5, 2)
    &&& text[7] == '.'
    &&& has_number_at(text, 8, 2)
}

/// The day that stands in a text of the layout, at midnight.
pub open spec fn fields(text: Seq<char>) -> Civil {
    Civil {
        year: number_at(text, 0, 4) as int,
        month: number_at(text, 5, 2) as int,
        day: number_at(text, 8, 2) as int,
        hour: 0,
        minute: 0,
        second: 0,
        millisecond: 0,
    }
}

/// The instant that `text` writes: `text` is in the layout, and its
/// numbers name a day that exists.
#[verifier::opaque]
pub open spec fn decoded(text: Seq<char>) -> Option<Civil> {
    if is_layout(text) && fields(text).is_valid() {
        Some(fields(text))
    } else {
        None
    }
}

/// The text of the day of an instant.
#[verifier::opaque]
pub open spec fn encoded(at: Civil) -> Seq<char> {
    fixed_text(at.year as nat, 4) + seq!['.'] + fixed_text(at.month as nat, 2) + seq!['.']
        + fixed_text(at.day as nat, 2)
}

/// Reads the midnight of a day from the day's text.
pub fn deserialize(value: &str) -> (r: Result<Instant, FormatError>)
    ensures
        match r {
            Ok(instant) => decoded(value@) == Some(instant@),
            Err(e) => decoded(value@).is_none() && e@ == (FormatErrorModel::PatternMismatch {
                codec: Codec::DateYearMonthDay,
                text: value@,
            }),
        },
{
    proof {
        reveal(decoded);
    }
    let chars = chars_of(value);
    if chars.len() != 10 {
        return Err(mismatch(Codec::DateYearMonthDay, value));
    }
    if chars[4] != '.' || chars[7] != '.' {
        return Err(mismatch(Codec::DateYearMonthDay, value));
    }
    let year = read_field(&chars, 0, 4);
    let month = read_field(&chars, 5, 2);
    let day = read_field(&chars, 8, 2);
    match (year, month, day) {
        (Some(year), Some(month), Some(day)) => {
            match Instant::new(year, month, day, 0, 0, 0, 0) {
                Some(instant) => Ok(instant),
                None => Err(mismatch(Codec::DateYearMonthDay, value)),
            }
        },
        _ => Err(mismatch(Codec::DateYearMonthDay, value)),
    }
}

/// Writes the day of an instant.
pub fn serialize(date: &Instant) -> (r: String)
    ensures
        r@ == encoded(date@),
{
    let mut out = String::new();
    push_fixed(&mut out, date.year(), 4);
    out.append(".");
    push_fixed(&mut out, date.month(), 2);
    out.append(".");
    push_fixed(&mut out, date.day(), 2);
    proof {
        reveal(encoded);
        reveal_strlit(".");
        assert("."@ =~= seq!['.']);
        assert(Seq::<char>::empty() + fixed_text(date@.year as nat, 4) =~= fixed_text(
            date@.year as nat,
            4,
        ));
    }
    out
}

/// What comes back from the text of an instant is the midnight of its day:
/// the instant itself, where it is a midnight.
pub proof fn instant_round_trip(at: Civil)
    requires
        at.is_valid(),
    ensures
        decoded(encoded(at)) == Some(at.date_only()),
        at == at.date_only() ==> decoded(encoded(at)) == Some(at),
{
    reveal(decoded);
    reveal(encoded);
    let text = encoded(at);
    lemma_pow10_small();
    lemma_fixed_text(at.year as nat, 4);
    lemma_fixed_text(at.month as nat, 2);
    lemma_fixed_text(at.day as nat, 2);
    assert(text.len() == 10);
    assert(text.subrange(0, 4) =~= fixed_text(at.year as nat, 4));
    assert(text.subrange(5, 7) =~= fixed_text(at.month as nat, 2));
    assert(text.subrange(8, 10) =~= fixed_text(at.day as nat, 2));
    lemma_number_written(text, 0, 4, at.year);
    lemma_number_written(text, 5, 2, at.month);
    lemma_number_written(text, 8, 2, at.day);
    assert(fields(text) == at.date_only());
}

/// Every text that decodes comes back, character for character, from the
/// instant that it writes, which is the midnight of a day.
pub proof fn text_round_trip(text: Seq<char>)
    requires
        decoded(text).is_some(),
    ensures
        encoded(decoded(text).unwrap()) == text,
        decoded(text).unwrap().is_valid(),
        decoded(text).unwrap() == decoded(text).unwrap().date_only(),
{
    reveal(decoded);
    reveal(encoded);
    lemma_number_read(text, 0, 4);
    lemma_number_read(text, 5, 2);
    lemma_number_read(text, 8, 2);
    lemma_fixed_text(number_at(text, 0, 4), 4);
    lemma_fixed_text(number_at(text, 5, 2), 2);
    lemma_fixed_text(number_at(text, 8, 2), 2);
    assert(encoded(fields(text)) =~= text);
}

} // verus!
