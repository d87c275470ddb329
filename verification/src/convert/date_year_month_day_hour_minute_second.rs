//! A date and time to the second, written as in
//! `"impressionTime": "2023-06-05 17:00:52"`, in UTC. What is written of
//! an instant leaves its milliseconds out.

use vstd::prelude::*;
use vstd::string::*;
use crate::error::{Codec, FormatError, FormatErrorModel};
use crate::instant::{Civil, Instant};
use crate::layout::{
    has_number_at, lemma_number_read, lemma_number_written, lemma_pow10_small, mismatch,
    number_at, read_field,
};
use crate::text::{chars_of, fixed_text, lemma_fixed_text, push_fixed};

verus! {

/// `text` has the 19 characters of the layout, digits where numbers stand
/// and the separators between them.
pub open spec fn is_layout(text: Seq<char>) -> bool {
    &&& text.len() == 19
    &&& has_number_at(text, 0, 4)
    &&& text[4] == '-'
    &&& has_number_at(text, 5, 2)
    &&& text[7] == '-'
    &&& has_number_at(text, 8, 2)
    &&& text[10] == ' '
    &&& has_number_at(text, 11, 2)
    &&& text[13] == ':'
    &&& has_number_at(text, 14, 2)
    &&& text[16] == ':'
    &&& has_number_at(text, 17, 2)
}

/// The numbers that stand in a text of the layout.
pub open spec fn fields(text: Seq<char>) -> Civil {
    Civil {
        year: number_at(text, 0, 4) as int,
        month: number_at(text, 5, 2) as int,
        day: number_at(text, 8, 2) as int,
        hour: number_at(text, 11, 2) as int,
        minute: number_at(text, 14, 2) as int,
        second: number_at(text, 17, 2) as int,
        millisecond: 0,
    }
}

/// The instant that `text` writes: `text` is in the layout, and its
/// numbers name a day that exists and a time of day.
#[verifier::opaque]
pub open spec fn decoded(text: Seq<char>) -> Option<Civil> {
    if is_layout(text) && fields(text).is_valid() {
        Some(fields(text))
    } else {
        None
    }
}

/// The text of an instant, to the second.
#[verifier::opaque]
pub open spec fn encoded(at: Civil) -> Seq<char> {
    fixed_text(at.year as nat, 4) + seq!['-'] + fixed_text(at.month as nat, 2) + seq!['-']
        + fixed_text(at.day as nat, 2) + seq![' '] + fixed_text(at.hour as nat, 2) + seq![':']
        + fixed_text(at.minute as nat, 2) + seq![':'] + fixed_text(at.second as nat, 2)
}

/// Reads an instant from its text.
pub fn deserialize(value: &str) -> (r: Result<Instant, FormatError>)
    ensures
        match r {
            Ok(instant) => decoded(value@) == Some(instant@),
            Err(e) => decoded(value@).is_none() && e@ == (FormatErrorModel::PatternMismatch {
                codec: Codec::DateYearMonthDayHourMinuteSecond,
                text: value@,
            }),
        },
{
    proof {
        reveal(decoded);
    }
    let chars = chars_of(value);
    if chars.len() != 19 {
        return Err(mismatch(Codec::DateYearMonthDayHourMinuteSecond, value));
    }
    if chars[4] != '-' || chars[7] != '-' || chars[10] != ' ' || chars[13] != ':' || chars[16]
        != ':' {
        return Err(mismatch(Codec::DateYearMonthDayHourMinuteSecond, value));
    }
    let year = read_field(&chars, 0, 4);
    let month = read_field(&chars, 5, 2);
    let day = read_field(&chars, 8, 2);
    let hour = read_field(&chars, 11, 2);
    let minute = read_field(&chars, 14, 2);
    let second = read_field(&chars, 17, 2);
    match (year, month, day, hour, minute, second) {
        (Some(year), Some(month), Some(day), Some(hour), Some(minute), Some(second)) => {
            match Instant::new(year, month, day, hour, minute, second, 0) {
                Some(instant) => Ok(instant),
                None => Err(mismatch(Codec::DateYearMonthDayHourMinuteSecond, value)),
            }
        },
        _ => Err(mismatch(Codec::DateYearMonthDayHourMinuteSecond, value)),
    }
}

/// Writes an instant as its text, to the second.
pub fn serialize(date: &Instant) -> (r: String)
    ensures
        r@ == encoded(date@),
{
    let mut out = String::new();
    push_fixed(&mut out, date.year(), 4);
    out.append("-");
    push_fixed(&mut out, date.month(), 2);
    out.append("-");
    push_fixed(&mut out, date.day(), 2);
    out.append(" ");
    push_fixed(&mut out, date.hour(), 2);
    out.append(":");
    push_fixed(&mut out, date.minute(), 2);
    out.append(":");
    push_fixed(&mut out, date.second(), 2);
    proof {
        reveal(encoded);
        reveal_strlit("-");
        reveal_strlit(" ");
        reveal_strlit(":");
        assert("-"@ =~= seq!['-']);
        assert(" "@ =~= seq![' ']);
        assert(":"@ =~= seq![':']);
        assert(Seq::<char>::empty() + fixed_text(date@.year as nat, 4) =~= fixed_text(
            date@.year as nat,
            4,
        ));
    }
    out
}

/// What comes back from the text of an instant is the instant without its
/// milliseconds: the instant itself, where it has none.
pub proof fn instant_round_trip(at: Civil)
    requires
        at.is_valid(),
    ensures
        decoded(encoded(at)) == Some(at.whole_second()),
        at == at.whole_second() ==> decoded(encoded(at)) == Some(at),
{
    reveal(decoded);
    reveal(encoded);
    let text = encoded(at);
    lemma_pow10_small();
    lemma_fixed_text(at.year as nat, 4);
    lemma_fixed_text(at.month as nat, 2);
    lemma_fixed_text(at.day as nat, 2);
    lemma_fixed_text(at.hour as nat, 2);
    lemma_fixed_text(at.minute as nat, 2);
    lemma_fixed_text(at.second as nat, 2);
    assert(text.len() == 19);
    assert(text.subrange(0, 4) =~= fixed_text(at.year as nat, 4));
    assert(text.subrange(5, 7) =~= fixed_text(at.month as nat, 2));
    assert(text.subrange(8, 10) =~= fixed_text(at.day as nat, 2));
    assert(text.subrange(11, 13) =~= fixed_text(at.hour as nat, 2));
    assert(text.subrange(14, 16) =~= fixed_text(at.minute as nat, 2));
    assert(text.subrange(17, 19) =~= fixed_text(at.second as nat, 2));
    lemma_number_written(text, 0, 4, at.year);
    lemma_number_written(text, 5, 2, at.month);
    lemma_number_written(text, 8, 2, at.day);
    lemma_number_written(text, 11, 2, at.hour);
    lemma_number_written(text, 14, 2, at.minute);
    lemma_number_written(text, 17, 2, at.second);
    assert(fields(text) == at.whole_second());
}

/// Every text that decodes comes back, character for character, from the
/// instant that it writes, which is an instant without milliseconds.
pub proof fn text_round_trip(text: Seq<char>)
    requires
        decoded(text).is_some(),
    ensures
        encoded(decoded(text).unwrap()) == text,
        decoded(text).unwrap().is_valid(),
        decoded(text).unwrap() == decoded(text).unwrap().whole_second(),
{
    reveal(decoded);
    reveal(encoded);
    lemma_number_read(text, 0, 4);
    lemma_number_read(text, 5, 2);
    lemma_number_read(text, 8, 2);
    lemma_number_read(text, 11, 2);
    lemma_number_read(text, 14, 2);
    lemma_number_read(text, 17, 2);
    lemma_fixed_text(number_at(text, 0, 4), 4);
    lemma_fixed_text(number_at(text, 5, 2), 2);
    lemma_fixed_text(number_at(text, 8, 2), 2);
    lemma_fixed_text(number_at(text, 11, 2), 2);
    lemma_fixed_text(number_at(text, 14, 2), 2);
    lemma_fixed_text(number_at(text, 17, 2), 2);
    assert(encoded(fields(text)) =~= text);
}

} // verus!
