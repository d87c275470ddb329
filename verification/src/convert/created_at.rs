//! A date and time with the day of the week and an offset from UTC,
//! written as in `"created_at": "Sat Aug 12 16:10:37 +0000 2023"`. The
//! instant that is read is in UTC; what is written is always at the offset
//! `+0000`.

use vstd::prelude::*;
use vstd::string::*;
use crate::calendar::{check_date, day_of_week, local_to_utc, utc_of_local, weekday};
use crate::error::{Codec, FormatError, FormatErrorModel};
use crate::instant::{Civil, Instant};
use crate::layout::{
    has_number_at, lemma_number_read, lemma_number_written, lemma_pow10_small, mismatch,
    number_at, read_field,
};
use crate::text::{chars_of, fixed_text, lemma_fixed_text, push_fixed};

verus! {

/// The name of a day of the week, counted in days since Monday.
pub open spec fn weekday_name(day: int) -> Seq<char> {
    if day == 0 {
        "Mon"@
    } else if day == 1 {
        "Tue"@
    } else if day == 2 {
        "Wed"@
    } else if day == 3 {
        "Thu"@
    } else if day == 4 {
        "Fri"@
    } else if day == 5 {
        "Sat"@
    } else {
        "Sun"@
    }
}

/// The day of the week that `name` names, in days since Monday.
pub open spec fn weekday_named(name: Seq<char>) -> Option<int> {
    if name == "Mon"@ {
        Some(0)
    } else if name == "Tue"@ {
        Some(1)
    } else if name == "Wed"@ {
        Some(2)
    } else if name == "Thu"@ {
        Some(3)
    } else if name == "Fri"@ {
        Some(4)
    } else if name == "Sat"@ {
        Some(5)
    } else if name == "Sun"@ {
        Some(6)
    } else {
        None
    }
}

/// The name of a month, January being the first.
pub open spec fn month_name(month: int) -> Seq<char> {
    if month == 1 {
        "Jan"@
    } else if month == 2 {
        "Feb"@
    } else if month == 3 {
        "Mar"@
    } else if month == 4 {
        "Apr"@
    } else if month == 5 {
        "May"@
    } else if month == 6 {
        "Jun"@
    } else if month == 7 {
        "Jul"@
    } else if month == 8 {
        "Aug"@
    } else if month == 9 {
        "Sep"@
    } else if month == 10 {
        "Oct"@
    } else if month == 11 {
        "Nov"@
    } else {
        "Dec"@
    }
}

/// The month that `name` names, January being the first.
pub open spec fn month_named(name: Seq<char>) -> Option<int> {
    if name == "Jan"@ {
        Some(1)
    } else if name == "Feb"@ {
        Some(2)
    } else if name == "Mar"@ {
        Some(3)
    } else if name == "Apr"@ {
        Some(4)
    } else if name == "May"@ {
        Some(5)
    } else if name == "Jun"@ {
        Some(6)
    } else if name == "Jul"@ {
        Some(7)
    } else if name == "Aug"@ {
        Some(8)
    } else if name == "Sep"@ {
        Some(9)
    } else if name == "Oct"@ {
        Some(10)
    } else if name == "Nov"@ {
        Some(11)
    } else if name == "Dec"@ {
        Some(12)
    } else {
        None
    }
}

/// `text` has the 30 characters of the layout: the names of a day of the
/// week and of a month, digits where numbers stand, a sign before the
/// offset, and the separators between them.
pub open spec fn is_layout(text: Seq<char>) -> bool {
    &&& text.len() == 30
    &&& weekday_named(text.subrange(0, 3)).is_some()
    &&& text[3] == ' '
    &&& month_named(text.subrange(4, 7)).is_some()
    &&& text[7] == ' '
    &&& has_number_at(text, 8, 2)
    &&& text[10] == ' '
    &&& has_number_at(text, 11, 2)
    &&& text[13] == ':'
    &&& has_number_at(text, 14, 2)
    &&& text[16] == ':'
    &&& has_number_at(text, 17, 2)
    &&& text[19] == ' '
    &&& (text[20] == '+' || text[20] == '-')
    &&& has_number_at(text, 21, 2)
    &&& has_number_at(text, 23, 2)
    &&& text[25] == ' '
    &&& has_number_at(text, 26, 4)
}

/// The date and time that stand in a text of the layout, as the clock at
/// the text's offset shows them.
pub open spec fn local_fields(text: Seq<char>) -> Civil {
    Civil {
        year: number_at(text, 26, 4) as int,
        month: month_named(text.subrange(4, 7)).unwrap(),
        day: number_at(text, 8, 2) as int,
        hour: number_at(text, 11, 2) as int,
        minute: number_at(text, 14, 2) as int,
        second: number_at(text, 17, 2) as int,
        millisecond: 0,
    }
}

/// The seconds by which the clock of a text of the layout is ahead of
/// UTC.
pub open spec fn offset_seconds(text: Seq<char>) -> int {
    let size = number_at(text, 21, 2) * 3600 + number_at(text, 23, 2) * 60;
    if text[20] == '-' {
        -size
    } else {
        size as int
    }
}

/// What a text of the layout says is possible: the day exists, the time is
/// a time of day, the offset is one of hours below 24 and minutes below
/// 60, and the day falls on the day of the week that the text names.
pub open spec fn is_consistent(text: Seq<char>) -> bool {
    let local = local_fields(text);
    &&& local.is_valid()
    &&& number_at(text, 21, 2) < 24
    &&& number_at(text, 23, 2) < 60
    &&& weekday_named(text.subrange(0, 3)) == Some(
        day_of_week(local.year, local.month, local.day),
    )
}

/// The date and time in UTC that chrono gives for the local date and time
/// of a text and its offset, where the offset is not zero.
pub open spec fn shifted(text: Seq<char>) -> Option<Civil> {
    let local = local_fields(text);
    match utc_of_local(
        local.year,
        local.month,
        local.day,
        local.hour,
        local.minute,
        local.second,
        offset_seconds(text),
    ) {
        Some(utc) => Some(
            Civil {
                year: utc.0 as int,
                month: utc.1 as int,
                day: utc.2 as int,
                hour: utc.3 as int,
                minute: utc.4 as int,
                second: utc.5 as int,
                millisecond: 0,
            },
        ),
        None => None,
    }
}

/// The instant that `text` writes: `text` is in the layout and says what
/// is possible. At the offset zero the instant is what the text shows; at
/// any other it is what chrono makes of it in UTC, where that is a moment
/// in a year of four digits.
#[verifier::opaque]
pub open spec fn decoded(text: Seq<char>) -> Option<Civil> {
    if !is_layout(text) || !is_consistent(text) {
        None
    } else if offset_seconds(text) == 0 {
        Some(local_fields(text))
    } else {
        match shifted(text) {
            Some(utc) => if utc.is_valid() {
                Some(utc)
            } else {
                None
            },
            None => None,
        }
    }
}

/// The text of an instant, to the second and at the offset `+0000`.
#[verifier::opaque]
pub open spec fn encoded(at: Civil) -> Seq<char> {
    weekday_name(day_of_week(at.year, at.month, at.day)) + seq![' '] + month_name(at.month)
        + seq![' '] + fixed_text(at.day as nat, 2) + seq![' '] + fixed_text(at.hour as nat, 2)
        + seq![':'] + fixed_text(at.minute as nat, 2) + seq![':'] + fixed_text(
        at.second as nat,
        2,
    ) + " +0000 "@ + fixed_text(at.year as nat, 4)
}

/// A text is canonical when it decodes and its offset is written `+0000`.
pub open spec fn is_canonical(text: Seq<char>) -> bool {
    decoded(text).is_some() && text.subrange(19, 26) == " +0000 "@
}

/// The characters of the names of the days of the week.
proof fn reveal_weekday_names()
    ensures
        "Mon"@ == seq!['M', 'o', 'n'],
        "Tue"@ == seq!['T', 'u', 'e'],
        "Wed"@ == seq!['W', 'e', 'd'],
        "Thu"@ == seq!['T', 'h', 'u'],
        "Fri"@ == seq!['F', 'r', 'i'],
        "Sat"@ == seq!['S', 'a', 't'],
        "Sun"@ == seq!['S', 'u', 'n'],
{
    reveal_strlit("Mon");
    reveal_strlit("Tue");
    reveal_strlit("Wed");
    reveal_strlit("Thu");
    reveal_strlit("Fri");
    reveal_strlit("Sat");
    reveal_strlit("Sun");
    assert("Mon"@ =~= seq!['M', 'o', 'n']);
    assert("Tue"@ =~= seq!['T', 'u', 'e']);
    assert("Wed"@ =~= seq!['W', 'e', 'd']);
    assert("Thu"@ =~= seq!['T', 'h', 'u']);
    assert("Fri"@ =~= seq!['F', 'r', 'i']);
    assert("Sat"@ =~= seq!['S', 'a', 't']);
    assert("Sun"@ =~= seq!['S', 'u', 'n']);
}

/// The characters of the names of the months.
proof fn reveal_month_names()
    ensures
        "Jan"@ == seq!['J', 'a', 'n'],
        "Feb"@ == seq!['F', 'e', 'b'],
        "Mar"@ == seq!['M', 'a', 'r'],
        "Apr"@ == seq!['A', 'p', 'r'],
        "May"@ == seq!['M', 'a', 'y'],
        "Jun"@ == seq!['J', 'u', 'n'],
        "Jul"@ == seq!['J', 'u', 'l'],
        "Aug"@ == seq!['A', 'u', 'g'],
        "Sep"@ == seq!['S', 'e', 'p'],
        "Oct"@ == seq!['O', 'c', 't'],
        "Nov"@ == seq!['N', 'o', 'v'],
        "Dec"@ == seq!['D', 'e', 'c'],
{
    reveal_strlit("Jan");
    reveal_strlit("Feb");
    reveal_strlit("Mar");
    reveal_strlit("Apr");
    reveal_strlit("May");
    reveal_strlit("Jun");
    reveal_strlit("Jul");
    reveal_strlit("Aug");
    reveal_strlit("Sep");
    reveal_strlit("Oct");
    reveal_strlit("Nov");
    reveal_strlit("Dec");
    assert("Jan"@ =~= seq!['J', 'a', 'n']);
    assert("Feb"@ =~= seq!['F', 'e', 'b']);
    assert("Mar"@ =~= seq!['M', 'a', 'r']);
    assert("Apr"@ =~= seq!['A', 'p', 'r']);
    assert("May"@ =~= seq!['M', 'a', 'y']);
    assert("Jun"@ =~= seq!['J', 'u', 'n']);
    assert("Jul"@ =~= seq!['J', 'u', 'l']);
    assert("Aug"@ =~= seq!['A', 'u', 'g']);
    assert("Sep"@ =~= seq!['S', 'e', 'p']);
    assert("Oct"@ =~= seq!['O', 'c', 't']);
    assert("Nov"@ =~= seq!['N', 'o', 'v']);
    assert("Dec"@ =~= seq!['D', 'e', 'c']);
}

/// The names of the days of the week are read back as the days they name.
pub proof fn lemma_weekday_names(day: int)
    requires
        0 <= day < 7,
    ensures
        weekday_name(day).len() == 3,
        weekday_named(weekday_name(day)) == Some(day),
{
    reveal_weekday_names();
    assert(seq!['M', 'o', 'n'][0] == 'M');
    assert(seq!['T', 'u', 'e'][1] == 'u');
    assert(seq!['W', 'e', 'd'][0] == 'W');
    assert(seq!['T', 'h', 'u'][1] == 'h');
    assert(seq!['F', 'r', 'i'][0] == 'F');
    assert(seq!['S', 'a', 't'][1] == 'a');
    assert(seq!['S', 'u', 'n'][1] == 'u');
    assert(seq!['T', 'u', 'e'][0] == 'T');
    assert(seq!['T', 'h', 'u'][0] == 'T');
    assert(seq!['S', 'a', 't'][0] == 'S');
    assert(seq!['S', 'u', 'n'][0] == 'S');
}

/// The names of the months are read back as the months they name.
pub proof fn lemma_month_names(month: int)
    requires
        1 <= month <= 12,
    ensures
        month_name(month).len() == 3,
        month_named(month_name(month)) == Some(month),
{
    reveal_month_names();
    assert(seq!['J', 'a', 'n'][0] == 'J' && seq!['J', 'a', 'n'][1] == 'a');
    assert(seq!['F', 'e', 'b'][0] == 'F');
    assert(seq!['M', 'a', 'r'][0] == 'M' && seq!['M', 'a', 'r'][2] == 'r');
    assert(seq!['A', 'p', 'r'][0] == 'A' && seq!['A', 'p', 'r'][1] == 'p');
    assert(seq!['M', 'a', 'y'][0] == 'M' && seq!['M', 'a', 'y'][2] == 'y');
    assert(seq!['J', 'u', 'n'][0] == 'J' && seq!['J', 'u', 'n'][1] == 'u' && seq![
        'J',
        'u',
        'n',
    ][2] == 'n');
    assert(seq!['J', 'u', 'l'][0] == 'J' && seq!['J', 'u', 'l'][1] == 'u' && seq![
        'J',
        'u',
        'l',
    ][2] == 'l');
    assert(seq!['A', 'u', 'g'][0] == 'A' && seq!['A', 'u', 'g'][1] == 'u');
    assert(seq!['S', 'e', 'p'][0] == 'S');
    assert(seq!['O', 'c', 't'][0] == 'O');
    assert(seq!['N', 'o', 'v'][0] == 'N');
    assert(seq!['D', 'e', 'c'][0] == 'D');
}

/// Whether the three characters at `from` are those of `name`.
fn is_name(chars: &Vec<char>, from: usize, name: &str) -> (r: bool)
    requires
        from + 3 <= chars@.len(),
        name@.len() == 3,
    ensures
        r == (chars@.subrange(from as int, from + 3) == name@),
{
    let n: usize = chars.len();
    let r = chars[from] == name.get_char(0) && chars[from + 1] == name.get_char(1) && chars[from
        + 2] == name.get_char(2);
    proof {
        let part = chars@.subrange(from as int, from + 3);
        assert(part[0] == chars@[from as int]);
        assert(part[1] == chars@[from + 1]);
        assert(part[2] == chars@[from + 2]);
        if r {
            assert(part =~= name@);
        }
    }
    r
}

/// The day of the week whose name stands at `from`.
fn read_weekday(chars: &Vec<char>, from: usize) -> (r: Option<u32>)
    requires
        from + 3 <= chars@.len(),
    ensures
        match r {
            Some(day) => weekday_named(chars@.subrange(from as int, from + 3)) == Some(day as int),
            None => weekday_named(chars@.subrange(from as int, from + 3)).is_none(),
        },
{
    proof {
        reveal_weekday_names();
    }
    if is_name(chars, from, "Mon") {
        Some(0)
    } else if is_name(chars, from, "Tue") {
        Some(1)
    } else if is_name(chars, from, "Wed") {
        Some(2)
    } else if is_name(chars, from, "Thu") {
        Some(3)
    } else if is_name(chars, from, "Fri") {
        Some(4)
    } else if is_name(chars, from, "Sat") {
        Some(5)
    } else if is_name(chars, from, "Sun") {
        Some(6)
    } else {
        None
    }
}

/// The month whose name stands at `from`.
fn read_month(chars: &Vec<char>, from: usize) -> (r: Option<u32>)
    requires
        from + 3 <= chars@.len(),
    ensures
        match r {
            Some(month) => month_named(chars@.subrange(from as int, from + 3)) == Some(
                month as int,
            ) && 1 <= month <= 12,
            None => month_named(chars@.subrange(from as int, from + 3)).is_none(),
        },
{
    proof {
        reveal_month_names();
    }
    if is_name(chars, from, "Jan") {
        Some(1)
    } else if is_name(chars, from, "Feb") {
        Some(2)
    } else if is_name(chars, from, "Mar") {
        Some(3)
    } else if is_name(chars, from, "Apr") {
        Some(4)
    } else if is_name(chars, from, "May") {
        Some(5)
    } else if is_name(chars, from, "Jun") {
        Some(6)
    } else if is_name(chars, from, "Jul") {
        Some(7)
    } else if is_name(chars, from, "Aug") {
        Some(8)
    } else if is_name(chars, from, "Sep") {
        Some(9)
    } else if is_name(chars, from, "Oct") {
        Some(10)
    } else if is_name(chars, from, "Nov") {
        Some(11)
    } else if is_name(chars, from, "Dec") {
        Some(12)
    } else {
        None
    }
}

/// The name of a day of the week.
fn weekday_str(day: u32) -> (r: &'static str)
    requires
        day < 7,
    ensures
        r@ == weekday_name(day as int),
{
    if day == 0 {
        "Mon"
    } else if day == 1 {
        "Tue"
    } else if day == 2 {
        "Wed"
    } else if day == 3 {
        "Thu"
    } else if day == 4 {
        "Fri"
    } else if day == 5 {
        "Sat"
    } else {
        "Sun"
    }
}

/// The name of a month.
fn month_str(month: u32) -> (r: &'static str)
    requires
        1 <= month <= 12,
    ensures
        r@ == month_name(month as int),
{
    if month == 1 {
        "Jan"
    } else if month == 2 {
        "Feb"
    } else if month == 3 {
        "Mar"
    } else if month == 4 {
        "Apr"
    } else if month == 5 {
        "May"
    } else if month == 6 {
        "Jun"
    } else if month == 7 {
        "Jul"
    } else if month == 8 {
        "Aug"
    } else if month == 9 {
        "Sep"
    } else if month == 10 {
        "Oct"
    } else if month == 11 {
        "Nov"
    } else {
        "Dec"
    }
}

/// The instant of a date and time in UTC that chrono gave, where it is a
/// moment in a year of four digits.
pub fn instant_of_utc(utc: (i32, u32, u32, u32, u32, u32)) -> (r: Option<Instant>)
    ensures
        r.is_some() == (Civil {
            year: utc.0 as int,
            month: utc.1 as int,
            day: utc.2 as int,
            hour: utc.3 as int,
            minute: utc.4 as int,
            second: utc.5 as int,
            millisecond: 0,
        }).is_valid(),
        r matches Some(instant) ==> instant@ == (Civil {
            year: utc.0 as int,
            month: utc.1 as int,
            day: utc.2 as int,
            hour: utc.3 as int,
            minute: utc.4 as int,
            second: utc.5 as int,
            millisecond: 0,
        }),
{
    if utc.0 < 0 {
        None
    } else {
        Instant::new(utc.0 as u32, utc.1, utc.2, utc.3, utc.4, utc.5, 0)
    }
}

/// Reads an instant from its text, and brings it to UTC.
pub fn deserialize(value: &str) -> (r: Result<Instant, FormatError>)
    ensures
        match r {
            Ok(instant) => decoded(value@) == Some(instant@),
            Err(e) => decoded(value@).is_none() && e@ == (FormatErrorModel::PatternMismatch {
                codec: Codec::CreatedAt,
                text: value@,
            }),
        },
{
    proof {
        reveal(decoded);
    }
    let chars = chars_of(value);
    if chars.len() != 30 {
        return Err(mismatch(Codec::CreatedAt, value));
    }
    if chars[3] != ' ' || chars[7] != ' ' || chars[10] != ' ' || chars[13] != ':' || chars[16]
        != ':' || chars[19] != ' ' || chars[25] != ' ' || (chars[20] != '+' && chars[20] != '-') {
        return Err(mismatch(Codec::CreatedAt, value));
    }
    let negative: bool = chars[20] == '-';
    let named_day = read_weekday(&chars, 0);
    let month = read_month(&chars, 4);
    let day = read_field(&chars, 8, 2);
    let hour = read_field(&chars, 11, 2);
    let minute = read_field(&chars, 14, 2);
    let second = read_field(&chars, 17, 2);
    let offset_hours = read_field(&chars, 21, 2);
    let offset_minutes = read_field(&chars, 23, 2);
    let year = read_field(&chars, 26, 4);
    proof {
        lemma_pow10_small();
    }
    match (named_day, month, day, hour, minute, second, offset_hours, offset_minutes, year) {
        (
            Some(named_day),
            Some(month),
            Some(day),
            Some(hour),
            Some(minute),
            Some(second),
            Some(offset_hours),
            Some(offset_minutes),
            Some(year),
        ) => {
            if offset_hours >= 24 || offset_minutes >= 60 || !check_date(year, month, day) {
                return Err(mismatch(Codec::CreatedAt, value));
            }
            if weekday(year, month, day) != named_day {
                return Err(mismatch(Codec::CreatedAt, value));
            }
            let local = match Instant::new(year, month, day, hour, minute, second, 0) {
                Some(local) => local,
                None => {
                    return Err(mismatch(Codec::CreatedAt, value));
                },
            };
            let size: u32 = offset_hours * 3600 + offset_minutes * 60;
            if size == 0 {
                return Ok(local);
            }
            let offset: i32 = if negative {
                -(size as i32)
            } else {
                size as i32
            };
            let shifted = local_to_utc(year as i32, month, day, hour, minute, second, offset);
            match shifted {
                Some(utc) => match instant_of_utc(utc) {
                    Some(instant) => Ok(instant),
                    None => Err(mismatch(Codec::CreatedAt, value)),
                },
                None => Err(mismatch(Codec::CreatedAt, value)),
            }
        },
        _ => Err(mismatch(Codec::CreatedAt, value)),
    }
}

/// Writes an instant as its text, to the second and at the offset
/// `+0000`.
pub fn serialize(date: &Instant) -> (r: String)
    ensures
        r@ == encoded(date@),
{
    proof {
        use_type_invariant(date);
        reveal(encoded);
    }
    let mut out = String::new();
    out.append(weekday_str(weekday(date.year(), date.month(), date.day())));
    out.append(" ");
    out.append(month_str(date.month()));
    out.append(" ");
    push_fixed(&mut out, date.day(), 2);
    out.append(" ");
    push_fixed(&mut out, date.hour(), 2);
    out.append(":");
    push_fixed(&mut out, date.minute(), 2);
    out.append(":");
    push_fixed(&mut out, date.second(), 2);
    out.append(" +0000 ");
    push_fixed(&mut out, date.year(), 4);
    proof {
        reveal_strlit(" ");
        reveal_strlit(":");
        assert(" "@ =~= seq![' ']);
        assert(":"@ =~= seq![':']);
        assert(Seq::<char>::empty() + weekday_name(
            day_of_week(date@.year, date@.month, date@.day),
        ) =~= weekday_name(day_of_week(date@.year, date@.month, date@.day)));
    }
    out
}

/// The digits of the offset `+0000` are worth nothing.
proof fn lemma_zero_offset(text: Seq<char>)
    requires
        text.len() == 30,
        text.subrange(19, 26) == " +0000 "@,
    ensures
        text[19] == ' ',
        text[20] == '+',
        text[25] == ' ',
        has_number_at(text, 21, 2),
        has_number_at(text, 23, 2),
        number_at(text, 21, 2) == 0,
        number_at(text, 23, 2) == 0,
{
    reveal_strlit(" +0000 ");
    let part = text.subrange(19, 26);
    assert(part[0] == ' ' && part[1] == '+' && part[2] == '0' && part[3] == '0' && part[4] == '0'
        && part[5] == '0' && part[6] == ' ');
    assert(text[19] == part[0] && text[20] == part[1] && text[25] == part[6]);
    lemma_pow10_small();
    lemma_fixed_text(0, 2);
    assert(fixed_text(0, 2) =~= seq!['0', '0']) by {
        assert(fixed_text(0, 0) =~= Seq::<char>::empty());
        assert(fixed_text(0, 1) =~= seq!['0']);
    }
    assert(text.subrange(21, 23) =~= seq!['0', '0']) by {
        assert(text.subrange(21, 23)[0] == part[2]);
        assert(text.subrange(21, 23)[1] == part[3]);
    }
    assert(text.subrange(23, 25) =~= seq!['0', '0']) by {
        assert(text.subrange(23, 25)[0] == part[4]);
        assert(text.subrange(23, 25)[1] == part[5]);
    }
    lemma_number_written(text, 21, 2, 0);
    lemma_number_written(text, 23, 2, 0);
}

/// What comes back from the text of an instant is the instant without its
/// milliseconds: the instant itself, where it has none.
pub proof fn instant_round_trip(at: Civil)
    requires
        at.is_valid(),
    ensures
        is_canonical(encoded(at)),
        decoded(encoded(at)) == Some(at.whole_second()),
        at == at.whole_second() ==> decoded(encoded(at)) == Some(at),
{
    reveal(decoded);
    reveal(encoded);
    let text = encoded(at);
    let day = day_of_week(at.year, at.month, at.day);
    lemma_pow10_small();
    lemma_weekday_names(day);
    lemma_month_names(at.month);
    reveal_strlit(" +0000 ");
    lemma_fixed_text(at.year as nat, 4);
    lemma_fixed_text(at.day as nat, 2);
    lemma_fixed_text(at.hour as nat, 2);
    lemma_fixed_text(at.minute as nat, 2);
    lemma_fixed_text(at.second as nat, 2);
    assert(text.len() == 30);
    assert(text.subrange(0, 3) =~= weekday_name(day));
    assert(text.subrange(4, 7) =~= month_name(at.month));
    assert(text.subrange(8, 10) =~= fixed_text(at.day as nat, 2));
    assert(text.subrange(11, 13) =~= fixed_text(at.hour as nat, 2));
    assert(text.subrange(14, 16) =~= fixed_text(at.minute as nat, 2));
    assert(text.subrange(17, 19) =~= fixed_text(at.second as nat, 2));
    assert(text.subrange(19, 26) =~= " +0000 "@);
    assert(text.subrange(26, 30) =~= fixed_text(at.year as nat, 4));
    lemma_zero_offset(text);
    lemma_number_written(text, 8, 2, at.day);
    lemma_number_written(text, 11, 2, at.hour);
    lemma_number_written(text, 14, 2, at.minute);
    lemma_number_written(text, 17, 2, at.second);
    lemma_number_written(text, 26, 4, at.year);
    assert(text[3] == ' ' && text[7] == ' ' && text[10] == ' ' && text[13] == ':' && text[16]
        == ':');
    assert(local_fields(text) == at.whole_second());
    assert(offset_seconds(text) == 0);
}

/// Every canonical text comes back, character for character, from the
/// instant that it writes.
pub proof fn text_round_trip(text: Seq<char>)
    requires
        is_canonical(text),
    ensures
        encoded(decoded(text).unwrap()) == text,
{
    reveal(decoded);
    reveal(encoded);
    lemma_zero_offset(text);
    assert(offset_seconds(text) == 0);
    let at = local_fields(text);
    assert(decoded(text) == Some(at));
    reveal_weekday_names();
    reveal_month_names();
    reveal_strlit(" +0000 ");
    lemma_number_read(text, 8, 2);
    lemma_number_read(text, 11, 2);
    lemma_number_read(text, 14, 2);
    lemma_number_read(text, 17, 2);
    lemma_number_read(text, 26, 4);
    lemma_fixed_text(number_at(text, 8, 2), 2);
    lemma_fixed_text(number_at(text, 11, 2), 2);
    lemma_fixed_text(number_at(text, 14, 2), 2);
    lemma_fixed_text(number_at(text, 17, 2), 2);
    lemma_fixed_text(number_at(text, 26, 4), 4);
    assert(weekday_name(day_of_week(at.year, at.month, at.day)) == text.subrange(0, 3));
    assert(month_name(at.month) == text.subrange(4, 7));
    assert(encoded(at) =~= text);
}

/// What is read is a valid instant without milliseconds. A text that
/// decodes comes back from its instant only if its offset is written
/// `+0000`: what is written is always at that offset.
pub proof fn offset_is_normalised(text: Seq<char>)
    requires
        decoded(text).is_some(),
    ensures
        decoded(text).unwrap().is_valid(),
        decoded(text).unwrap() == decoded(text).unwrap().whole_second(),
        is_canonical(encoded(decoded(text).unwrap())),
        decoded(encoded(decoded(text).unwrap())) == decoded(text),
        encoded(decoded(text).unwrap()) == text ==> is_canonical(text),
{
    let at = decoded(text).unwrap();
    assert(at.is_valid() && at == at.whole_second()) by {
        reveal(decoded);
    }
    instant_round_trip(at);
    if encoded(at) == text {
        assert(is_canonical(text));
    }
}

} // verus!
