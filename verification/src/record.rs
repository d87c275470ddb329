//! The fields of a record: how a string, a list of strings and an instant
//! are found among the entries of an object, and how they are written as
//! entries.

use vstd::prelude::*;
use vstd::string::*;
use crate::convert::created_at;
use crate::convert::date_time_iso_8601;
use crate::convert::date_year_month_day;
use crate::convert::date_year_month_day_hour_minute_second;
use crate::convert::indices;
use crate::convert::number_like_string;
use crate::error::{FormatError, FormatErrorModel};
use crate::instant::{Civil, Instant};
use crate::json::{entry_models, find, lookup, models, Json, JsonModel};
use crate::text::texts;

verus! {

/// The string under `key`.
pub open spec fn text_at(entries: Seq<(Seq<char>, JsonModel)>, key: Seq<char>) -> Option<
    Seq<char>,
> {
    match lookup(entries, key) {
        Some(JsonModel::Text(text)) => Some(text),
        _ => None,
    }
}

/// The strings of `value`, where it is an array of strings and nothing
/// else.
pub open spec fn texts_of(value: JsonModel) -> Option<Seq<Seq<char>>> {
    match value {
        JsonModel::Array(items) => if forall|i: int|
            0 <= i < items.len() ==> (#[trigger] items[i]) is Text {
            Some(Seq::new(items.len(), |i: int| items[i]->Text_0))
        } else {
            None
        },
        _ => None,
    }
}

/// The array of strings under `key`.
pub open spec fn texts_at(entries: Seq<(Seq<char>, JsonModel)>, key: Seq<char>) -> Option<
    Seq<Seq<char>>,
> {
    match lookup(entries, key) {
        Some(value) => texts_of(value),
        None => None,
    }
}

/// The instant under `key`, written with milliseconds and a closing `Z`.
pub open spec fn instant_at(entries: Seq<(Seq<char>, JsonModel)>, key: Seq<char>) -> Option<
    Civil,
> {
    match text_at(entries, key) {
        Some(text) => date_time_iso_8601::decoded(text),
        None => None,
    }
}

/// The array that holds the given strings.
pub open spec fn texts_value(values: Seq<Seq<char>>) -> JsonModel {
    JsonModel::Array(Seq::new(values.len(), |i: int| JsonModel::Text(values[i])))
}

/// The strings of an array of strings are those it was made of.
pub proof fn lemma_texts_value(values: Seq<Seq<char>>)
    ensures
        texts_of(texts_value(values)) == Some(values),
{
    assert(texts_of(texts_value(values)).unwrap() =~= values);
}

/// An array of strings is made again of its strings.
pub proof fn lemma_texts_of(value: JsonModel)
    requires
        texts_of(value).is_some(),
    ensures
        texts_value(texts_of(value).unwrap()) == value,
{
    let items = value->Array_0;
    assert forall|i: int| 0 <= i < items.len() implies JsonModel::Text(
        (#[trigger] items[i])->Text_0,
    ) == items[i] by {
        assert(items[i] is Text);
    }
    assert(texts_value(texts_of(value).unwrap())->Array_0 =~= items);
}

/// Reads the string under `key`.
pub fn read_text(entries: &Vec<(String, Json)>, key: &str) -> (r: Option<String>)
    ensures
        match r {
            Some(text) => text_at(entry_models(entries@), key@) == Some(text@),
            None => text_at(entry_models(entries@), key@).is_none(),
        },
{
    match find(entries, key) {
        Some(value) => match value.as_text() {
            Some(text) => Some(text.clone()),
            None => None,
        },
        None => None,
    }
}

/// Reads the strings of an array of strings.
pub fn read_texts_of(value: &Json) -> (r: Option<Vec<String>>)
    ensures
        match r {
            Some(values) => texts_of(value@) == Some(texts(values@)),
            None => texts_of(value@).is_none(),
        },
{
    let items = match value.as_array() {
        Some(items) => items,
        None => {
            return None;
        },
    };
    let n: usize = items.len();
    let mut out: Vec<String> = Vec::new();
    let mut i: usize = 0;
    while i < n
        invariant
            n == items@.len(),
            i <= n,
            out@.len() == i,
            value@ == JsonModel::Array(models(items@)),
            forall|j: int| 0 <= j < i ==> models(items@)[j] == JsonModel::Text((#[trigger] out@[j])@),
        decreases n - i,
    {
        match items[i].as_text() {
            Some(text) => {
                out.push(text.clone());
            },
            None => {
                proof {
                    assert(models(items@)[i as int] == items@[i as int]@);
                    assert(!(models(items@)[i as int] is Text));
                }
                return None;
            },
        }
        proof {
            assert(models(items@)[i as int] == items@[i as int]@);
        }
        i += 1;
    }
    proof {
        assert forall|j: int| 0 <= j < n implies (#[trigger] models(items@)[j]) is Text by {
            assert(models(items@)[j] == JsonModel::Text(out@[j]@));
        }
        assert(texts_of(value@).unwrap() =~= texts(out@));
    }
    Some(out)
}

/// Reads the array of strings under `key`.
pub fn read_texts(entries: &Vec<(String, Json)>, key: &str) -> (r: Option<Vec<String>>)
    ensures
        match r {
            Some(values) => texts_at(entry_models(entries@), key@) == Some(texts(values@)),
            None => texts_at(entry_models(entries@), key@).is_none(),
        },
{
    match find(entries, key) {
        Some(value) => read_texts_of(value),
        None => None,
    }
}

/// Reads the instant under `key`.
pub fn read_instant(entries: &Vec<(String, Json)>, key: &str) -> (r: Option<Instant>)
    ensures
        match r {
            Some(instant) => instant_at(entry_models(entries@), key@) == Some(instant@),
            None => instant_at(entry_models(entries@), key@).is_none(),
        },
{
    match find(entries, key) {
        Some(value) => match value.as_text() {
            Some(text) => match date_time_iso_8601::deserialize(text.as_str()) {
                Ok(instant) => Some(instant),
                Err(_) => None,
            },
            None => None,
        },
        None => None,
    }
}

/// The entry that holds a string under `key`.
pub fn text_entry(key: &str, text: &String) -> (r: (String, Json))
    ensures
        r.0@ == key@,
        r.1@ == JsonModel::Text(text@),
{
    (String::from_str(key), Json::Text(text.clone()))
}

/// The entry that holds an array of strings under `key`.
pub fn texts_entry(key: &str, values: &Vec<String>) -> (r: (String, Json))
    ensures
        r.0@ == key@,
        r.1@ == texts_value(texts(values@)),
{
    let n: usize = values.len();
    let mut items: Vec<Json> = Vec::new();
    let mut i: usize = 0;
    while i < n
        invariant
            n == values@.len(),
            i <= n,
            items@.len() == i,
            forall|j: int| 0 <= j < i ==> (#[trigger] items@[j])@ == JsonModel::Text(values@[j]@),
        decreases n - i,
    {
        items.push(Json::Text(values[i].clone()));
        i += 1;
    }
    proof {
        assert(models(items@) =~= texts_value(texts(values@))->Array_0);
    }
    (String::from_str(key), Json::array(items))
}

/// The entry that holds an instant under `key`.
pub fn instant_entry(key: &str, instant: &Instant) -> (r: (String, Json))
    ensures
        r.0@ == key@,
        r.1@ == JsonModel::Text(date_time_iso_8601::encoded(instant@)),
{
    (String::from_str(key), Json::Text(date_time_iso_8601::serialize(instant)))
}

/// A type whose values are written as objects of a fixed set of entries.
pub trait Record: View + Sized {
    /// The record that `value` writes: `value` is an object of exactly
    /// the entries of this record, in any order.
    spec fn read(value: JsonModel) -> Option<Self::V>;

    /// The object that writes `record`: its entries, in a fixed order.
    spec fn written(record: Self::V) -> JsonModel;

    /// A record whose fields are all such as can be written.
    spec fn is_writable(record: Self::V) -> bool;

    /// An object whose entries stand in the order in which they are
    /// written, as do those of the records within it.
    spec fn is_canonical(value: JsonModel) -> bool;

    /// Every record that can be written comes back from the object that
    /// writes it, and that object is canonical.
    proof fn written_is_read_back(record: Self::V)
        requires
            Self::is_writable(record),
        ensures
            Self::read(Self::written(record)) == Some(record),
            Self::is_canonical(Self::written(record)),
    ;

    /// A canonical object comes back, entry for entry, from the record
    /// that was read from it, and that record can be written.
    proof fn read_is_written_back(value: JsonModel)
        requires
            Self::read(value).is_some(),
            Self::is_canonical(value),
        ensures
            Self::written(Self::read(value).unwrap()) == value,
            Self::is_writable(Self::read(value).unwrap()),
    ;

    /// Reads a record from an object.
    fn decode(value: &Json) -> (r: Option<Self>)
        ensures
            match r {
                Some(record) => Self::read(value@) == Some(record@),
                None => Self::read(value@).is_none(),
            },
    ;

    /// Writes a record as an object.
    fn encode(&self) -> (r: Json)
        ensures
            r@ == Self::written(self@),
    ;
}

/// What a vector of records holds, one by one.
pub open spec fn record_models<R: Record>(records: Seq<R>) -> Seq<R::V> {
    Seq::new(records.len(), |i: int| records[i]@)
}

/// The records of `value`, where it is an array of records and nothing
/// else.
pub open spec fn records_of<R: Record>(value: JsonModel) -> Option<Seq<R::V>> {
    match value {
        JsonModel::Array(items) => if forall|i: int|
            0 <= i < items.len() ==> R::read(#[trigger] items[i]).is_some() {
            Some(Seq::new(items.len(), |i: int| R::read(items[i]).unwrap()))
        } else {
            None
        },
        _ => None,
    }
}

/// The array of records under `key`.
pub open spec fn records_at<R: Record>(
    entries: Seq<(Seq<char>, JsonModel)>,
    key: Seq<char>,
) -> Option<Seq<R::V>> {
    match lookup(entries, key) {
        Some(value) => records_of::<R>(value),
        None => None,
    }
}

/// The array that holds the given records.
pub open spec fn records_value<R: Record>(records: Seq<R::V>) -> JsonModel {
    JsonModel::Array(Seq::new(records.len(), |i: int| R::written(records[i])))
}

/// Every one of the records can be written.
pub open spec fn all_writable<R: Record>(records: Seq<R::V>) -> bool {
    forall|i: int| 0 <= i < records.len() ==> R::is_writable(#[trigger] records[i])
}

/// `value` is an array, and every one of its items is canonical.
pub open spec fn all_canonical<R: Record>(value: JsonModel) -> bool {
    &&& value is Array
    &&& forall|i: int|
        0 <= i < value->Array_0.len() ==> R::is_canonical(#[trigger] value->Array_0[i])
}

/// Records that can be written come back from the array that holds them,
/// and that array is canonical.
pub proof fn lemma_records_value<R: Record>(records: Seq<R::V>)
    requires
        all_writable::<R>(records),
    ensures
        records_of::<R>(records_value::<R>(records)) == Some(records),
        all_canonical::<R>(records_value::<R>(records)),
{
    let items = records_value::<R>(records)->Array_0;
    assert forall|i: int| 0 <= i < items.len() implies R::read(#[trigger] items[i]) == Some(
        records[i],
    ) && R::is_canonical(items[i]) by {
        R::written_is_read_back(records[i]);
    }
    assert(records_of::<R>(records_value::<R>(records)).unwrap() =~= records);
}

/// A canonical array is made again of the records that were read from
/// it, and those records can be written.
pub proof fn lemma_records_of<R: Record>(value: JsonModel)
    requires
        records_of::<R>(value).is_some(),
        all_canonical::<R>(value),
    ensures
        records_value::<R>(records_of::<R>(value).unwrap()) == value,
        all_writable::<R>(records_of::<R>(value).unwrap()),
{
    let items = value->Array_0;
    let records = records_of::<R>(value).unwrap();
    assert forall|i: int| 0 <= i < items.len() implies R::written(records[i])
        == #[trigger] items[i] && R::is_writable(records[i]) by {
        assert(R::read(items[i]).is_some());
        R::read_is_written_back(items[i]);
    }
    assert(records_value::<R>(records)->Array_0 =~= items);
}

/// Reads the records of an array of records.
pub fn read_records_of<R: Record>(value: &Json) -> (r: Option<Vec<R>>)
    ensures
        match r {
            Some(records) => records_of::<R>(value@) == Some(record_models(records@)),
            None => records_of::<R>(value@).is_none(),
        },
{
    let items = match value.as_array() {
        Some(items) => items,
        None => {
            return None;
        },
    };
    let n: usize = items.len();
    let mut out: Vec<R> = Vec::new();
    let mut i: usize = 0;
    while i < n
        invariant
            n == items@.len(),
            i <= n,
            out@.len() == i,
            value@ == JsonModel::Array(models(items@)),
            forall|j: int| 0 <= j < i ==> R::read(#[trigger] models(items@)[j]) == Some(out@[j]@),
        decreases n - i,
    {
        proof {
            assert(models(items@)[i as int] == items@[i as int]@);
        }
        match R::decode(&items[i]) {
            Some(record) => {
                out.push(record);
            },
            None => {
                return None;
            },
        }
        i += 1;
    }
    proof {
        assert(records_of::<R>(value@).unwrap() =~= record_models(out@));
    }
    Some(out)
}

/// Reads the array of records under `key`.
pub fn read_records<R: Record>(entries: &Vec<(String, Json)>, key: &str) -> (r: Option<Vec<R>>)
    ensures
        match r {
            Some(records) => records_at::<R>(entry_models(entries@), key@) == Some(
                record_models(records@),
            ),
            None => records_at::<R>(entry_models(entries@), key@).is_none(),
        },
{
    match find(entries, key) {
        Some(value) => read_records_of::<R>(value),
        None => None,
    }
}

/// The entry that holds an array of records under `key`.
pub fn records_entry<R: Record>(key: &str, records: &Vec<R>) -> (r: (String, Json))
    ensures
        r.0@ == key@,
        r.1@ == records_value::<R>(record_models(records@)),
{
    let n: usize = records.len();
    let mut items: Vec<Json> = Vec::new();
    let mut i: usize = 0;
    while i < n
        invariant
            n == records@.len(),
            i <= n,
            items@.len() == i,
            forall|j: int| 0 <= j < i ==> (#[trigger] items@[j])@ == R::written(records@[j]@),
        decreases n - i,
    {
        items.push(records[i].encode());
        i += 1;
    }
    proof {
        assert(models(items@) =~= records_value::<R>(record_models(records@))->Array_0);
    }
    (String::from_str(key), Json::array(items))
}

/// The record under `key`.
pub open spec fn record_at<R: Record>(entries: Seq<(Seq<char>, JsonModel)>, key: Seq<char>) -> Option<
    R::V,
> {
    match lookup(entries, key) {
        Some(value) => R::read(value),
        None => None,
    }
}

/// Reads the record under `key`.
pub fn read_record<R: Record>(entries: &Vec<(String, Json)>, key: &str) -> (r: Option<R>)
    ensures
        match r {
            Some(record) => record_at::<R>(entry_models(entries@), key@) == Some(record@),
            None => record_at::<R>(entry_models(entries@), key@).is_none(),
        },
{
    match find(entries, key) {
        Some(value) => R::decode(value),
        None => None,
    }
}

/// The entry that holds a record under `key`.
pub fn record_entry<R: Record>(key: &str, record: &R) -> (r: (String, Json))
    ensures
        r.0@ == key@,
        r.1@ == R::written(record@),
{
    (String::from_str(key), record.encode())
}

/// Reads a record that a caller expects under the name `name`, and says
/// so where `value` is no such record.
pub fn decode_record<R: Record>(value: &Json, name: &str) -> (r: Result<R, FormatError>)
    ensures
        match r {
            Ok(record) => R::read(value@) == Some(record@),
            Err(e) => R::read(value@).is_none() && e@ == (FormatErrorModel::ShapeMismatch {
                expected: name@,
            }),
        },
{
    match R::decode(value) {
        Some(record) => Ok(record),
        None => Err(FormatError::ShapeMismatch { expected: String::from_str(name) }),
    }
}

/// The truth value under `key`.
pub open spec fn flag_at(entries: Seq<(Seq<char>, JsonModel)>, key: Seq<char>) -> Option<bool> {
    match lookup(entries, key) {
        Some(JsonModel::Bool(flag)) => Some(flag),
        _ => None,
    }
}

/// Reads the truth value under `key`.
pub fn read_flag(entries: &Vec<(String, Json)>, key: &str) -> (r: Option<bool>)
    ensures
        r == flag_at(entry_models(entries@), key@),
{
    match find(entries, key) {
        Some(value) => value.as_bool(),
        None => None,
    }
}

/// The entry that holds a truth value under `key`.
pub fn flag_entry(key: &str, flag: &bool) -> (r: (String, Json))
    ensures
        r.0@ == key@,
        r.1@ == JsonModel::Bool(*flag),
{
    (String::from_str(key), Json::Bool(*flag))
}

/// The number under `key`, written as a string of digits.
pub open spec fn number_at(entries: Seq<(Seq<char>, JsonModel)>, key: Seq<char>) -> Option<u64> {
    match text_at(entries, key) {
        Some(text) => number_like_string::decoded(text),
        None => None,
    }
}

/// The string that writes a number.
pub open spec fn number_value(number: u64) -> JsonModel {
    JsonModel::Text(number_like_string::encoded(number))
}

/// A string of digits without a leading zero.
pub open spec fn number_canonical(value: JsonModel) -> bool {
    value is Text && number_like_string::is_canonical(value->Text_0)
}

/// A number comes back from the string that writes it, and that string
/// is canonical.
pub proof fn lemma_number_value(
    entries: Seq<(Seq<char>, JsonModel)>,
    key: Seq<char>,
    number: u64,
)
    requires
        lookup(entries, key) == Some(number_value(number)),
    ensures
        number_at(entries, key) == Some(number),
        number_canonical(number_value(number)),
{
    number_like_string::number_round_trip(number);
}

/// A canonical string is written again from the number that was read
/// from it.
pub proof fn lemma_number_at(entries: Seq<(Seq<char>, JsonModel)>, key: Seq<char>)
    requires
        number_at(entries, key).is_some(),
    ensures
        number_canonical(lookup(entries, key).unwrap()) ==> number_value(
            number_at(entries, key).unwrap(),
        ) == lookup(entries, key).unwrap(),
{
    let text = text_at(entries, key).unwrap();
    if number_like_string::is_canonical(text) {
        number_like_string::text_round_trip(text);
    }
}

/// Reads the number under `key`.
pub fn read_number(entries: &Vec<(String, Json)>, key: &str) -> (r: Option<u64>)
    ensures
        r == number_at(entry_models(entries@), key@),
{
    match find(entries, key) {
        Some(value) => match value.as_text() {
            Some(text) => match number_like_string::deserialize(text.as_str()) {
                Ok(number) => Some(number),
                Err(_) => None,
            },
            None => None,
        },
        None => None,
    }
}

/// The entry that holds a number under `key`.
pub fn number_entry(key: &str, number: &u64) -> (r: (String, Json))
    ensures
        r.0@ == key@,
        r.1@ == number_value(*number),
{
    (String::from_str(key), Json::Text(number_like_string::serialize(number)))
}

/// The pair of offsets under `key`, written as an array of two numbers in
/// strings.
pub open spec fn indices_at(entries: Seq<(Seq<char>, JsonModel)>, key: Seq<char>) -> Option<
    (u64, u64),
> {
    match texts_at(entries, key) {
        Some(values) => indices::decoded(values),
        None => None,
    }
}

/// The array that writes a pair of offsets.
pub open spec fn indices_value(pair: (u64, u64)) -> JsonModel {
    texts_value(indices::encoded(pair))
}

/// An array of two strings of digits without a leading zero.
pub open spec fn indices_canonical(value: JsonModel) -> bool {
    &&& texts_of(value).is_some()
    &&& texts_of(value).unwrap().len() == 2
    &&& number_like_string::is_canonical(texts_of(value).unwrap()[0])
    &&& number_like_string::is_canonical(texts_of(value).unwrap()[1])
}

/// A pair of offsets comes back from the array that writes it, and that
/// array is canonical.
pub proof fn lemma_indices_value(
    entries: Seq<(Seq<char>, JsonModel)>,
    key: Seq<char>,
    pair: (u64, u64),
)
    requires
        lookup(entries, key) == Some(indices_value(pair)),
    ensures
        indices_at(entries, key) == Some(pair),
        indices_canonical(indices_value(pair)),
{
    lemma_texts_value(indices::encoded(pair));
    indices::pair_round_trip(pair);
    number_like_string::number_round_trip(pair.0);
    number_like_string::number_round_trip(pair.1);
}

/// A canonical array is written again from the pair that was read from
/// it.
pub proof fn lemma_indices_at(entries: Seq<(Seq<char>, JsonModel)>, key: Seq<char>)
    requires
        indices_at(entries, key).is_some(),
    ensures
        indices_canonical(lookup(entries, key).unwrap()) ==> indices_value(
            indices_at(entries, key).unwrap(),
        ) == lookup(entries, key).unwrap(),
{
    let value = lookup(entries, key).unwrap();
    if indices_canonical(value) {
        indices::texts_round_trip(texts_of(value).unwrap());
        lemma_texts_of(value);
    }
}

/// Reads the pair of offsets under `key`.
pub fn read_indices(entries: &Vec<(String, Json)>, key: &str) -> (r: Option<[u64; 2]>)
    ensures
        match r {
            Some(pair) => indices_at(entry_models(entries@), key@) == Some((pair[0], pair[1])),
            None => indices_at(entry_models(entries@), key@).is_none(),
        },
{
    match read_texts(entries, key) {
        Some(values) => match indices::deserialize(&values) {
            Ok(pair) => Some(pair),
            Err(_) => None,
        },
        None => None,
    }
}

/// The entry that holds a pair of offsets under `key`.
pub fn indices_entry(key: &str, pair: &[u64; 2]) -> (r: (String, Json))
    ensures
        r.0@ == key@,
        r.1@ == indices_value((pair[0], pair[1])),
{
    let values = indices::serialize(pair);
    texts_entry(key, &values)
}

/// The instant under `key`, written with the day of the week and an offset.
pub open spec fn created_at(entries: Seq<(Seq<char>, JsonModel)>, key: Seq<char>) -> Option<Civil> {
    match text_at(entries, key) {
        Some(text) => created_at::decoded(text),
        None => None,
    }
}

/// The string that writes an instant with the day of the week, to the second.
pub open spec fn created_value(at: Civil) -> JsonModel {
    JsonModel::Text(created_at::encoded(at))
}

/// An instant that comes back from what `created_value` writes of it.
pub open spec fn created_writable(at: Civil) -> bool {
    at.is_valid() && at == at.whole_second()
}

/// A string from which `created_at` reads an instant that is written as the
/// same string again.
pub open spec fn created_canonical(value: JsonModel) -> bool {
    value is Text && created_at::is_canonical(value->Text_0)
}

/// An instant comes back from the string that writes it with the day of the week, to the second, and that
/// string is canonical.
pub proof fn lemma_created_value(entries: Seq<(Seq<char>, JsonModel)>, key: Seq<char>, at: Civil)
    requires
        created_writable(at),
        lookup(entries, key) == Some(created_value(at)),
    ensures
        created_at(entries, key) == Some(at),
        created_canonical(created_value(at)),
{
    created_at::instant_round_trip(at);
}

/// What is read with the day of the week, to the second can be written, and a canonical string is written
/// again from it.
pub proof fn lemma_created_at(entries: Seq<(Seq<char>, JsonModel)>, key: Seq<char>)
    requires
        created_at(entries, key).is_some(),
    ensures
        created_writable(created_at(entries, key).unwrap()),
        created_canonical(lookup(entries, key).unwrap()) ==> created_value(
            created_at(entries, key).unwrap(),
        ) == lookup(entries, key).unwrap(),
{
    let text = text_at(entries, key).unwrap();
    created_at::offset_is_normalised(text);
    if created_at::is_canonical(text) {
        created_at::text_round_trip(text);
    }
}

/// Reads the instant under `key`.
pub fn read_created(entries: &Vec<(String, Json)>, key: &str) -> (r: Option<Instant>)
    ensures
        match r {
            Some(instant) => created_at(entry_models(entries@), key@) == Some(instant@),
            None => created_at(entry_models(entries@), key@).is_none(),
        },
{
    match find(entries, key) {
        Some(value) => match value.as_text() {
            Some(text) => match created_at::deserialize(text.as_str()) {
                Ok(instant) => Some(instant),
                Err(_) => None,
            },
            None => None,
        },
        None => None,
    }
}

/// The entry that holds an instant under `key`.
pub fn created_entry(key: &str, instant: &Instant) -> (r: (String, Json))
    ensures
        r.0@ == key@,
        r.1@ == created_value(instant@),
{
    (String::from_str(key), Json::Text(created_at::serialize(instant)))
}

/// The instant under `key`, written as a day.
pub open spec fn day_at(entries: Seq<(Seq<char>, JsonModel)>, key: Seq<char>) -> Option<Civil> {
    match text_at(entries, key) {
        Some(text) => date_year_month_day::decoded(text),
        None => None,
    }
}

/// The string that writes an instant as its day alone.
pub open spec fn day_value(at: Civil) -> JsonModel {
    JsonModel::Text(date_year_month_day::encoded(at))
}

/// An instant that comes back from what `day_value` writes of it.
pub open spec fn day_writable(at: Civil) -> bool {
    at.is_valid() && at == at.date_only()
}

/// A string from which `day_at` reads an instant that is written as the
/// same string again.
pub open spec fn day_canonical(value: JsonModel) -> bool {
    value is Text && date_year_month_day::decoded(value->Text_0).is_some()
}

/// An instant comes back from the string that writes it as its day alone, and that
/// string is canonical.
pub proof fn lemma_day_value(entries: Seq<(Seq<char>, JsonModel)>, key: Seq<char>, at: Civil)
    requires
        day_writable(at),
        lookup(entries, key) == Some(day_value(at)),
    ensures
        day_at(entries, key) == Some(at),
        day_canonical(day_value(at)),
{
    date_year_month_day::instant_round_trip(at);
}

/// What is read as its day alone can be written, and a canonical string is written
/// again from it.
pub proof fn lemma_day_at(entries: Seq<(Seq<char>, JsonModel)>, key: Seq<char>)
    requires
        day_at(entries, key).is_some(),
    ensures
        day_writable(day_at(entries, key).unwrap()),
        day_canonical(lookup(entries, key).unwrap()) ==> day_value(
            day_at(entries, key).unwrap(),
        ) == lookup(entries, key).unwrap(),
{
    let text = text_at(entries, key).unwrap();
    date_year_month_day::text_round_trip(text);
}

/// Reads the instant under `key`.
pub fn read_day(entries: &Vec<(String, Json)>, key: &str) -> (r: Option<Instant>)
    ensures
        match r {
            Some(instant) => day_at(entry_models(entries@), key@) == Some(instant@),
            None => day_at(entry_models(entries@), key@).is_none(),
        },
{
    match find(entries, key) {
        Some(value) => match value.as_text() {
            Some(text) => match date_year_month_day::deserialize(text.as_str()) {
                Ok(instant) => Some(instant),
                Err(_) => None,
            },
            None => None,
        },
        None => None,
    }
}

/// The entry that holds an instant under `key`.
pub fn day_entry(key: &str, instant: &Instant) -> (r: (String, Json))
    ensures
        r.0@ == key@,
        r.1@ == day_value(instant@),
{
    (String::from_str(key), Json::Text(date_year_month_day::serialize(instant)))
}

/// The instant under `key`, written to the second.
pub open spec fn second_at(entries: Seq<(Seq<char>, JsonModel)>, key: Seq<char>) -> Option<Civil> {
    match text_at(entries, key) {
        Some(text) => date_year_month_day_hour_minute_second::decoded(text),
        None => None,
    }
}

/// The string that writes an instant to the second.
pub open spec fn second_value(at: Civil) -> JsonModel {
    JsonModel::Text(date_year_month_day_hour_minute_second::encoded(at))
}

/// An instant that comes back from what `second_value` writes of it.
pub open spec fn second_writable(at: Civil) -> bool {
    at.is_valid() && at == at.whole_second()
}

/// A string from which `second_at` reads an instant that is written as the
/// same string again.
pub open spec fn second_canonical(value: JsonModel) -> bool {
    value is Text && date_year_month_day_hour_minute_second::decoded(value->Text_0).is_some()
}

/// An instant comes back from the string that writes it to the second, and that
/// string is canonical.
pub proof fn lemma_second_value(entries: Seq<(Seq<char>, JsonModel)>, key: Seq<char>, at: Civil)
    requires
        second_writable(at),
        lookup(entries, key) == Some(second_value(at)),
    ensures
        second_at(entries, key) == Some(at),
        second_canonical(second_value(at)),
{
    date_year_month_day_hour_minute_second::instant_round_trip(at);
}

/// What is read to the second can be written, and a canonical string is written
/// again from it.
pub proof fn lemma_second_at(entries: Seq<(Seq<char>, JsonModel)>, key: Seq<char>)
    requires
        second_at(entries, key).is_some(),
    ensures
        second_writable(second_at(entries, key).unwrap()),
        second_canonical(lookup(entries, key).unwrap()) ==> second_value(
            second_at(entries, key).unwrap(),
        ) == lookup(entries, key).unwrap(),
{
    let text = text_at(entries, key).unwrap();
    date_year_month_day_hour_minute_second::text_round_trip(text);
}

/// Reads the instant under `key`.
pub fn read_second(entries: &Vec<(String, Json)>, key: &str) -> (r: Option<Instant>)
    ensures
        match r {
            Some(instant) => second_at(entry_models(entries@), key@) == Some(instant@),
            None => second_at(entry_models(entries@), key@).is_none(),
        },
{
    match find(entries, key) {
        Some(value) => match value.as_text() {
            Some(text) => match date_year_month_day_hour_minute_second::deserialize(text.as_str()) {
                Ok(instant) => Some(instant),
                Err(_) => None,
            },
            None => None,
        },
        None => None,
    }
}

/// The entry that holds an instant under `key`.
pub fn second_entry(key: &str, instant: &Instant) -> (r: (String, Json))
    ensures
        r.0@ == key@,
        r.1@ == second_value(instant@),
{
    (String::from_str(key), Json::Text(date_year_month_day_hour_minute_second::serialize(instant)))
}

/// One if there is a value, nought if there is none.
pub open spec fn count(value: Option<JsonModel>) -> nat {
    if value.is_some() {
        1
    } else {
        0
    }
}

/// The entry of a slot: a key with its value, or nothing where the slot
/// has no value.
pub open spec fn entry_of(key: Seq<char>, value: Option<JsonModel>) -> Seq<(Seq<char>, JsonModel)> {
    match value {
        Some(held) => seq![(key, held)],
        None => Seq::empty(),
    }
}

/// The entries of the slots that have a value, in the order of the slots.
pub open spec fn filled(slots: Seq<(Seq<char>, Option<JsonModel>)>) -> Seq<(Seq<char>, JsonModel)>
    decreases slots.len(),
{
    if slots.len() == 0 {
        Seq::empty()
    } else {
        filled(slots.drop_last()) + entry_of(slots.last().0, slots.last().1)
    }
}

/// No two of the slots have the same key.
pub open spec fn distinct_keys(slots: Seq<(Seq<char>, Option<JsonModel>)>) -> bool {
    forall|i: int, j: int|
        0 <= i < j < slots.len() ==> (#[trigger] slots[i]).0 != (#[trigger] slots[j]).0
}

/// A lookup in two runs of entries, one after the other, finds what it
/// finds in the first, and else what it finds in the second.
pub proof fn lemma_lookup_joined(
    first: Seq<(Seq<char>, JsonModel)>,
    second: Seq<(Seq<char>, JsonModel)>,
    key: Seq<char>,
)
    ensures
        lookup(first + second, key) == if lookup(first, key).is_some() {
            lookup(first, key)
        } else {
            lookup(second, key)
        },
    decreases first.len(),
{
    if first.len() == 0 {
        assert(first + second =~= second);
    } else {
        let all = first + second;
        assert(all[0] == first[0]);
        if first[0].0 != key {
            assert(all.subrange(1, all.len() as int) =~= first.subrange(1, first.len() as int)
                + second);
            lemma_lookup_joined(first.subrange(1, first.len() as int), second, key);
        }
    }
}

/// The entry of a slot is found under the key of the slot, and under no
/// other.
pub proof fn lemma_lookup_entry(slot: Seq<char>, value: Option<JsonModel>, key: Seq<char>)
    ensures
        lookup(entry_of(slot, value), key) == if slot == key {
            value
        } else {
            None
        },
{
    let piece = entry_of(slot, value);
    if value.is_some() {
        assert(piece.len() == 1);
        assert(piece[0] == (slot, value.unwrap()));
        assert(lookup(piece.subrange(1, piece.len() as int), key).is_none());
    } else {
        assert(piece.len() == 0);
    }
}

/// One more slot adds its entry, if it has one, behind the others.
pub proof fn lemma_filled_push(
    slots: Seq<(Seq<char>, Option<JsonModel>)>,
    key: Seq<char>,
    value: Option<JsonModel>,
)
    ensures
        filled(slots.push((key, value))) == filled(slots) + entry_of(key, value),
        filled(slots.push((key, value))).len() == filled(slots).len() + count(value),
{
    assert(slots.push((key, value)).drop_last() =~= slots);
}

/// Among the entries of slots, a key that no slot has is not found.
pub proof fn lemma_filled_without(slots: Seq<(Seq<char>, Option<JsonModel>)>, key: Seq<char>)
    requires
        forall|i: int| 0 <= i < slots.len() ==> (#[trigger] slots[i]).0 != key,
    ensures
        lookup(filled(slots), key).is_none(),
    decreases slots.len(),
{
    if slots.len() > 0 {
        let front = slots.drop_last();
        assert forall|i: int| 0 <= i < front.len() implies (#[trigger] front[i]).0 != key by {
            assert(front[i] == slots[i]);
        }
        lemma_filled_without(front, key);
        lemma_lookup_joined(filled(front), entry_of(slots.last().0, slots.last().1), key);
        assert(slots.last() == slots[slots.len() - 1]);
        lemma_lookup_entry(slots.last().0, slots.last().1, key);
    }
}

/// Among the entries of slots with keys that all differ, the key of a
/// slot finds the value of that slot, and nothing where it has none.
pub proof fn lemma_filled_lookup(slots: Seq<(Seq<char>, Option<JsonModel>)>, at: int)
    requires
        distinct_keys(slots),
        0 <= at < slots.len(),
    ensures
        lookup(filled(slots), slots[at].0) == slots[at].1,
    decreases slots.len(),
{
    let front = slots.drop_last();
    let key = slots[at].0;
    let piece = entry_of(slots.last().0, slots.last().1);
    assert(slots.last() == slots[slots.len() - 1]);
    lemma_lookup_joined(filled(front), piece, key);
    lemma_lookup_entry(slots.last().0, slots.last().1, key);
    if at == slots.len() - 1 {
        assert forall|i: int| 0 <= i < front.len() implies (#[trigger] front[i]).0 != key by {
            assert(front[i] == slots[i]);
        }
        lemma_filled_without(front, key);
    } else {
        assert(front[at] == slots[at]);
        assert(distinct_keys(front)) by {
            assert forall|i: int, j: int| 0 <= i < j < front.len() implies (#[trigger] front[i]).0
                != (#[trigger] front[j]).0 by {
                assert(front[i] == slots[i]);
                assert(front[j] == slots[j]);
            }
        }
        lemma_filled_lookup(front, at);
        assert(slots[at].0 != slots[slots.len() - 1].0);
    }
}

/// What an entry that may be missing holds: the entry, or nothing.
pub open spec fn entry_model(entry: Option<(String, Json)>) -> Seq<(Seq<char>, JsonModel)> {
    match entry {
        Some(held) => entry_of(held.0@, Some(held.1@)),
        None => Seq::empty(),
    }
}

/// Puts an entry behind the others, where there is one.
pub fn push_slot(entries: &mut Vec<(String, Json)>, entry: Option<(String, Json)>)
    ensures
        entry_models(final(entries)@) == entry_models(old(entries)@) + entry_model(entry),
{
    match entry {
        Some(held) => {
            entries.push(held);
        },
        None => {},
    }
    proof {
        assert(entry_models(final(entries)@) =~= entry_models(old(entries)@) + entry_model(entry));
    }
}

/// What a string that may be missing holds.
pub open spec fn optional_text(held: Option<String>) -> Option<Seq<char>> {
    match held {
        Some(text) => Some(text@),
        None => None,
    }
}

/// The string under `key`, or nothing where no entry has the key.
pub open spec fn optional_text_at(entries: Seq<(Seq<char>, JsonModel)>, key: Seq<char>) -> Option<
    Option<Seq<char>>,
> {
    match lookup(entries, key) {
        None => Some(None),
        Some(JsonModel::Text(text)) => Some(Some(text)),
        Some(_) => None,
    }
}

/// The value that writes a string, where there is one.
pub open spec fn optional_text_value(held: Option<Seq<char>>) -> Option<JsonModel> {
    match held {
        Some(text) => Some(JsonModel::Text(text)),
        None => None,
    }
}

/// Reads the string under `key`, if there is an entry with the key.
pub fn read_optional_text(entries: &Vec<(String, Json)>, key: &str) -> (r: Option<Option<String>>)
    ensures
        match r {
            Some(held) => optional_text_at(entry_models(entries@), key@) == Some(
                optional_text(held),
            ),
            None => optional_text_at(entry_models(entries@), key@).is_none(),
        },
{
    match find(entries, key) {
        Some(value) => match value.as_text() {
            Some(text) => Some(Some(text.clone())),
            None => None,
        },
        None => Some(None),
    }
}

/// The truth value under `key`, or nothing where no entry has the key.
pub open spec fn optional_flag_at(entries: Seq<(Seq<char>, JsonModel)>, key: Seq<char>) -> Option<
    Option<bool>,
> {
    match lookup(entries, key) {
        None => Some(None),
        Some(JsonModel::Bool(flag)) => Some(Some(flag)),
        Some(_) => None,
    }
}

/// The value that writes a truth value, where there is one.
pub open spec fn optional_flag_value(held: Option<bool>) -> Option<JsonModel> {
    match held {
        Some(flag) => Some(JsonModel::Bool(flag)),
        None => None,
    }
}

/// Reads the truth value under `key`, if there is an entry with the key.
pub fn read_optional_flag(entries: &Vec<(String, Json)>, key: &str) -> (r: Option<Option<bool>>)
    ensures
        r == optional_flag_at(entry_models(entries@), key@),
{
    match find(entries, key) {
        Some(value) => match value.as_bool() {
            Some(flag) => Some(Some(flag)),
            None => None,
        },
        None => Some(None),
    }
}

/// What a record that may be missing holds.
pub open spec fn optional_model<R: Record>(held: Option<R>) -> Option<R::V> {
    match held {
        Some(record) => Some(record@),
        None => None,
    }
}

/// The record under `key`, or nothing where no entry has the key.
pub open spec fn optional_record_at<R: Record>(
    entries: Seq<(Seq<char>, JsonModel)>,
    key: Seq<char>,
) -> Option<Option<R::V>> {
    match lookup(entries, key) {
        None => Some(None),
        Some(value) => match R::read(value) {
            Some(record) => Some(Some(record)),
            None => None,
        },
    }
}

/// The value that writes a record, where there is one.
pub open spec fn optional_record_value<R: Record>(held: Option<R::V>) -> Option<JsonModel> {
    match held {
        Some(record) => Some(R::written(record)),
        None => None,
    }
}

/// Reads the record under `key`, if there is an entry with the key.
pub fn read_optional_record<R: Record>(entries: &Vec<(String, Json)>, key: &str) -> (r: Option<
    Option<R>,
>)
    ensures
        match r {
            Some(held) => optional_record_at::<R>(entry_models(entries@), key@) == Some(
                optional_model(held),
            ),
            None => optional_record_at::<R>(entry_models(entries@), key@).is_none(),
        },
{
    match find(entries, key) {
        Some(value) => match R::decode(value) {
            Some(record) => Some(Some(record)),
            None => None,
        },
        None => Some(None),
    }
}

/// What an array of records that may be missing holds.
pub open spec fn optional_models<R: Record>(held: Option<Vec<R>>) -> Option<Seq<R::V>> {
    match held {
        Some(records) => Some(record_models(records@)),
        None => None,
    }
}

/// The array of records under `key`, or nothing where no entry has the
/// key.
pub open spec fn optional_records_at<R: Record>(
    entries: Seq<(Seq<char>, JsonModel)>,
    key: Seq<char>,
) -> Option<Option<Seq<R::V>>> {
    match lookup(entries, key) {
        None => Some(None),
        Some(value) => match records_of::<R>(value) {
            Some(records) => Some(Some(records)),
            None => None,
        },
    }
}

/// The value that writes an array of records, where there is one.
pub open spec fn optional_records_value<R: Record>(held: Option<Seq<R::V>>) -> Option<JsonModel> {
    match held {
        Some(records) => Some(records_value::<R>(records)),
        None => None,
    }
}

/// Reads the array of records under `key`, if there is an entry with the
/// key.
pub fn read_optional_records<R: Record>(entries: &Vec<(String, Json)>, key: &str) -> (r: Option<
    Option<Vec<R>>,
>)
    ensures
        match r {
            Some(held) => optional_records_at::<R>(entry_models(entries@), key@) == Some(
                optional_models(held),
            ),
            None => optional_records_at::<R>(entry_models(entries@), key@).is_none(),
        },
{
    match find(entries, key) {
        Some(value) => match read_records_of::<R>(value) {
            Some(records) => Some(Some(records)),
            None => None,
        },
        None => Some(None),
    }
}

} // verus!
