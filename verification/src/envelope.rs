//! The envelope: an object with one entry, whose key names what the value
//! is. Every record of an export file stands in one.

use vstd::prelude::*;
use vstd::string::*;
use crate::error::{FormatError, FormatErrorModel};
use crate::json::{entry_models, Json, JsonModel};
use crate::record::Record;
use crate::text::same_text;

verus! {

/// What stands in the envelope `value` under `key`: `value` is an object
/// with one entry, and the key of that entry is `key`.
pub open spec fn opened(value: JsonModel, key: Seq<char>) -> Option<JsonModel> {
    match value {
        JsonModel::Object(entries) => if entries.len() == 1 && entries[0].0 == key {
            Some(entries[0].1)
        } else {
            None
        },
        _ => None,
    }
}

/// The envelope that holds `inner` under `key`.
pub open spec fn sealed(key: Seq<char>, inner: JsonModel) -> JsonModel {
    JsonModel::Object(seq![(key, inner)])
}

/// The error that a value which is no envelope for `key` is refused with.
/// An object with no entry, or with more than one, has the wrong length;
/// anything else has the wrong shape. Either error names `key`.
pub open spec fn refusal(value: JsonModel, key: Seq<char>) -> FormatErrorModel {
    match value {
        JsonModel::Object(entries) => if entries.len() != 1 {
            FormatErrorModel::LengthMismatch { name: key, wanted: 1, found: entries.len() }
        } else {
            FormatErrorModel::ShapeMismatch { expected: key }
        },
        _ => FormatErrorModel::ShapeMismatch { expected: key },
    }
}

/// Takes the value out of an envelope for `key`.
pub fn open<'a>(value: &'a Json, key: &str) -> (r: Result<&'a Json, FormatError>)
    ensures
        match r {
            Ok(inner) => opened(value@, key@) == Some(inner@),
            Err(e) => opened(value@, key@).is_none() && e@ == refusal(value@, key@),
        },
{
    let entries = match value.as_object() {
        Some(entries) => entries,
        None => {
            return Err(FormatError::ShapeMismatch { expected: String::from_str(key) });
        },
    };
    if entries.len() != 1 {
        return Err(
            FormatError::LengthMismatch {
                name: String::from_str(key),
                wanted: 1,
                found: entries.len(),
            },
        );
    }
    if !same_text(entries[0].0.as_str(), key) {
        return Err(FormatError::ShapeMismatch { expected: String::from_str(key) });
    }
    Ok(&entries[0].1)
}

/// Puts a value into an envelope for `key`.
pub fn seal(key: &str, inner: Json) -> (r: Json)
    ensures
        r@ == sealed(key@, inner@),
{
    let mut entries: Vec<(String, Json)> = Vec::new();
    entries.push((String::from_str(key), inner));
    proof {
        assert(entry_models(entries@) =~= seq![(key@, inner@)]);
    }
    Json::object(entries)
}

/// What was put into an envelope is what is taken out of it.
pub proof fn seal_then_open(key: Seq<char>, inner: JsonModel)
    ensures
        opened(sealed(key, inner), key) == Some(inner),
{
}

/// An envelope is put together again, entry for entry, from its key and
/// what was taken out of it.
pub proof fn open_then_seal(value: JsonModel, key: Seq<char>)
    requires
        opened(value, key).is_some(),
    ensures
        sealed(key, opened(value, key).unwrap()) == value,
{
    assert(value->Object_0 =~= seq![(key, opened(value, key).unwrap())]);
}

/// An object is an envelope only if it has exactly one entry: with none,
/// or with any beside the one that `key` names, it is refused for its
/// length.
pub proof fn one_entry_only(entries: Seq<(Seq<char>, JsonModel)>, key: Seq<char>)
    requires
        entries.len() != 1,
    ensures
        opened(JsonModel::Object(entries), key).is_none(),
        refusal(JsonModel::Object(entries), key) == (FormatErrorModel::LengthMismatch {
            name: key,
            wanted: 1,
            found: entries.len(),
        }),
{
}

/// The record that stands in the envelope `value` under `key`.
pub open spec fn decoded<R: Record>(value: JsonModel, key: Seq<char>) -> Option<R::V> {
    match opened(value, key) {
        Some(inner) => R::read(inner),
        None => None,
    }
}

/// The envelope that holds, under `key`, the object that writes `record`.
pub open spec fn encoded<R: Record>(key: Seq<char>, record: R::V) -> JsonModel {
    sealed(key, R::written(record))
}

/// Reads the record that stands in an envelope for `key`. What is no
/// envelope for `key` is refused as `open` refuses it; an envelope that
/// holds no such record, for its shape. Either error names `key`.
pub fn decode<R: Record>(value: &Json, key: &str) -> (r: Result<R, FormatError>)
    ensures
        match r {
            Ok(record) => decoded::<R>(value@, key@) == Some(record@),
            Err(e) => decoded::<R>(value@, key@).is_none() && e@ == if opened(
                value@,
                key@,
            ).is_none() {
                refusal(value@, key@)
            } else {
                FormatErrorModel::ShapeMismatch { expected: key@ }
            },
        },
{
    let inner = match open(value, key) {
        Ok(inner) => inner,
        Err(e) => {
            return Err(e);
        },
    };
    match R::decode(inner) {
        Some(record) => Ok(record),
        None => Err(FormatError::ShapeMismatch { expected: String::from_str(key) }),
    }
}

/// Writes a record into an envelope for `key`.
pub fn encode<R: Record>(key: &str, record: &R) -> (r: Json)
    ensures
        r@ == encoded::<R>(key@, record@),
{
    seal(key, record.encode())
}

/// Every record that can be written comes back from the envelope that
/// holds it.
pub proof fn record_round_trip<R: Record>(key: Seq<char>, record: R::V)
    requires
        R::is_writable(record),
    ensures
        decoded::<R>(encoded::<R>(key, record), key) == Some(record),
{
    R::written_is_read_back(record);
}

/// An envelope that holds a canonical object comes back, entry for entry,
/// from the record that was read out of it, and that record can be
/// written.
pub proof fn envelope_round_trip<R: Record>(value: JsonModel, key: Seq<char>)
    requires
        decoded::<R>(value, key).is_some(),
        R::is_canonical(opened(value, key).unwrap()),
    ensures
        encoded::<R>(key, decoded::<R>(value, key).unwrap()) == value,
        R::is_writable(decoded::<R>(value, key).unwrap()),
{
    R::read_is_written_back(opened(value, key).unwrap());
    open_then_seal(value, key);
}

} // verus!
