//! JSON values as the decoders take them and the encoders give them. An
//! object keeps its entries in the order of the source, and a number keeps
//! the text it was written with.

use vstd::prelude::*;
use crate::text::same_text;

verus! {

/// A JSON value.
#[derive(Debug, PartialEq, Eq)]
pub enum Json {
    Null,
    Bool(bool),
    /// A number, as its text.
    Number(String),
    Text(String),
    Array(Vec<Json>),
    /// The entries of an object, key and value, in order.
    Object(Vec<(String, Json)>),
}

/// What a JSON value holds, over plain sequences.
pub enum JsonModel {
    Null,
    Bool(bool),
    Number(Seq<char>),
    Text(Seq<char>),
    Array(Seq<JsonModel>),
    Object(Seq<(Seq<char>, JsonModel)>),
}

/// What `value` holds.
pub open spec fn model_of(value: Json) -> JsonModel
    decreases value,
{
    match value {
        Json::Null => JsonModel::Null,
        Json::Bool(b) => JsonModel::Bool(b),
        Json::Number(n) => JsonModel::Number(n@),
        Json::Text(t) => JsonModel::Text(t@),
        Json::Array(items) => JsonModel::Array(
            Seq::new(
                items@.len(),
                |i: int|
                    if 0 <= i < items.len() {
                        model_of(items[i])
                    } else {
                        JsonModel::Null
                    },
            ),
        ),
        Json::Object(entries) => JsonModel::Object(
            Seq::new(
                entries@.len(),
                |i: int|
                    if 0 <= i < entries.len() {
                        (entries[i].0@, model_of(entries[i].1))
                    } else {
                        (Seq::empty(), JsonModel::Null)
                    },
            ),
        ),
    }
}

impl View for Json {
    type V = JsonModel;

    open spec fn view(&self) -> JsonModel {
        model_of(*self)
    }
}

/// What the values of a sequence hold, one by one.
pub open spec fn models(items: Seq<Json>) -> Seq<JsonModel> {
    Seq::new(items.len(), |i: int| items[i]@)
}

/// What the entries of an object hold, one by one.
pub open spec fn entry_models(entries: Seq<(String, Json)>) -> Seq<(Seq<char>, JsonModel)> {
    Seq::new(entries.len(), |i: int| (entries[i].0@, entries[i].1@))
}

/// The value of the first entry under `key`.
pub open spec fn lookup(entries: Seq<(Seq<char>, JsonModel)>, key: Seq<char>) -> Option<
    JsonModel,
>
    decreases entries.len(),
{
    if entries.len() == 0 {
        None
    } else if entries[0].0 == key {
        Some(entries[0].1)
    } else {
        lookup(entries.subrange(1, entries.len() as int), key)
    }
}

/// An array holds what its items hold.
pub proof fn lemma_array_view(items: Vec<Json>)
    ensures
        Json::Array(items)@ == JsonModel::Array(models(items@)),
{
    assert(Json::Array(items)@->Array_0 =~= models(items@));
}

/// An object holds what its entries hold.
pub proof fn lemma_object_view(entries: Vec<(String, Json)>)
    ensures
        Json::Object(entries)@ == JsonModel::Object(entry_models(entries@)),
{
    let held = Json::Object(entries)@->Object_0;
    assert(held =~= entry_models(entries@));
}

/// Where the key of an entry stands at no earlier place, the entry is what
/// a lookup of its key finds.
pub proof fn lemma_lookup_at(entries: Seq<(Seq<char>, JsonModel)>, at: int)
    requires
        0 <= at < entries.len(),
        forall|i: int| 0 <= i < at ==> (#[trigger] entries[i]).0 != entries[at].0,
    ensures
        lookup(entries, entries[at].0) == Some(entries[at].1),
    decreases at,
{
    if at > 0 {
        let rest = entries.subrange(1, entries.len() as int);
        assert(rest[at - 1] == entries[at]);
        assert forall|i: int| 0 <= i < at - 1 implies (#[trigger] rest[i]).0 != rest[at - 1].0 by {
            assert(rest[i] == entries[i + 1]);
        }
        lemma_lookup_at(rest, at - 1);
    }
}

impl Json {
    /// The truth value, where the value is one.
    pub fn as_bool(&self) -> (r: Option<bool>)
        ensures
            match r {
                Some(b) => self@ == JsonModel::Bool(b),
                None => !(self@ is Bool),
            },
    {
        match self {
            Json::Bool(b) => Some(*b),
            _ => None,
        }
    }

    /// The text, where the value is a string.
    pub fn as_text(&self) -> (r: Option<&String>)
        ensures
            match r {
                Some(text) => self@ == JsonModel::Text(text@),
                None => !(self@ is Text),
            },
    {
        match self {
            Json::Text(text) => Some(text),
            _ => None,
        }
    }

    /// The items, where the value is an array.
    pub fn as_array(&self) -> (r: Option<&Vec<Json>>)
        ensures
            match r {
                Some(items) => self@ == JsonModel::Array(models(items@)),
                None => !(self@ is Array),
            },
    {
        match self {
            Json::Array(items) => {
                proof {
                    lemma_array_view(*items);
                }
                Some(items)
            },
            _ => None,
        }
    }

    /// The entries, where the value is an object.
    pub fn as_object(&self) -> (r: Option<&Vec<(String, Json)>>)
        ensures
            match r {
                Some(entries) => self@ == JsonModel::Object(entry_models(entries@)),
                None => !(self@ is Object),
            },
    {
        match self {
            Json::Object(entries) => {
                proof {
                    lemma_object_view(*entries);
                }
                Some(entries)
            },
            _ => None,
        }
    }

    /// The array that holds `items`.
    pub fn array(items: Vec<Json>) -> (r: Json)
        ensures
            r@ == JsonModel::Array(models(items@)),
    {
        proof {
            lemma_array_view(items);
        }
        Json::Array(items)
    }

    /// The object that holds `entries`.
    pub fn object(entries: Vec<(String, Json)>) -> (r: Json)
        ensures
            r@ == JsonModel::Object(entry_models(entries@)),
    {
        proof {
            lemma_object_view(entries);
        }
        Json::Object(entries)
    }
}

/// The value of the first of `entries` under `key`.
pub fn find<'a>(entries: &'a Vec<(String, Json)>, key: &str) -> (r: Option<&'a Json>)
    ensures
        match r {
            Some(value) => lookup(entry_models(entries@), key@) == Some(value@),
            None => lookup(entry_models(entries@), key@).is_none(),
        },
{
    let ghost all = entry_models(entries@);
    let n: usize = entries.len();
    let mut i: usize = 0;
    proof {
        assert(all.subrange(0, n as int) =~= all);
    }
    while i < n
        invariant
            n == entries@.len(),
            i <= n,
            all == entry_models(entries@),
            lookup(all, key@) == lookup(all.subrange(i as int, n as int), key@),
        decreases n - i,
    {
        let ghost rest = all.subrange(i as int, n as int);
        proof {
            assert(rest[0] == all[i as int]);
            assert(rest.subrange(1, rest.len() as int) =~= all.subrange(i + 1, n as int));
        }
        if same_text(entries[i].0.as_str(), key) {
            return Some(&entries[i].1);
        }
        i += 1;
    }
    proof {
        assert(all.subrange(n as int, n as int).len() == 0);
    }
    None
}

} // verus!
