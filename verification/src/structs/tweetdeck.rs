//! The records of the file `data/tweetdeck.js`.

use vstd::prelude::*;
use vstd::string::*;
use crate::envelope;
use crate::json::{entry_models, lemma_lookup_at, lookup, Json, JsonModel};
use crate::record;
use crate::record::{
    count, distinct_keys, entry_of, filled, lemma_filled_lookup, lemma_filled_push,
    optional_text, optional_text_at, optional_text_value, push_slot, read_optional_text,
    read_records, read_text, record_models, records_entry, text_at, text_entry, Record,
};

verus! {

/// An envelope: an object of the one entry `deck`, which holds a [`Deck`].
#[derive(Clone, Debug, PartialEq, Eq)]
pub struct DeckObject {
    /// The entry `deck`.
    pub deck: Deck,
}

/// What a value of [`DeckObject`] holds.
pub struct DeckObjectModel {
    pub deck: DeckModel,
}

impl View for DeckObject {
    type V = DeckObjectModel;

    open spec fn view(&self) -> DeckObjectModel {
        DeckObjectModel {
            deck: self.deck@,
        }
    }
}

impl Record for DeckObject {
    open spec fn read(value: JsonModel) -> Option<DeckObjectModel> {
        match envelope::opened(value, "deck"@) {
            Some(inner) => match Deck::read(inner) {
                Some(deck) => Some(DeckObjectModel { deck }),
                None => None,
            },
            None => None,
        }
    }

    open spec fn written(record: DeckObjectModel) -> JsonModel {
        envelope::sealed("deck"@, Deck::written(record.deck))
    }

    open spec fn is_writable(record: DeckObjectModel) -> bool {
        Deck::is_writable(record.deck)
    }

    open spec fn is_canonical(value: JsonModel) -> bool {
        match envelope::opened(value, "deck"@) {
            Some(inner) => Deck::is_canonical(inner),
            None => false,
        }
    }

    proof fn written_is_read_back(record: DeckObjectModel) {
        Deck::written_is_read_back(record.deck);
    }

    proof fn read_is_written_back(value: JsonModel) {
        Deck::read_is_written_back(envelope::opened(value, "deck"@).unwrap());
        envelope::open_then_seal(value, "deck"@);
    }

    fn decode(value: &Json) -> (r: Option<DeckObject>) {
        match envelope::open(value, "deck") {
            Ok(inner) => match Deck::decode(inner) {
                Some(deck) => Some(DeckObject { deck }),
                None => None,
            },
            Err(_) => None,
        }
    }

    fn encode(&self) -> (r: Json) {
        envelope::seal("deck", self.deck.encode())
    }
}

/// A deck and its columns.
#[derive(Clone, Debug, PartialEq, Eq)]
pub struct Deck {
    /// The entry `title`.
    pub title: String,
    /// The entry `columns`.
    pub columns: Vec<DeckColumn>,
}

/// What a value of [`Deck`] holds.
pub struct DeckModel {
    pub title: Seq<char>,
    pub columns: Seq<DeckColumnModel>,
}

impl View for Deck {
    type V = DeckModel;

    open spec fn view(&self) -> DeckModel {
        DeckModel {
            title: self.title@,
            columns: record_models(self.columns@),
        }
    }
}

impl Deck {
    /// No two of the keys are the same.
    proof fn lemma_keys_differ()
        ensures
            "title"@ != "columns"@,
    {
        reveal_strlit("title");
        reveal_strlit("columns");
        assert("title"@.len() == 5);
        assert("columns"@.len() == 7);
    }
}

impl Record for Deck {
    open spec fn read(value: JsonModel) -> Option<DeckModel> {
        match value {
            JsonModel::Object(entries) => if entries.len() == 2
                && text_at(entries, "title"@).is_some()
                && record::records_at::<DeckColumn>(entries, "columns"@).is_some()
            {
                Some(
                    DeckModel {
                        title: text_at(entries, "title"@).unwrap(),
                        columns: record::records_at::<DeckColumn>(entries, "columns"@).unwrap(),
                    },
                )
            } else {
                None
            },
            _ => None,
        }
    }

    open spec fn written(record: DeckModel) -> JsonModel {
        JsonModel::Object(
            seq![
                ("title"@, JsonModel::Text(record.title)),
                ("columns"@, record::records_value::<DeckColumn>(record.columns)),
            ],
        )
    }

    open spec fn is_writable(record: DeckModel) -> bool {
        &&& record::all_writable::<DeckColumn>(record.columns)
    }

    open spec fn is_canonical(value: JsonModel) -> bool {
        &&& value is Object
        &&& value->Object_0.len() == 2
        &&& value->Object_0[0].0 == "title"@
        &&& value->Object_0[1].0 == "columns"@
        &&& record::all_canonical::<DeckColumn>(value->Object_0[1].1)
    }

    proof fn written_is_read_back(record: DeckModel) {
        let entries = Self::written(record)->Object_0;
        Self::lemma_keys_differ();
        lemma_lookup_at(entries, 0);
        lemma_lookup_at(entries, 1);
        record::lemma_records_value::<DeckColumn>(record.columns);
    }

    proof fn read_is_written_back(value: JsonModel) {
        let entries = value->Object_0;
        Self::lemma_keys_differ();
        lemma_lookup_at(entries, 0);
        lemma_lookup_at(entries, 1);
        record::lemma_records_of::<DeckColumn>(entries[1].1);
        assert(Self::written(Self::read(value).unwrap())->Object_0 =~= entries);
    }

    fn decode(value: &Json) -> (r: Option<Deck>) {
        let entries = match value.as_object() {
            Some(entries) => entries,
            None => {
                return None;
            },
        };
        if entries.len() != 2 {
            return None;
        }
        let title = match read_text(entries, "title") {
            Some(found) => found,
            None => {
                return None;
            },
        };
        let columns = match read_records::<DeckColumn>(entries, "columns") {
            Some(found) => found,
            None => {
                return None;
            },
        };
        Some(Deck { title, columns })
    }

    fn encode(&self) -> (r: Json) {
        let mut entries: Vec<(String, Json)> = Vec::new();
        entries.push(text_entry("title", &self.title));
        entries.push(records_entry("columns", &self.columns));
        proof {
            assert(entry_models(entries@) =~= Self::written(self@)->Object_0);
        }
        Json::object(entries)
    }
}

/// A column of a deck.
#[derive(Clone, Debug, PartialEq, Eq)]
pub struct DeckColumn {
    /// The entry `pathname`.
    pub pathname: String,
    /// The entry `title`, left out where there is none.
    pub title: Option<String>,
    /// The entry `query`, left out where there is none.
    pub query: Option<String>,
}

/// What a value of [`DeckColumn`] holds.
pub struct DeckColumnModel {
    pub pathname: Seq<char>,
    pub title: Option<Seq<char>>,
    pub query: Option<Seq<char>>,
}

impl View for DeckColumn {
    type V = DeckColumnModel;

    open spec fn view(&self) -> DeckColumnModel {
        DeckColumnModel {
            pathname: self.pathname@,
            title: optional_text(self.title),
            query: optional_text(self.query),
        }
    }
}

impl DeckColumn {
    /// The places of the entries of a record, in the order in which they
    /// are written, each with the value that writes its field.
    pub open spec fn slots(record: DeckColumnModel) -> Seq<(Seq<char>, Option<JsonModel>)> {
        seq![
            ("pathname"@, Some(JsonModel::Text(record.pathname))),
            ("title"@, optional_text_value(record.title)),
            ("query"@, optional_text_value(record.query)),
        ]
    }

    /// The places of the entries of a record, each with the value that
    /// `entries` has under its key.
    pub open spec fn slots_of(entries: Seq<(Seq<char>, JsonModel)>) -> Seq<
        (Seq<char>, Option<JsonModel>),
    > {
        seq![
            ("pathname"@, lookup(entries, "pathname"@)),
            ("title"@, lookup(entries, "title"@)),
            ("query"@, lookup(entries, "query"@)),
        ]
    }

    /// No two of the keys are the same.
    proof fn lemma_keys_differ()
        ensures
            "pathname"@ != "title"@,
            "pathname"@ != "query"@,
            "title"@ != "query"@,
    {
        reveal_strlit("pathname");
        reveal_strlit("title");
        reveal_strlit("query");
        assert("pathname"@.len() == 8);
        assert("title"@.len() == 5);
        assert("query"@.len() == 5);
        assert("title"@[0] != "query"@[0]);
    }

    /// The entries that write a record are as many as its fields that
    /// have a value, and each is found under its key.
    proof fn lemma_written(record: DeckColumnModel)
        ensures
            filled(Self::slots(record)).len() == 1
                + count(optional_text_value(record.title))
                + count(optional_text_value(record.query)),
            lookup(filled(Self::slots(record)), "pathname"@)
                == Some(JsonModel::Text(record.pathname)),
            lookup(filled(Self::slots(record)), "title"@) == optional_text_value(record.title),
            lookup(filled(Self::slots(record)), "query"@) == optional_text_value(record.query),
            filled(Self::slots(record)) == Seq::<(Seq<char>, JsonModel)>::empty()
                + entry_of("pathname"@, Some(JsonModel::Text(record.pathname)))
                + entry_of("title"@, optional_text_value(record.title))
                + entry_of("query"@, optional_text_value(record.query)),
    {
        let slots = Self::slots(record);
        Self::lemma_keys_differ();
        let s0 = Seq::<(Seq<char>, Option<JsonModel>)>::empty();
        let s1 = s0.push(slots[0]);
        lemma_filled_push(s0, slots[0].0, slots[0].1);
        let s2 = s1.push(slots[1]);
        lemma_filled_push(s1, slots[1].0, slots[1].1);
        let s3 = s2.push(slots[2]);
        lemma_filled_push(s2, slots[2].0, slots[2].1);
        assert(s3 =~= slots);
        assert(distinct_keys(slots));
        lemma_filled_lookup(slots, 0);
        lemma_filled_lookup(slots, 1);
        lemma_filled_lookup(slots, 2);
    }
}

impl Record for DeckColumn {
    open spec fn read(value: JsonModel) -> Option<DeckColumnModel> {
        match value {
            JsonModel::Object(entries) => if entries.len() == 1
                + count(lookup(entries, "title"@))
                + count(lookup(entries, "query"@))
                && text_at(entries, "pathname"@).is_some()
                && optional_text_at(entries, "title"@).is_some()
                && optional_text_at(entries, "query"@).is_some()
            {
                Some(
                    DeckColumnModel {
                        pathname: text_at(entries, "pathname"@).unwrap(),
                        title: optional_text_at(entries, "title"@).unwrap(),
                        query: optional_text_at(entries, "query"@).unwrap(),
                    },
                )
            } else {
                None
            },
            _ => None,
        }
    }

    open spec fn written(record: DeckColumnModel) -> JsonModel {
        JsonModel::Object(filled(Self::slots(record)))
    }

    open spec fn is_writable(record: DeckColumnModel) -> bool {
        true
    }

    open spec fn is_canonical(value: JsonModel) -> bool {
        &&& value is Object
        &&& value->Object_0 == filled(Self::slots_of(value->Object_0))
    }

    proof fn written_is_read_back(record: DeckColumnModel) {
        let entries = filled(Self::slots(record));
        Self::lemma_written(record);
        assert(Self::slots_of(entries) =~= Self::slots(record));
    }

    proof fn read_is_written_back(value: JsonModel) {
        let entries = value->Object_0;
        assert(Self::slots(Self::read(value).unwrap()) =~= Self::slots_of(entries));
    }

    fn decode(value: &Json) -> (r: Option<DeckColumn>) {
        let entries = match value.as_object() {
            Some(entries) => entries,
            None => {
                return None;
            },
        };
        let pathname = read_text(entries, "pathname");
        let title = read_optional_text(entries, "title");
        let query = read_optional_text(entries, "query");
        if pathname.is_none() || title.is_none() || query.is_none() {
            return None;
        }
        let pathname = pathname.unwrap();
        let title = title.unwrap();
        let query = query.unwrap();
        let mut wanted: usize = 1;
        if title.is_some() {
            wanted += 1;
        }
        if query.is_some() {
            wanted += 1;
        }
        if entries.len() != wanted {
            return None;
        }
        Some(DeckColumn { pathname, title, query })
    }

    fn encode(&self) -> (r: Json) {
        let mut entries: Vec<(String, Json)> = Vec::new();
        proof {
            assert(entry_models(entries@) =~= Seq::empty());
        }
        push_slot(&mut entries, Some(text_entry("pathname", &self.pathname)));
        push_slot(
            &mut entries,
            match &self.title {
                Some(held) => Some(text_entry("title", held)),
                None => None,
            },
        );
        push_slot(
            &mut entries,
            match &self.query {
                Some(held) => Some(text_entry("query", held)),
                None => None,
            },
        );
        proof {
            Self::lemma_written(self@);
        }
        Json::object(entries)
    }
}

} // verus!
