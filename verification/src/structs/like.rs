//! The records of the file `data/like.js`.

use vstd::prelude::*;
use vstd::string::*;
use crate::envelope;
use crate::json::{entry_models, lookup, Json, JsonModel};
use crate::record::{
    count, distinct_keys, entry_of, filled, lemma_filled_lookup, lemma_filled_push,
    optional_text, optional_text_at, optional_text_value, push_slot, read_optional_text,
    read_text, text_at, text_entry, Record,
};

verus! {

/// An envelope: an object of the one entry `like`, which holds a [`Like`].
#[derive(Clone, Debug, PartialEq, Eq)]
pub struct LikeObject {
    /// The entry `like`.
    pub like: Like,
}

/// What a value of [`LikeObject`] holds.
pub struct LikeObjectModel {
    pub like: LikeModel,
}

impl View for LikeObject {
    type V = LikeObjectModel;

    open spec fn view(&self) -> LikeObjectModel {
        LikeObjectModel {
            like: self.like@,
        }
    }
}

impl Record for LikeObject {
    open spec fn read(value: JsonModel) -> Option<LikeObjectModel> {
        match envelope::opened(value, "like"@) {
            Some(inner) => match Like::read(inner) {
                Some(like) => Some(LikeObjectModel { like }),
                None => None,
            },
            None => None,
        }
    }

    open spec fn written(record: LikeObjectModel) -> JsonModel {
        envelope::sealed("like"@, Like::written(record.like))
    }

    open spec fn is_writable(record: LikeObjectModel) -> bool {
        Like::is_writable(record.like)
    }

    open spec fn is_canonical(value: JsonModel) -> bool {
        match envelope::opened(value, "like"@) {
            Some(inner) => Like::is_canonical(inner),
            None => false,
        }
    }

    proof fn written_is_read_back(record: LikeObjectModel) {
        Like::written_is_read_back(record.like);
    }

    proof fn read_is_written_back(value: JsonModel) {
        Like::read_is_written_back(envelope::opened(value, "like"@).unwrap());
        envelope::open_then_seal(value, "like"@);
    }

    fn decode(value: &Json) -> (r: Option<LikeObject>) {
        match envelope::open(value, "like") {
            Ok(inner) => match Like::decode(inner) {
                Some(like) => Some(LikeObject { like }),
                None => None,
            },
            Err(_) => None,
        }
    }

    fn encode(&self) -> (r: Json) {
        envelope::seal("like", self.like.encode())
    }
}

/// A tweet that this account liked.
#[derive(Clone, Debug, PartialEq, Eq)]
pub struct Like {
    /// The entry `tweetId`.
    pub tweet_id: String,
    /// The entry `fullText`, left out where there is none.
    pub full_text: Option<String>,
    /// The entry `expandedUrl`.
    pub expanded_url: String,
}

/// What a value of [`Like`] holds.
pub struct LikeModel {
    pub tweet_id: Seq<char>,
    pub full_text: Option<Seq<char>>,
    pub expanded_url: Seq<char>,
}

impl View for Like {
    type V = LikeModel;

    open spec fn view(&self) -> LikeModel {
        LikeModel {
            tweet_id: self.tweet_id@,
            full_text: optional_text(self.full_text),
            expanded_url: self.expanded_url@,
        }
    }
}

impl Like {
    /// The places of the entries of a record, in the order in which they
    /// are written, each with the value that writes its field.
    pub open spec fn slots(record: LikeModel) -> Seq<(Seq<char>, Option<JsonModel>)> {
        seq![
            ("tweetId"@, Some(JsonModel::Text(record.tweet_id))),
            ("fullText"@, optional_text_value(record.full_text)),
            ("expandedUrl"@, Some(JsonModel::Text(record.expanded_url))),
        ]
    }

    /// The places of the entries of a record, each with the value that
    /// `entries` has under its key.
    pub open spec fn slots_of(entries: Seq<(Seq<char>, JsonModel)>) -> Seq<
        (Seq<char>, Option<JsonModel>),
    > {
        seq![
            ("tweetId"@, lookup(entries, "tweetId"@)),
            ("fullText"@, lookup(entries, "fullText"@)),
            ("expandedUrl"@, lookup(entries, "expandedUrl"@)),
        ]
    }

    /// No two of the keys are the same.
    proof fn lemma_keys_differ()
        ensures
            "tweetId"@ != "fullText"@,
            "tweetId"@ != "expandedUrl"@,
            "fullText"@ != "expandedUrl"@,
    {
        reveal_strlit("tweetId");
        reveal_strlit("fullText");
        reveal_strlit("expandedUrl");
        assert("tweetId"@.len() == 7);
        assert("fullText"@.len() == 8);
        assert("expandedUrl"@.len() == 11);
    }

    /// The entries that write a record are as many as its fields that
    /// have a value, and each is found under its key.
    proof fn lemma_written(record: LikeModel)
        ensures
            filled(Self::slots(record)).len() == 2
                + count(optional_text_value(record.full_text)),
            lookup(filled(Self::slots(record)), "tweetId"@)
                == Some(JsonModel::Text(record.tweet_id)),
            lookup(filled(Self::slots(record)), "fullText"@)
                == optional_text_value(record.full_text),
            lookup(filled(Self::slots(record)), "expandedUrl"@)
                == Some(JsonModel::Text(record.expanded_url)),
            filled(Self::slots(record)) == Seq::<(Seq<char>, JsonModel)>::empty()
                + entry_of("tweetId"@, Some(JsonModel::Text(record.tweet_id)))
                + entry_of("fullText"@, optional_text_value(record.full_text))
                + entry_of("expandedUrl"@, Some(JsonModel::Text(record.expanded_url))),
    {
        let slots = Self::slots(record);
        Self::lemma_keys_differ();
        let s0 = Seq::<(Seq<char>, Option<JsonModel>)>::empty();
        let s1 = s0.push(slots[0]);
        lemma_filled_push(s0, slots[0].0, slots[0].1);
        let s2 = s1.push(slots[1]);
        lemma_filled_push(s1, slots[1].0, slots[1].1);
        let s3 = s2.push(slots[2]);
        lemma_filled_push(s2, slots[2].0, slots[2].1);
        assert(s3 =~= slots);
        assert(distinct_keys(slots));
        lemma_filled_lookup(slots, 0);
        lemma_filled_lookup(slots, 1);
        lemma_filled_lookup(slots, 2);
    }
}

impl Record for Like {
    open spec fn read(value: JsonModel) -> Option<LikeModel> {
        match value {
            JsonModel::Object(entries) => if entries.len() == 2
                + count(lookup(entries, "fullText"@))
                && text_at(entries, "tweetId"@).is_some()
                && optional_text_at(entries, "fullText"@).is_some()
                && text_at(entries, "expandedUrl"@).is_some()
            {
                Some(
                    LikeModel {
                        tweet_id: text_at(entries, "tweetId"@).unwrap(),
                        full_text: optional_text_at(entries, "fullText"@).unwrap(),
                        expanded_url: text_at(entries, "expandedUrl"@).unwrap(),
                    },
                )
            } else {
                None
            },
            _ => None,
        }
    }

    open spec fn written(record: LikeModel) -> JsonModel {
        JsonModel::Object(filled(Self::slots(record)))
    }

    open spec fn is_writable(record: LikeModel) -> bool {
        true
    }

    open spec fn is_canonical(value: JsonModel) -> bool {
        &&& value is Object
        &&& value->Object_0 == filled(Self::slots_of(value->Object_0))
    }

    proof fn written_is_read_back(record: LikeModel) {
        let entries = filled(Self::slots(record));
        Self::lemma_written(record);
        assert(Self::slots_of(entries) =~= Self::slots(record));
    }

    proof fn read_is_written_back(value: JsonModel) {
        let entries = value->Object_0;
        assert(Self::slots(Self::read(value).unwrap()) =~= Self::slots_of(entries));
    }

    fn decode(value: &Json) -> (r: Option<Like>) {
        let entries = match value.as_object() {
            Some(entries) => entries,
            None => {
                return None;
            },
        };
        let tweet_id = read_text(entries, "tweetId");
        let full_text = read_optional_text(entries, "fullText");
        let expanded_url = read_text(entries, "expandedUrl");
        if tweet_id.is_none() || full_text.is_none() || expanded_url.is_none() {
            return None;
        }
        let tweet_id = tweet_id.unwrap();
        let full_text = full_text.unwrap();
        let expanded_url = expanded_url.unwrap();
        let mut wanted: usize = 2;
        if full_text.is_some() {
            wanted += 1;
        }
        if entries.len() != wanted {
            return None;
        }
        Some(Like { tweet_id, full_text, expanded_url })
    }

    fn encode(&self) -> (r: Json) {
        let mut entries: Vec<(String, Json)> = Vec::new();
        proof {
            assert(entry_models(entries@) =~= Seq::empty());
        }
        push_slot(&mut entries, Some(text_entry("tweetId", &self.tweet_id)));
        push_slot(
            &mut entries,
            match &self.full_text {
                Some(held) => Some(text_entry("fullText", held)),
                None => None,
            },
        );
        push_slot(&mut entries, Some(text_entry("expandedUrl", &self.expanded_url)));
        proof {
            Self::lemma_written(self@);
        }
        Json::object(entries)
    }
}

} // verus!
