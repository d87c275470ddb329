//! The records of the file `data/tweets.js`.

use vstd::prelude::*;
use vstd::string::*;
use crate::convert::date_time_iso_8601;
use crate::envelope;
use crate::instant::{Civil, Instant};
use crate::json::{entry_models, lemma_lookup_at, lookup, Json, JsonModel};
use crate::record;
use crate::record::{
    count, created_at, created_canonical, created_entry, created_value, created_writable,
    distinct_keys, entry_of, filled, flag_at, flag_entry, indices_at, indices_canonical,
    indices_entry, indices_value, instant_at, instant_entry, lemma_created_at,
    lemma_created_value, lemma_filled_lookup, lemma_filled_push, lemma_indices_at,
    lemma_indices_value, lemma_number_at, lemma_number_value, lemma_texts_of, lemma_texts_value,
    number_at, number_canonical, number_entry, number_value, optional_flag_at,
    optional_flag_value, optional_text, optional_text_at, optional_text_value, push_slot,
    read_created, read_flag, read_indices, read_instant, read_number, read_optional_flag,
    read_optional_text, read_record, read_records, read_text, read_texts, record_at,
    record_entry, record_models, records_entry, text_at, text_entry, texts_at, texts_entry,
    texts_value, Record,
};
use crate::text::texts;

verus! {

/// An envelope: an object of the one entry `tweet`, which holds a [`Tweet`].
#[derive(Clone, Debug, PartialEq, Eq)]
pub struct TweetObject {
    /// The entry `tweet`.
    pub tweet: Tweet,
}

/// What a value of [`TweetObject`] holds.
pub struct TweetObjectModel {
    pub tweet: TweetModel,
}

impl View for TweetObject {
    type V = TweetObjectModel;

    open spec fn view(&self) -> TweetObjectModel {
        TweetObjectModel {
            tweet: self.tweet@,
        }
    }
}

impl Record for TweetObject {
    open spec fn read(value: JsonModel) -> Option<TweetObjectModel> {
        match envelope::opened(value, "tweet"@) {
            Some(inner) => match Tweet::read(inner) {
                Some(tweet) => Some(TweetObjectModel { tweet }),
                None => None,
            },
            None => None,
        }
    }

    open spec fn written(record: TweetObjectModel) -> JsonModel {
        envelope::sealed("tweet"@, Tweet::written(record.tweet))
    }

    open spec fn is_writable(record: TweetObjectModel) -> bool {
        Tweet::is_writable(record.tweet)
    }

    open spec fn is_canonical(value: JsonModel) -> bool {
        match envelope::opened(value, "tweet"@) {
            Some(inner) => Tweet::is_canonical(inner),
            None => false,
        }
    }

    proof fn written_is_read_back(record: TweetObjectModel) {
        Tweet::written_is_read_back(record.tweet);
    }

    proof fn read_is_written_back(value: JsonModel) {
        Tweet::read_is_written_back(envelope::opened(value, "tweet"@).unwrap());
        envelope::open_then_seal(value, "tweet"@);
    }

    fn decode(value: &Json) -> (r: Option<TweetObject>) {
        match envelope::open(value, "tweet") {
            Ok(inner) => match Tweet::decode(inner) {
                Some(tweet) => Some(TweetObject { tweet }),
                None => None,
            },
            Err(_) => None,
        }
    }

    fn encode(&self) -> (r: Json) {
        envelope::seal("tweet", self.tweet.encode())
    }
}

/// A tweet with its content, and what is counted and known of it.
#[derive(Clone, Debug, PartialEq, Eq)]
pub struct Tweet {
    /// The entry `edit_info`.
    pub edit_info: TweetEditInfo,
    /// The entry `retweeted`.
    pub retweeted: bool,
    /// The entry `source`.
    pub source: String,
    /// The entry `entities`.
    pub entities: TweetEntities,
    /// The entry `display_text_range`, in the encoding of `convert::indices`.
    pub display_text_range: [u64; 2],
    /// The entry `favorite_count`, in the encoding of
    /// `convert::number_like_string`.
    pub favorite_count: u64,
    /// The entry `in_reply_to_status_id_str`, left out where there is none.
    pub in_reply_to_status_id_str: Option<String>,
    /// The entry `id_str`.
    pub id_str: String,
    /// The entry `in_reply_to_user_id`, left out where there is none.
    pub in_reply_to_user_id: Option<String>,
    /// The entry `truncated`.
    pub truncated: bool,
    /// The entry `retweet_count`, in the encoding of
    /// `convert::number_like_string`.
    pub retweet_count: u64,
    /// The entry `id`.
    pub id: String,
    /// The entry `in_reply_to_status_id`, left out where there is none.
    pub in_reply_to_status_id: Option<String>,
    /// The entry `possibly_sensitive`, left out where there is none.
    pub possibly_sensitive: Option<bool>,
    /// The entry `created_at`, in the encoding of `convert::created_at`.
    pub created_at: Instant,
    /// The entry `favorited`.
    pub favorited: bool,
    /// The entry `full_text`.
    pub full_text: String,
    /// The entry `lang`.
    pub lang: String,
    /// The entry `in_reply_to_screen_name`, left out where there is none.
    pub in_reply_to_screen_name: Option<String>,
    /// The entry `in_reply_to_user_id_str`, left out where there is none.
    pub in_reply_to_user_id_str: Option<String>,
}

/// What a value of [`Tweet`] holds.
pub struct TweetModel {
    pub edit_info: TweetEditInfoModel,
    pub retweeted: bool,
    pub source: Seq<char>,
    pub entities: TweetEntitiesModel,
    pub display_text_range: (u64, u64),
    pub favorite_count: u64,
    pub in_reply_to_status_id_str: Option<Seq<char>>,
    pub id_str: Seq<char>,
    pub in_reply_to_user_id: Option<Seq<char>>,
    pub truncated: bool,
    pub retweet_count: u64,
    pub id: Seq<char>,
    pub in_reply_to_status_id: Option<Seq<char>>,
    pub possibly_sensitive: Option<bool>,
    pub created_at: Civil,
    pub favorited: bool,
    pub full_text: Seq<char>,
    pub lang: Seq<char>,
    pub in_reply_to_screen_name: Option<Seq<char>>,
    pub in_reply_to_user_id_str: Option<Seq<char>>,
}

impl View for Tweet {
    type V = TweetModel;

    open spec fn view(&self) -> TweetModel {
        TweetModel {
            edit_info: self.edit_info@,
            retweeted: self.retweeted,
            source: self.source@,
            entities: self.entities@,
            display_text_range: (self.display_text_range[0], self.display_text_range[1]),
            favorite_count: self.favorite_count,
            in_reply_to_status_id_str: optional_text(self.in_reply_to_status_id_str),
            id_str: self.id_str@,
            in_reply_to_user_id: optional_text(self.in_reply_to_user_id),
            truncated: self.truncated,
            retweet_count: self.retweet_count,
            id: self.id@,
            in_reply_to_status_id: optional_text(self.in_reply_to_status_id),
            possibly_sensitive: self.possibly_sensitive,
            created_at: self.created_at@,
            favorited: self.favorited,
            full_text: self.full_text@,
            lang: self.lang@,
            in_reply_to_screen_name: optional_text(self.in_reply_to_screen_name),
            in_reply_to_user_id_str: optional_text(self.in_reply_to_user_id_str),
        }
    }
}

impl Tweet {
    /// The places of the entries of a record, in the order in which they
    /// are written, each with the value that writes its field.
    pub open spec fn slots(record: TweetModel) -> Seq<(Seq<char>, Option<JsonModel>)> {
        seq![
            ("edit_info"@, Some(TweetEditInfo::written(record.edit_info))),
            ("retweeted"@, Some(JsonModel::Bool(record.retweeted))),
            ("source"@, Some(JsonModel::Text(record.source))),
            ("entities"@, Some(TweetEntities::written(record.entities))),
            ("display_text_range"@, Some(indices_value(record.display_text_range))),
            ("favorite_count"@, Some(number_value(record.favorite_count))),
            ("in_reply_to_status_id_str"@, optional_text_value(record.in_reply_to_status_id_str)),
            ("id_str"@, Some(JsonModel::Text(record.id_str))),
            ("in_reply_to_user_id"@, optional_text_value(record.in_reply_to_user_id)),
            ("truncated"@, Some(JsonModel::Bool(record.truncated))),
            ("retweet_count"@, Some(number_value(record.retweet_count))),
            ("id"@, Some(JsonModel::Text(record.id))),
            ("in_reply_to_status_id"@, optional_text_value(record.in_reply_to_status_id)),
            ("possibly_sensitive"@, optional_flag_value(record.possibly_sensitive)),
            ("created_at"@, Some(created_value(record.created_at))),
            ("favorited"@, Some(JsonModel::Bool(record.favorited))),
            ("full_text"@, Some(JsonModel::Text(record.full_text))),
            ("lang"@, Some(JsonModel::Text(record.lang))),
            ("in_reply_to_screen_name"@, optional_text_value(record.in_reply_to_screen_name)),
            ("in_reply_to_user_id_str"@, optional_text_value(record.in_reply_to_user_id_str)),
        ]
    }

    /// The places of the entries of a record, each with the value that
    /// `entries` has under its key.
    pub open spec fn slots_of(entries: Seq<(Seq<char>, JsonModel)>) -> Seq<
        (Seq<char>, Option<JsonModel>),
    > {
        seq![
            ("edit_info"@, lookup(entries, "edit_info"@)),
            ("retweeted"@, lookup(entries, "retweeted"@)),
            ("source"@, lookup(entries, "source"@)),
            ("entities"@, lookup(entries, "entities"@)),
            ("display_text_range"@, lookup(entries, "display_text_range"@)),
            ("favorite_count"@, lookup(entries, "favorite_count"@)),
            ("in_reply_to_status_id_str"@, lookup(entries, "in_reply_to_status_id_str"@)),
            ("id_str"@, lookup(entries, "id_str"@)),
            ("in_reply_to_user_id"@, lookup(entries, "in_reply_to_user_id"@)),
            ("truncated"@, lookup(entries, "truncated"@)),
            ("retweet_count"@, lookup(entries, "retweet_count"@)),
            ("id"@, lookup(entries, "id"@)),
            ("in_reply_to_status_id"@, lookup(entries, "in_reply_to_status_id"@)),
            ("possibly_sensitive"@, lookup(entries, "possibly_sensitive"@)),
            ("created_at"@, lookup(entries, "created_at"@)),
            ("favorited"@, lookup(entries, "favorited"@)),
            ("full_text"@, lookup(entries, "full_text"@)),
            ("lang"@, lookup(entries, "lang"@)),
            ("in_reply_to_screen_name"@, lookup(entries, "in_reply_to_screen_name"@)),
            ("in_reply_to_user_id_str"@, lookup(entries, "in_reply_to_user_id_str"@)),
        ]
    }

    /// No two of the keys are the same.
    proof fn lemma_keys_differ()
        ensures
            "edit_info"@ != "retweeted"@,
            "edit_info"@ != "source"@,
            "edit_info"@ != "entities"@,
            "edit_info"@ != "display_text_range"@,
            "edit_info"@ != "favorite_count"@,
            "edit_info"@ != "in_reply_to_status_id_str"@,
            "edit_info"@ != "id_str"@,
            "edit_info"@ != "in_reply_to_user_id"@,
            "edit_info"@ != "truncated"@,
            "edit_info"@ != "retweet_count"@,
            "edit_info"@ != "id"@,
            "edit_info"@ != "in_reply_to_status_id"@,
            "edit_info"@ != "possibly_sensitive"@,
            "edit_info"@ != "created_at"@,
            "edit_info"@ != "favorited"@,
            "edit_info"@ != "full_text"@,
            "edit_info"@ != "lang"@,
            "edit_info"@ != "in_reply_to_screen_name"@,
            "edit_info"@ != "in_reply_to_user_id_str"@,
            "retweeted"@ != "source"@,
            "retweeted"@ != "entities"@,
            "retweeted"@ != "display_text_range"@,
            "retweeted"@ != "favorite_count"@,
            "retweeted"@ != "in_reply_to_status_id_str"@,
            "retweeted"@ != "id_str"@,
            "retweeted"@ != "in_reply_to_user_id"@,
            "retweeted"@ != "truncated"@,
            "retweeted"@ != "retweet_count"@,
            "retweeted"@ != "id"@,
            "retweeted"@ != "in_reply_to_status_id"@,
            "retweeted"@ != "possibly_sensitive"@,
            "retweeted"@ != "created_at"@,
            "retweeted"@ != "favorited"@,
            "retweeted"@ != "full_text"@,
            "retweeted"@ != "lang"@,
            "retweeted"@ != "in_reply_to_screen_name"@,
            "retweeted"@ != "in_reply_to_user_id_str"@,
            "source"@ != "entities"@,
            "source"@ != "display_text_range"@,
            "source"@ != "favorite_count"@,
            "source"@ != "in_reply_to_status_id_str"@,
            "source"@ != "id_str"@,
            "source"@ != "in_reply_to_user_id"@,
            "source"@ != "truncated"@,
            "source"@ != "retweet_count"@,
            "source"@ != "id"@,
            "source"@ != "in_reply_to_status_id"@,
            "source"@ != "possibly_sensitive"@,
            "source"@ != "created_at"@,
            "source"@ != "favorited"@,
            "source"@ != "full_text"@,
            "source"@ != "lang"@,
            "source"@ != "in_reply_to_screen_name"@,
            "source"@ != "in_reply_to_user_id_str"@,
            "entities"@ != "display_text_range"@,
            "entities"@ != "favorite_count"@,
            "entities"@ != "in_reply_to_status_id_str"@,
            "entities"@ != "id_str"@,
            "entities"@ != "in_reply_to_user_id"@,
            "entities"@ != "truncated"@,
            "entities"@ != "retweet_count"@,
            "entities"@ != "id"@,
            "entities"@ != "in_reply_to_status_id"@,
            "entities"@ != "possibly_sensitive"@,
            "entities"@ != "created_at"@,
            "entities"@ != "favorited"@,
            "entities"@ != "full_text"@,
            "entities"@ != "lang"@,
            "entities"@ != "in_reply_to_screen_name"@,
            "entities"@ != "in_reply_to_user_id_str"@,
            "display_text_range"@ != "favorite_count"@,
            "display_text_range"@ != "in_reply_to_status_id_str"@,
            "display_text_range"@ != "id_str"@,
            "display_text_range"@ != "in_reply_to_user_id"@,
            "display_text_range"@ != "truncated"@,
            "display_text_range"@ != "retweet_count"@,
            "display_text_range"@ != "id"@,
            "display_text_range"@ != "in_reply_to_status_id"@,
            "display_text_range"@ != "possibly_sensitive"@,
            "display_text_range"@ != "created_at"@,
            "display_text_range"@ != "favorited"@,
            "display_text_range"@ != "full_text"@,
            "display_text_range"@ != "lang"@,
            "display_text_range"@ != "in_reply_to_screen_name"@,
            "display_text_range"@ != "in_reply_to_user_id_str"@,
            "favorite_count"@ != "in_reply_to_status_id_str"@,
            "favorite_count"@ != "id_str"@,
            "favorite_count"@ != "in_reply_to_user_id"@,
            "favorite_count"@ != "truncated"@,
            "favorite_count"@ != "retweet_count"@,
            "favorite_count"@ != "id"@,
            "favorite_count"@ != "in_reply_to_status_id"@,
            "favorite_count"@ != "possibly_sensitive"@,
            "favorite_count"@ != "created_at"@,
            "favorite_count"@ != "favorited"@,
            "favorite_count"@ != "full_text"@,
            "favorite_count"@ != "lang"@,
            "favorite_count"@ != "in_reply_to_screen_name"@,
            "favorite_count"@ != "in_reply_to_user_id_str"@,
            "in_reply_to_status_id_str"@ != "id_str"@,
            "in_reply_to_status_id_str"@ != "in_reply_to_user_id"@,
            "in_reply_to_status_id_str"@ != "truncated"@,
            "in_reply_to_status_id_str"@ != "retweet_count"@,
            "in_reply_to_status_id_str"@ != "id"@,
            "in_reply_to_status_id_str"@ != "in_reply_to_status_id"@,
            "in_reply_to_status_id_str"@ != "possibly_sensitive"@,
            "in_reply_to_status_id_str"@ != "created_at"@,
            "in_reply_to_status_id_str"@ != "favorited"@,
            "in_reply_to_status_id_str"@ != "full_text"@,
            "in_reply_to_status_id_str"@ != "lang"@,
            "in_reply_to_status_id_str"@ != "in_reply_to_screen_name"@,
            "in_reply_to_status_id_str"@ != "in_reply_to_user_id_str"@,
            "id_str"@ != "in_reply_to_user_id"@,
            "id_str"@ != "truncated"@,
            "id_str"@ != "retweet_count"@,
            "id_str"@ != "id"@,
            "id_str"@ != "in_reply_to_status_id"@,
            "id_str"@ != "possibly_sensitive"@,
            "id_str"@ != "created_at"@,
            "id_str"@ != "favorited"@,
            "id_str"@ != "full_text"@,
            "id_str"@ != "lang"@,
            "id_str"@ != "in_reply_to_screen_name"@,
            "id_str"@ != "in_reply_to_user_id_str"@,
            "in_reply_to_user_id"@ != "truncated"@,
            "in_reply_to_user_id"@ != "retweet_count"@,
            "in_reply_to_user_id"@ != "id"@,
            "in_reply_to_user_id"@ != "in_reply_to_status_id"@,
            "in_reply_to_user_id"@ != "possibly_sensitive"@,
            "in_reply_to_user_id"@ != "created_at"@,
            "in_reply_to_user_id"@ != "favorited"@,
            "in_reply_to_user_id"@ != "full_text"@,
            "in_reply_to_user_id"@ != "lang"@,
            "in_reply_to_user_id"@ != "in_reply_to_screen_name"@,
            "in_reply_to_user_id"@ != "in_reply_to_user_id_str"@,
            "truncated"@ != "retweet_count"@,
            "truncated"@ != "id"@,
            "truncated"@ != "in_reply_to_status_id"@,
            "truncated"@ != "possibly_sensitive"@,
            "truncated"@ != "created_at"@,
            "truncated"@ != "favorited"@,
            "truncated"@ != "full_text"@,
            "truncated"@ != "lang"@,
            "truncated"@ != "in_reply_to_screen_name"@,
            "truncated"@ != "in_reply_to_user_id_str"@,
            "retweet_count"@ != "id"@,
            "retweet_count"@ != "in_reply_to_status_id"@,
            "retweet_count"@ != "possibly_sensitive"@,
            "retweet_count"@ != "created_at"@,
            "retweet_count"@ != "favorited"@,
            "retweet_count"@ != "full_text"@,
            "retweet_count"@ != "lang"@,
            "retweet_count"@ != "in_reply_to_screen_name"@,
            "retweet_count"@ != "in_reply_to_user_id_str"@,
            "id"@ != "in_reply_to_status_id"@,
            "id"@ != "possibly_sensitive"@,
            "id"@ != "created_at"@,
            "id"@ != "favorited"@,
            "id"@ != "full_text"@,
            "id"@ != "lang"@,
            "id"@ != "in_reply_to_screen_name"@,
            "id"@ != "in_reply_to_user_id_str"@,
            "in_reply_to_status_id"@ != "possibly_sensitive"@,
            "in_reply_to_status_id"@ != "created_at"@,
            "in_reply_to_status_id"@ != "favorited"@,
            "in_reply_to_status_id"@ != "full_text"@,
            "in_reply_to_status_id"@ != "lang"@,
            "in_reply_to_status_id"@ != "in_reply_to_screen_name"@,
            "in_reply_to_status_id"@ != "in_reply_to_user_id_str"@,
            "possibly_sensitive"@ != "created_at"@,
            "possibly_sensitive"@ != "favorited"@,
            "possibly_sensitive"@ != "full_text"@,
            "possibly_sensitive"@ != "lang"@,
            "possibly_sensitive"@ != "in_reply_to_screen_name"@,
            "possibly_sensitive"@ != "in_reply_to_user_id_str"@,
            "created_at"@ != "favorited"@,
            "created_at"@ != "full_text"@,
            "created_at"@ != "lang"@,
            "created_at"@ != "in_reply_to_screen_name"@,
            "created_at"@ != "in_reply_to_user_id_str"@,
            "favorited"@ != "full_text"@,
            "favorited"@ != "lang"@,
            "favorited"@ != "in_reply_to_screen_name"@,
            "favorited"@ != "in_reply_to_user_id_str"@,
            "full_text"@ != "lang"@,
            "full_text"@ != "in_reply_to_screen_name"@,
            "full_text"@ != "in_reply_to_user_id_str"@,
            "lang"@ != "in_reply_to_screen_name"@,
            "lang"@ != "in_reply_to_user_id_str"@,
            "in_reply_to_screen_name"@ != "in_reply_to_user_id_str"@,
    {
        reveal_strlit("edit_info");
        reveal_strlit("retweeted");
        reveal_strlit("source");
        reveal_strlit("entities");
        reveal_strlit("display_text_range");
        reveal_strlit("favorite_count");
        reveal_strlit("in_reply_to_status_id_str");
        reveal_strlit("id_str");
        reveal_strlit("in_reply_to_user_id");
        reveal_strlit("truncated");
        reveal_strlit("retweet_count");
        reveal_strlit("id");
        reveal_strlit("in_reply_to_status_id");
        reveal_strlit("possibly_sensitive");
        reveal_strlit("created_at");
        reveal_strlit("favorited");
        reveal_strlit("full_text");
        reveal_strlit("lang");
        reveal_strlit("in_reply_to_screen_name");
        reveal_strlit("in_reply_to_user_id_str");
        assert("edit_info"@.len() == 9);
        assert("retweeted"@.len() == 9);
        assert("source"@.len() == 6);
        assert("entities"@.len() == 8);
        assert("display_text_range"@.len() == 18);
        assert("favorite_count"@.len() == 14);
        assert("in_reply_to_status_id_str"@.len() == 25);
        assert("id_str"@.len() == 6);
        assert("in_reply_to_user_id"@.len() == 19);
        assert("truncated"@.len() == 9);
        assert("retweet_count"@.len() == 13);
        assert("id"@.len() == 2);
        assert("in_reply_to_status_id"@.len() == 21);
        assert("possibly_sensitive"@.len() == 18);
        assert("created_at"@.len() == 10);
        assert("favorited"@.len() == 9);
        assert("full_text"@.len() == 9);
        assert("lang"@.len() == 4);
        assert("in_reply_to_screen_name"@.len() == 23);
        assert("in_reply_to_user_id_str"@.len() == 23);
        assert("edit_info"@[0] != "retweeted"@[0]);
        assert("edit_info"@[0] != "truncated"@[0]);
        assert("edit_info"@[0] != "favorited"@[0]);
        assert("edit_info"@[0] != "full_text"@[0]);
        assert("retweeted"@[0] != "truncated"@[0]);
        assert("retweeted"@[0] != "favorited"@[0]);
        assert("retweeted"@[0] != "full_text"@[0]);
        assert("source"@[0] != "id_str"@[0]);
        assert("display_text_range"@[0] != "possibly_sensitive"@[0]);
        assert("truncated"@[0] != "favorited"@[0]);
        assert("truncated"@[0] != "full_text"@[0]);
        assert("favorited"@[1] != "full_text"@[1]);
        assert("in_reply_to_screen_name"@[12] != "in_reply_to_user_id_str"@[12]);
    }

    /// The entries that write a record are as many as its fields that
    /// have a value, and each is found under its key.
    proof fn lemma_written(record: TweetModel)
        ensures
            filled(Self::slots(record)).len() == 14
                + count(optional_text_value(record.in_reply_to_status_id_str))
                + count(optional_text_value(record.in_reply_to_user_id))
                + count(optional_text_value(record.in_reply_to_status_id))
                + count(optional_flag_value(record.possibly_sensitive))
                + count(optional_text_value(record.in_reply_to_screen_name))
                + count(optional_text_value(record.in_reply_to_user_id_str)),
            lookup(filled(Self::slots(record)), "edit_info"@)
                == Some(TweetEditInfo::written(record.edit_info)),
            lookup(filled(Self::slots(record)), "retweeted"@)
                == Some(JsonModel::Bool(record.retweeted)),
            lookup(filled(Self::slots(record)), "source"@) == Some(JsonModel::Text(record.source)),
            lookup(filled(Self::slots(record)), "entities"@)
                == Some(TweetEntities::written(record.entities)),
            lookup(filled(Self::slots(record)), "display_text_range"@)
                == Some(indices_value(record.display_text_range)),
            lookup(filled(Self::slots(record)), "favorite_count"@)
                == Some(number_value(record.favorite_count)),
            lookup(filled(Self::slots(record)), "in_reply_to_status_id_str"@)
                == optional_text_value(record.in_reply_to_status_id_str),
            lookup(filled(Self::slots(record)), "id_str"@) == Some(JsonModel::Text(record.id_str)),
            lookup(filled(Self::slots(record)), "in_reply_to_user_id"@)
                == optional_text_value(record.in_reply_to_user_id),
            lookup(filled(Self::slots(record)), "truncated"@)
                == Some(JsonModel::Bool(record.truncated)),
            lookup(filled(Self::slots(record)), "retweet_count"@)
                == Some(number_value(record.retweet_count)),
            lookup(filled(Self::slots(record)), "id"@) == Some(JsonModel::Text(record.id)),
            lookup(filled(Self::slots(record)), "in_reply_to_status_id"@)
                == optional_text_value(record.in_reply_to_status_id),
            lookup(filled(Self::slots(record)), "possibly_sensitive"@)
                == optional_flag_value(record.possibly_sensitive),
            lookup(filled(Self::slots(record)), "created_at"@)
                == Some(created_value(record.created_at)),
            lookup(filled(Self::slots(record)), "favorited"@)
                == Some(JsonModel::Bool(record.favorited)),
            lookup(filled(Self::slots(record)), "full_text"@)
                == Some(JsonModel::Text(record.full_text)),
            lookup(filled(Self::slots(record)), "lang"@) == Some(JsonModel::Text(record.lang)),
            lookup(filled(Self::slots(record)), "in_reply_to_screen_name"@)
                == optional_text_value(record.in_reply_to_screen_name),
            lookup(filled(Self::slots(record)), "in_reply_to_user_id_str"@)
                == optional_text_value(record.in_reply_to_user_id_str),
            filled(Self::slots(record)) == Seq::<(Seq<char>, JsonModel)>::empty()
                + entry_of("edit_info"@, Some(TweetEditInfo::written(record.edit_info)))
                + entry_of("retweeted"@, Some(JsonModel::Bool(record.retweeted)))
                + entry_of("source"@, Some(JsonModel::Text(record.source)))
                + entry_of("entities"@, Some(TweetEntities::written(record.entities)))
                + entry_of("display_text_range"@, Some(indices_value(record.display_text_range)))
                + entry_of("favorite_count"@, Some(number_value(record.favorite_count)))
                + entry_of(
                    "in_reply_to_status_id_str"@,
                    optional_text_value(record.in_reply_to_status_id_str),
                )
                + entry_of("id_str"@, Some(JsonModel::Text(record.id_str)))
                + entry_of("in_reply_to_user_id"@, optional_text_value(record.in_reply_to_user_id))
                + entry_of("truncated"@, Some(JsonModel::Bool(record.truncated)))
                + entry_of("retweet_count"@, Some(number_value(record.retweet_count)))
                + entry_of("id"@, Some(JsonModel::Text(record.id)))
                + entry_of(
                    "in_reply_to_status_id"@,
                    optional_text_value(record.in_reply_to_status_id),
                )
                + entry_of("possibly_sensitive"@, optional_flag_value(record.possibly_sensitive))
                + entry_of("created_at"@, Some(created_value(record.created_at)))
                + entry_of("favorited"@, Some(JsonModel::Bool(record.favorited)))
                + entry_of("full_text"@, Some(JsonModel::Text(record.full_text)))
                + entry_of("lang"@, Some(JsonModel::Text(record.lang)))
                + entry_of(
                    "in_reply_to_screen_name"@,
                    optional_text_value(record.in_reply_to_screen_name),
                )
                + entry_of(
                    "in_reply_to_user_id_str"@,
                    optional_text_value(record.in_reply_to_user_id_str),
                ),
    {
        let slots = Self::slots(record);
        Self::lemma_keys_differ();
        let s0 = Seq::<(Seq<char>, Option<JsonModel>)>::empty();
        let s1 = s0.push(slots[0]);
        lemma_filled_push(s0, slots[0].0, slots[0].1);
        let s2 = s1.push(slots[1]);
        lemma_filled_push(s1, slots[1].0, slots[1].1);
        let s3 = s2.push(slots[2]);
        lemma_filled_push(s2, slots[2].0, slots[2].1);
        let s4 = s3.push(slots[3]);
        lemma_filled_push(s3, slots[3].0, slots[3].1);
        let s5 = s4.push(slots[4]);
        lemma_filled_push(s4, slots[4].0, slots[4].1);
        let s6 = s5.push(slots[5]);
        lemma_filled_push(s5, slots[5].0, slots[5].1);
        let s7 = s6.push(slots[6]);
        lemma_filled_push(s6, slots[6].0, slots[6].1);
        let s8 = s7.push(slots[7]);
        lemma_filled_push(s7, slots[7].0, slots[7].1);
        let s9 = s8.push(slots[8]);
        lemma_filled_push(s8, slots[8].0, slots[8].1);
        let s10 = s9.push(slots[9]);
        lemma_filled_push(s9, slots[9].0, slots[9].1);
        let s11 = s10.push(slots[10]);
        lemma_filled_push(s10, slots[10].0, slots[10].1);
        let s12 = s11.push(slots[11]);
        lemma_filled_push(s11, slots[11].0, slots[11].1);
        let s13 = s12.push(slots[12]);
        lemma_filled_push(s12, slots[12].0, slots[12].1);
        let s14 = s13.push(slots[13]);
        lemma_filled_push(s13, slots[13].0, slots[13].1);
        let s15 = s14.push(slots[14]);
        lemma_filled_push(s14, slots[14].0, slots[14].1);
        let s16 = s15.push(slots[15]);
        lemma_filled_push(s15, slots[15].0, slots[15].1);
        let s17 = s16.push(slots[16]);
        lemma_filled_push(s16, slots[16].0, slots[16].1);
        let s18 = s17.push(slots[17]);
        lemma_filled_push(s17, slots[17].0, slots[17].1);
        let s19 = s18.push(slots[18]);
        lemma_filled_push(s18, slots[18].0, slots[18].1);
        let s20 = s19.push(slots[19]);
        lemma_filled_push(s19, slots[19].0, slots[19].1);
        assert(s20 =~= slots);
        assert(distinct_keys(slots));
        lemma_filled_lookup(slots, 0);
        lemma_filled_lookup(slots, 1);
        lemma_filled_lookup(slots, 2);
        lemma_filled_lookup(slots, 3);
        lemma_filled_lookup(slots, 4);
        lemma_filled_lookup(slots, 5);
        lemma_filled_lookup(slots, 6);
        lemma_filled_lookup(slots, 7);
        lemma_filled_lookup(slots, 8);
        lemma_filled_lookup(slots, 9);
        lemma_filled_lookup(slots, 10);
        lemma_filled_lookup(slots, 11);
        lemma_filled_lookup(slots, 12);
        lemma_filled_lookup(slots, 13);
        lemma_filled_lookup(slots, 14);
        lemma_filled_lookup(slots, 15);
        lemma_filled_lookup(slots, 16);
        lemma_filled_lookup(slots, 17);
        lemma_filled_lookup(slots, 18);
        lemma_filled_lookup(slots, 19);
    }
}

impl Record for Tweet {
    open spec fn read(value: JsonModel) -> Option<TweetModel> {
        match value {
            JsonModel::Object(entries) => if entries.len() == 14
                + count(lookup(entries, "in_reply_to_status_id_str"@))
                + count(lookup(entries, "in_reply_to_user_id"@))
                + count(lookup(entries, "in_reply_to_status_id"@))
                + count(lookup(entries, "possibly_sensitive"@))
                + count(lookup(entries, "in_reply_to_screen_name"@))
                + count(lookup(entries, "in_reply_to_user_id_str"@))
                && record_at::<TweetEditInfo>(entries, "edit_info"@).is_some()
                && flag_at(entries, "retweeted"@).is_some()
                && text_at(entries, "source"@).is_some()
                && record_at::<TweetEntities>(entries, "entities"@).is_some()
                && indices_at(entries, "display_text_range"@).is_some()
                && number_at(entries, "favorite_count"@).is_some()
                && optional_text_at(entries, "in_reply_to_status_id_str"@).is_some()
                && text_at(entries, "id_str"@).is_some()
                && optional_text_at(entries, "in_reply_to_user_id"@).is_some()
                && flag_at(entries, "truncated"@).is_some()
                && number_at(entries, "retweet_count"@).is_some()
                && text_at(entries, "id"@).is_some()
                && optional_text_at(entries, "in_reply_to_status_id"@).is_some()
                && optional_flag_at(entries, "possibly_sensitive"@).is_some()
                && created_at(entries, "created_at"@).is_some()
                && flag_at(entries, "favorited"@).is_some()
                && text_at(entries, "full_text"@).is_some()
                && text_at(entries, "lang"@).is_some()
                && optional_text_at(entries, "in_reply_to_screen_name"@).is_some()
                && optional_text_at(entries, "in_reply_to_user_id_str"@).is_some()
            {
                Some(
                    TweetModel {
                        edit_info: record_at::<TweetEditInfo>(entries, "edit_info"@).unwrap(),
                        retweeted: flag_at(entries, "retweeted"@).unwrap(),
                        source: text_at(entries, "source"@).unwrap(),
                        entities: record_at::<TweetEntities>(entries, "entities"@).unwrap(),
                        display_text_range: indices_at(entries, "display_text_range"@).unwrap(),
                        favorite_count: number_at(entries, "favorite_count"@).unwrap(),
                        in_reply_to_status_id_str: optional_text_at(
                            entries,
                            "in_reply_to_status_id_str"@,
                        ).unwrap(),
                        id_str: text_at(entries, "id_str"@).unwrap(),
                        in_reply_to_user_id: optional_text_at(
                            entries,
                            "in_reply_to_user_id"@,
                        ).unwrap(),
                        truncated: flag_at(entries, "truncated"@).unwrap(),
                        retweet_count: number_at(entries, "retweet_count"@).unwrap(),
                        id: text_at(entries, "id"@).unwrap(),
                        in_reply_to_status_id: optional_text_at(
                            entries,
                            "in_reply_to_status_id"@,
                        ).unwrap(),
                        possibly_sensitive: optional_flag_at(
                            entries,
                            "possibly_sensitive"@,
                        ).unwrap(),
                        created_at: created_at(entries, "created_at"@).unwrap(),
                        favorited: flag_at(entries, "favorited"@).unwrap(),
                        full_text: text_at(entries, "full_text"@).unwrap(),
                        lang: text_at(entries, "lang"@).unwrap(),
                        in_reply_to_screen_name: optional_text_at(
                            entries,
                            "in_reply_to_screen_name"@,
                        ).unwrap(),
                        in_reply_to_user_id_str: optional_text_at(
                            entries,
                            "in_reply_to_user_id_str"@,
                        ).unwrap(),
                    },
                )
            } else {
                None
            },
            _ => None,
        }
    }

    open spec fn written(record: TweetModel) -> JsonModel {
        JsonModel::Object(filled(Self::slots(record)))
    }

    open spec fn is_writable(record: TweetModel) -> bool {
        &&& TweetEditInfo::is_writable(record.edit_info)
        &&& TweetEntities::is_writable(record.entities)
        &&& created_writable(record.created_at)
    }

    open spec fn is_canonical(value: JsonModel) -> bool {
        &&& value is Object
        &&& value->Object_0 == filled(Self::slots_of(value->Object_0))
        &&& (
            lookup(
                value->Object_0,
                "edit_info"@,
            ) matches Some(held) && TweetEditInfo::is_canonical(held)
        )
        &&& (
            lookup(
                value->Object_0,
                "entities"@,
            ) matches Some(held) && TweetEntities::is_canonical(held)
        )
        &&& (
            lookup(
                value->Object_0,
                "display_text_range"@,
            ) matches Some(held) && indices_canonical(held)
        )
        &&& (
            lookup(value->Object_0, "favorite_count"@) matches Some(held) && number_canonical(held)
        )
        &&& (lookup(value->Object_0, "retweet_count"@) matches Some(held) && number_canonical(held))
        &&& (lookup(value->Object_0, "created_at"@) matches Some(held) && created_canonical(held))
    }

    proof fn written_is_read_back(record: TweetModel) {
        let entries = filled(Self::slots(record));
        Self::lemma_written(record);
        TweetEditInfo::written_is_read_back(record.edit_info);
        TweetEntities::written_is_read_back(record.entities);
        lemma_indices_value(entries, "display_text_range"@, record.display_text_range);
        lemma_number_value(entries, "favorite_count"@, record.favorite_count);
        lemma_number_value(entries, "retweet_count"@, record.retweet_count);
        lemma_created_value(entries, "created_at"@, record.created_at);
        assert(Self::slots_of(entries) =~= Self::slots(record));
    }

    proof fn read_is_written_back(value: JsonModel) {
        let entries = value->Object_0;
        TweetEditInfo::read_is_written_back(lookup(entries, "edit_info"@).unwrap());
        TweetEntities::read_is_written_back(lookup(entries, "entities"@).unwrap());
        lemma_indices_at(entries, "display_text_range"@);
        lemma_number_at(entries, "favorite_count"@);
        lemma_number_at(entries, "retweet_count"@);
        lemma_created_at(entries, "created_at"@);
        assert(Self::slots(Self::read(value).unwrap()) =~= Self::slots_of(entries));
    }

    fn decode(value: &Json) -> (r: Option<Tweet>) {
        let entries = match value.as_object() {
            Some(entries) => entries,
            None => {
                return None;
            },
        };
        let edit_info = read_record::<TweetEditInfo>(entries, "edit_info");
        let retweeted = read_flag(entries, "retweeted");
        let source = read_text(entries, "source");
        let entities = read_record::<TweetEntities>(entries, "entities");
        let display_text_range = read_indices(entries, "display_text_range");
        let favorite_count = read_number(entries, "favorite_count");
        let in_reply_to_status_id_str = read_optional_text(entries, "in_reply_to_status_id_str");
        let id_str = read_text(entries, "id_str");
        let in_reply_to_user_id = read_optional_text(entries, "in_reply_to_user_id");
        let truncated = read_flag(entries, "truncated");
        let retweet_count = read_number(entries, "retweet_count");
        let id = read_text(entries, "id");
        let in_reply_to_status_id = read_optional_text(entries, "in_reply_to_status_id");
        let possibly_sensitive = read_optional_flag(entries, "possibly_sensitive");
        let created_at = read_created(entries, "created_at");
        let favorited = read_flag(entries, "favorited");
        let full_text = read_text(entries, "full_text");
        let lang = read_text(entries, "lang");
        let in_reply_to_screen_name = read_optional_text(entries, "in_reply_to_screen_name");
        let in_reply_to_user_id_str = read_optional_text(entries, "in_reply_to_user_id_str");
        if edit_info.is_none() || retweeted.is_none() || source.is_none() ||
            entities.is_none() || display_text_range.is_none() || favorite_count.is_none() ||
            in_reply_to_status_id_str.is_none() || id_str.is_none() ||
            in_reply_to_user_id.is_none() || truncated.is_none() || retweet_count.is_none() ||
            id.is_none() || in_reply_to_status_id.is_none() || possibly_sensitive.is_none() ||
            created_at.is_none() || favorited.is_none() || full_text.is_none() ||
            lang.is_none() || in_reply_to_screen_name.is_none() ||
            in_reply_to_user_id_str.is_none() {
            return None;
        }
        let edit_info = edit_info.unwrap();
        let retweeted = retweeted.unwrap();
        let source = source.unwrap();
        let entities = entities.unwrap();
        let display_text_range = display_text_range.unwrap();
        let favorite_count = favorite_count.unwrap();
        let in_reply_to_status_id_str = in_reply_to_status_id_str.unwrap();
        let id_str = id_str.unwrap();
        let in_reply_to_user_id = in_reply_to_user_id.unwrap();
        let truncated = truncated.unwrap();
        let retweet_count = retweet_count.unwrap();
        let id = id.unwrap();
        let in_reply_to_status_id = in_reply_to_status_id.unwrap();
        let possibly_sensitive = possibly_sensitive.unwrap();
        let created_at = created_at.unwrap();
        let favorited = favorited.unwrap();
        let full_text = full_text.unwrap();
        let lang = lang.unwrap();
        let in_reply_to_screen_name = in_reply_to_screen_name.unwrap();
        let in_reply_to_user_id_str = in_reply_to_user_id_str.unwrap();
        let mut wanted: usize = 14;
        if in_reply_to_status_id_str.is_some() {
            wanted += 1;
        }
        if in_reply_to_user_id.is_some() {
            wanted += 1;
        }
        if in_reply_to_status_id.is_some() {
            wanted += 1;
        }
        if possibly_sensitive.is_some() {
            wanted += 1;
        }
        if in_reply_to_screen_name.is_some() {
            wanted += 1;
        }
        if in_reply_to_user_id_str.is_some() {
            wanted += 1;
        }
        if entries.len() != wanted {
            return None;
        }
        Some(
            Tweet {
                edit_info,
                retweeted,
                source,
                entities,
                display_text_range,
                favorite_count,
                in_reply_to_status_id_str,
                id_str,
                in_reply_to_user_id,
                truncated,
                retweet_count,
                id,
                in_reply_to_status_id,
                possibly_sensitive,
                created_at,
                favorited,
                full_text,
                lang,
                in_reply_to_screen_name,
                in_reply_to_user_id_str,
            },
        )
    }

    fn encode(&self) -> (r: Json) {
        let mut entries: Vec<(String, Json)> = Vec::new();
        proof {
            assert(entry_models(entries@) =~= Seq::empty());
        }
        push_slot(&mut entries, Some(record_entry("edit_info", &self.edit_info)));
        push_slot(&mut entries, Some(flag_entry("retweeted", &self.retweeted)));
        push_slot(&mut entries, Some(text_entry("source", &self.source)));
        push_slot(&mut entries, Some(record_entry("entities", &self.entities)));
        push_slot(
            &mut entries,
            Some(indices_entry("display_text_range", &self.display_text_range)),
        );
        push_slot(&mut entries, Some(number_entry("favorite_count", &self.favorite_count)));
        push_slot(
            &mut entries,
            match &self.in_reply_to_status_id_str {
                Some(held) => Some(text_entry("in_reply_to_status_id_str", held)),
                None => None,
            },
        );
        push_slot(&mut entries, Some(text_entry("id_str", &self.id_str)));
        push_slot(
            &mut entries,
            match &self.in_reply_to_user_id {
                Some(held) => Some(text_entry("in_reply_to_user_id", held)),
                None => None,
            },
        );
        push_slot(&mut entries, Some(flag_entry("truncated", &self.truncated)));
        push_slot(&mut entries, Some(number_entry("retweet_count", &self.retweet_count)));
        push_slot(&mut entries, Some(text_entry("id", &self.id)));
        push_slot(
            &mut entries,
            match &self.in_reply_to_status_id {
                Some(held) => Some(text_entry("in_reply_to_status_id", held)),
                None => None,
            },
        );
        push_slot(
            &mut entries,
            match &self.possibly_sensitive {
                Some(held) => Some(flag_entry("possibly_sensitive", held)),
                None => None,
            },
        );
        push_slot(&mut entries, Some(created_entry("created_at", &self.created_at)));
        push_slot(&mut entries, Some(flag_entry("favorited", &self.favorited)));
        push_slot(&mut entries, Some(text_entry("full_text", &self.full_text)));
        push_slot(&mut entries, Some(text_entry("lang", &self.lang)));
        push_slot(
            &mut entries,
            match &self.in_reply_to_screen_name {
                Some(held) => Some(text_entry("in_reply_to_screen_name", held)),
                None => None,
            },
        );
        push_slot(
            &mut entries,
            match &self.in_reply_to_user_id_str {
                Some(held) => Some(text_entry("in_reply_to_user_id_str", held)),
                None => None,
            },
        );
        proof {
            Self::lemma_written(self@);
        }
        Json::object(entries)
    }
}

/// An envelope: an object of the one entry `initial`, which holds a
/// [`TweetEditInfoInitial`].
#[derive(Clone, Debug, PartialEq, Eq)]
pub struct TweetEditInfo {
    /// The entry `initial`.
    pub initial: TweetEditInfoInitial,
}

/// What a value of [`TweetEditInfo`] holds.
pub struct TweetEditInfoModel {
    pub initial: TweetEditInfoInitialModel,
}

impl View for TweetEditInfo {
    type V = TweetEditInfoModel;

    open spec fn view(&self) -> TweetEditInfoModel {
        TweetEditInfoModel {
            initial: self.initial@,
        }
    }
}

impl Record for TweetEditInfo {
    open spec fn read(value: JsonModel) -> Option<TweetEditInfoModel> {
        match envelope::opened(value, "initial"@) {
            Some(inner) => match TweetEditInfoInitial::read(inner) {
                Some(initial) => Some(TweetEditInfoModel { initial }),
                None => None,
            },
            None => None,
        }
    }

    open spec fn written(record: TweetEditInfoModel) -> JsonModel {
        envelope::sealed("initial"@, TweetEditInfoInitial::written(record.initial))
    }

    open spec fn is_writable(record: TweetEditInfoModel) -> bool {
        TweetEditInfoInitial::is_writable(record.initial)
    }

    open spec fn is_canonical(value: JsonModel) -> bool {
        match envelope::opened(value, "initial"@) {
            Some(inner) => TweetEditInfoInitial::is_canonical(inner),
            None => false,
        }
    }

    proof fn written_is_read_back(record: TweetEditInfoModel) {
        TweetEditInfoInitial::written_is_read_back(record.initial);
    }

    proof fn read_is_written_back(value: JsonModel) {
        TweetEditInfoInitial::read_is_written_back(envelope::opened(value, "initial"@).unwrap());
        envelope::open_then_seal(value, "initial"@);
    }

    fn decode(value: &Json) -> (r: Option<TweetEditInfo>) {
        match envelope::open(value, "initial") {
            Ok(inner) => match TweetEditInfoInitial::decode(inner) {
                Some(initial) => Some(TweetEditInfo { initial }),
                None => None,
            },
            Err(_) => None,
        }
    }

    fn encode(&self) -> (r: Json) {
        envelope::seal("initial", self.initial.encode())
    }
}

/// How a tweet may still be edited.
#[derive(Clone, Debug, PartialEq, Eq)]
pub struct TweetEditInfoInitial {
    /// The entry `editTweetIds`.
    pub edit_tweet_ids: Vec<String>,
    /// The entry `editableUntil`, in the encoding of
    /// `convert::date_time_iso_8601`.
    pub editable_until: Instant,
    /// The entry `editsRemaining`, in the encoding of
    /// `convert::number_like_string`.
    pub edits_remaining: u64,
    /// The entry `isEditEligible`.
    pub is_edit_eligible: bool,
}

/// What a value of [`TweetEditInfoInitial`] holds.
pub struct TweetEditInfoInitialModel {
    pub edit_tweet_ids: Seq<Seq<char>>,
    pub editable_until: Civil,
    pub edits_remaining: u64,
    pub is_edit_eligible: bool,
}

impl View for TweetEditInfoInitial {
    type V = TweetEditInfoInitialModel;

    open spec fn view(&self) -> TweetEditInfoInitialModel {
        TweetEditInfoInitialModel {
            edit_tweet_ids: texts(self.edit_tweet_ids@),
            editable_until: self.editable_until@,
            edits_remaining: self.edits_remaining,
            is_edit_eligible: self.is_edit_eligible,
        }
    }
}

impl TweetEditInfoInitial {
    /// No two of the keys are the same.
    proof fn lemma_keys_differ()
        ensures
            "editTweetIds"@ != "editableUntil"@,
            "editTweetIds"@ != "editsRemaining"@,
            "editTweetIds"@ != "isEditEligible"@,
            "editableUntil"@ != "editsRemaining"@,
            "editableUntil"@ != "isEditEligible"@,
            "editsRemaining"@ != "isEditEligible"@,
    {
        reveal_strlit("editTweetIds");
        reveal_strlit("editableUntil");
        reveal_strlit("editsRemaining");
        reveal_strlit("isEditEligible");
        assert("editTweetIds"@.len() == 12);
        assert("editableUntil"@.len() == 13);
        assert("editsRemaining"@.len() == 14);
        assert("isEditEligible"@.len() == 14);
        assert("editsRemaining"@[0] != "isEditEligible"@[0]);
    }
}

impl Record for TweetEditInfoInitial {
    open spec fn read(value: JsonModel) -> Option<TweetEditInfoInitialModel> {
        match value {
            JsonModel::Object(entries) => if entries.len() == 4
                && texts_at(entries, "editTweetIds"@).is_some()
                && instant_at(entries, "editableUntil"@).is_some()
                && number_at(entries, "editsRemaining"@).is_some()
                && flag_at(entries, "isEditEligible"@).is_some()
            {
                Some(
                    TweetEditInfoInitialModel {
                        edit_tweet_ids: texts_at(entries, "editTweetIds"@).unwrap(),
                        editable_until: instant_at(entries, "editableUntil"@).unwrap(),
                        edits_remaining: number_at(entries, "editsRemaining"@).unwrap(),
                        is_edit_eligible: flag_at(entries, "isEditEligible"@).unwrap(),
                    },
                )
            } else {
                None
            },
            _ => None,
        }
    }

    open spec fn written(record: TweetEditInfoInitialModel) -> JsonModel {
        JsonModel::Object(
            seq![
                ("editTweetIds"@, texts_value(record.edit_tweet_ids)),
                (
                    "editableUntil"@,
                    JsonModel::Text(date_time_iso_8601::encoded(record.editable_until)),
                ),
                ("editsRemaining"@, number_value(record.edits_remaining)),
                ("isEditEligible"@, JsonModel::Bool(record.is_edit_eligible)),
            ],
        )
    }

    open spec fn is_writable(record: TweetEditInfoInitialModel) -> bool {
        &&& record.editable_until.is_valid()
    }

    open spec fn is_canonical(value: JsonModel) -> bool {
        &&& value is Object
        &&& value->Object_0.len() == 4
        &&& value->Object_0[0].0 == "editTweetIds"@
        &&& value->Object_0[1].0 == "editableUntil"@
        &&& value->Object_0[2].0 == "editsRemaining"@
        &&& value->Object_0[3].0 == "isEditEligible"@
        &&& number_canonical(value->Object_0[2].1)
    }

    proof fn written_is_read_back(record: TweetEditInfoInitialModel) {
        let entries = Self::written(record)->Object_0;
        Self::lemma_keys_differ();
        lemma_lookup_at(entries, 0);
        lemma_lookup_at(entries, 1);
        lemma_lookup_at(entries, 2);
        lemma_lookup_at(entries, 3);
        lemma_texts_value(record.edit_tweet_ids);
        date_time_iso_8601::instant_round_trip(record.editable_until);
        lemma_number_value(entries, "editsRemaining"@, record.edits_remaining);
    }

    proof fn read_is_written_back(value: JsonModel) {
        let entries = value->Object_0;
        Self::lemma_keys_differ();
        lemma_lookup_at(entries, 0);
        lemma_lookup_at(entries, 1);
        lemma_lookup_at(entries, 2);
        lemma_lookup_at(entries, 3);
        lemma_texts_of(entries[0].1);
        date_time_iso_8601::text_round_trip(entries[1].1->Text_0);
        lemma_number_at(entries, "editsRemaining"@);
        assert(Self::written(Self::read(value).unwrap())->Object_0 =~= entries);
    }

    fn decode(value: &Json) -> (r: Option<TweetEditInfoInitial>) {
        let entries = match value.as_object() {
            Some(entries) => entries,
            None => {
                return None;
            },
        };
        if entries.len() != 4 {
            return None;
        }
        let edit_tweet_ids = match read_texts(entries, "editTweetIds") {
            Some(found) => found,
            None => {
                return None;
            },
        };
        let editable_until = match read_instant(entries, "editableUntil") {
            Some(found) => found,
            None => {
                return None;
            },
        };
        let edits_remaining = match read_number(entries, "editsRemaining") {
            Some(found) => found,
            None => {
                return None;
            },
        };
        let is_edit_eligible = match read_flag(entries, "isEditEligible") {
            Some(found) => found,
            None => {
                return None;
            },
        };
        Some(
            TweetEditInfoInitial {
                edit_tweet_ids,
                editable_until,
                edits_remaining,
                is_edit_eligible,
            },
        )
    }

    fn encode(&self) -> (r: Json) {
        let mut entries: Vec<(String, Json)> = Vec::new();
        entries.push(texts_entry("editTweetIds", &self.edit_tweet_ids));
        entries.push(instant_entry("editableUntil", &self.editable_until));
        entries.push(number_entry("editsRemaining", &self.edits_remaining));
        entries.push(flag_entry("isEditEligible", &self.is_edit_eligible));
        proof {
            assert(entry_models(entries@) =~= Self::written(self@)->Object_0);
        }
        Json::object(entries)
    }
}

/// What stands in the text of a tweet: hashtags, symbols, mentions and links.
#[derive(Clone, Debug, PartialEq, Eq)]
pub struct TweetEntities {
    /// The entry `hashtags`.
    pub hashtags: Vec<TweetEntitiesEntry>,
    /// The entry `symbols`.
    pub symbols: Vec<TweetEntitiesEntry>,
    /// The entry `user_mentions`.
    pub user_mentions: Vec<TweetEntitiesUserMention>,
    /// The entry `urls`.
    pub urls: Vec<TweetEntitiesUserUrl>,
}

/// What a value of [`TweetEntities`] holds.
pub struct TweetEntitiesModel {
    pub hashtags: Seq<TweetEntitiesEntryModel>,
    pub symbols: Seq<TweetEntitiesEntryModel>,
    pub user_mentions: Seq<TweetEntitiesUserMentionModel>,
    pub urls: Seq<TweetEntitiesUserUrlModel>,
}

impl View for TweetEntities {
    type V = TweetEntitiesModel;

    open spec fn view(&self) -> TweetEntitiesModel {
        TweetEntitiesModel {
            hashtags: record_models(self.hashtags@),
            symbols: record_models(self.symbols@),
            user_mentions: record_models(self.user_mentions@),
            urls: record_models(self.urls@),
        }
    }
}

impl TweetEntities {
    /// No two of the keys are the same.
    proof fn lemma_keys_differ()
        ensures
            "hashtags"@ != "symbols"@,
            "hashtags"@ != "user_mentions"@,
            "hashtags"@ != "urls"@,
            "symbols"@ != "user_mentions"@,
            "symbols"@ != "urls"@,
            "user_mentions"@ != "urls"@,
    {
        reveal_strlit("hashtags");
        reveal_strlit("symbols");
        reveal_strlit("user_mentions");
        reveal_strlit("urls");
        assert("hashtags"@.len() == 8);
        assert("symbols"@.len() == 7);
        assert("user_mentions"@.len() == 13);
        assert("urls"@.len() == 4);
    }
}

impl Record for TweetEntities {
    open spec fn read(value: JsonModel) -> Option<TweetEntitiesModel> {
        match value {
            JsonModel::Object(entries) => if entries.len() == 4
                && record::records_at::<TweetEntitiesEntry>(entries, "hashtags"@).is_some()
                && record::records_at::<TweetEntitiesEntry>(entries, "symbols"@).is_some()
                && record::records_at::<TweetEntitiesUserMention>(
                    entries,
                    "user_mentions"@,
                ).is_some()
                && record::records_at::<TweetEntitiesUserUrl>(entries, "urls"@).is_some()
            {
                Some(
                    TweetEntitiesModel {
                        hashtags: record::records_at::<TweetEntitiesEntry>(
                            entries,
                            "hashtags"@,
                        ).unwrap(),
                        symbols: record::records_at::<TweetEntitiesEntry>(
                            entries,
                            "symbols"@,
                        ).unwrap(),
                        user_mentions: record::records_at::<TweetEntitiesUserMention>(
                            entries,
                            "user_mentions"@,
                        ).unwrap(),
                        urls: record::records_at::<TweetEntitiesUserUrl>(entries, "urls"@).unwrap(),
                    },
                )
            } else {
                None
            },
            _ => None,
        }
    }

    open spec fn written(record: TweetEntitiesModel) -> JsonModel {
        JsonModel::Object(
            seq![
                ("hashtags"@, record::records_value::<TweetEntitiesEntry>(record.hashtags)),
                ("symbols"@, record::records_value::<TweetEntitiesEntry>(record.symbols)),
                (
                    "user_mentions"@,
                    record::records_value::<TweetEntitiesUserMention>(record.user_mentions),
                ),
                ("urls"@, record::records_value::<TweetEntitiesUserUrl>(record.urls)),
            ],
        )
    }

    open spec fn is_writable(record: TweetEntitiesModel) -> bool {
        &&& record::all_writable::<TweetEntitiesEntry>(record.hashtags)
        &&& record::all_writable::<TweetEntitiesEntry>(record.symbols)
        &&& record::all_writable::<TweetEntitiesUserMention>(record.user_mentions)
        &&& record::all_writable::<TweetEntitiesUserUrl>(record.urls)
    }

    open spec fn is_canonical(value: JsonModel) -> bool {
        &&& value is Object
        &&& value->Object_0.len() == 4
        &&& value->Object_0[0].0 == "hashtags"@
        &&& value->Object_0[1].0 == "symbols"@
        &&& value->Object_0[2].0 == "user_mentions"@
        &&& value->Object_0[3].0 == "urls"@
        &&& record::all_canonical::<TweetEntitiesEntry>(value->Object_0[0].1)
        &&& record::all_canonical::<TweetEntitiesEntry>(value->Object_0[1].1)
        &&& record::all_canonical::<TweetEntitiesUserMention>(value->Object_0[2].1)
        &&& record::all_canonical::<TweetEntitiesUserUrl>(value->Object_0[3].1)
    }

    proof fn written_is_read_back(record: TweetEntitiesModel) {
        let entries = Self::written(record)->Object_0;
        Self::lemma_keys_differ();
        lemma_lookup_at(entries, 0);
        lemma_lookup_at(entries, 1);
        lemma_lookup_at(entries, 2);
        lemma_lookup_at(entries, 3);
        record::lemma_records_value::<TweetEntitiesEntry>(record.hashtags);
        record::lemma_records_value::<TweetEntitiesEntry>(record.symbols);
        record::lemma_records_value::<TweetEntitiesUserMention>(record.user_mentions);
        record::lemma_records_value::<TweetEntitiesUserUrl>(record.urls);
    }

    proof fn read_is_written_back(value: JsonModel) {
        let entries = value->Object_0;
        Self::lemma_keys_differ();
        lemma_lookup_at(entries, 0);
        lemma_lookup_at(entries, 1);
        lemma_lookup_at(entries, 2);
        lemma_lookup_at(entries, 3);
        record::lemma_records_of::<TweetEntitiesEntry>(entries[0].1);
        record::lemma_records_of::<TweetEntitiesEntry>(entries[1].1);
        record::lemma_records_of::<TweetEntitiesUserMention>(entries[2].1);
        record::lemma_records_of::<TweetEntitiesUserUrl>(entries[3].1);
        assert(Self::written(Self::read(value).unwrap())->Object_0 =~= entries);
    }

    fn decode(value: &Json) -> (r: Option<TweetEntities>) {
        let entries = match value.as_object() {
            Some(entries) => entries,
            None => {
                return None;
            },
        };
        if entries.len() != 4 {
            return None;
        }
        let hashtags = match read_records::<TweetEntitiesEntry>(entries, "hashtags") {
            Some(found) => found,
            None => {
                return None;
            },
        };
        let symbols = match read_records::<TweetEntitiesEntry>(entries, "symbols") {
            Some(found) => found,
            None => {
                return None;
            },
        };
        let user_mentions = match read_records::<TweetEntitiesUserMention>(
            entries,
            "user_mentions",
        ) {
            Some(found) => found,
            None => {
                return None;
            },
        };
        let urls = match read_records::<TweetEntitiesUserUrl>(entries, "urls") {
            Some(found) => found,
            None => {
                return None;
            },
        };
        Some(TweetEntities { hashtags, symbols, user_mentions, urls })
    }

    fn encode(&self) -> (r: Json) {
        let mut entries: Vec<(String, Json)> = Vec::new();
        entries.push(records_entry("hashtags", &self.hashtags));
        entries.push(records_entry("symbols", &self.symbols));
        entries.push(records_entry("user_mentions", &self.user_mentions));
        entries.push(records_entry("urls", &self.urls));
        proof {
            assert(entry_models(entries@) =~= Self::written(self@)->Object_0);
        }
        Json::object(entries)
    }
}

/// A hashtag or a symbol, and where it stands in the text.
#[derive(Clone, Debug, PartialEq, Eq)]
pub struct TweetEntitiesEntry {
    /// The entry `text`.
    pub text: String,
    /// The entry `indices`, in the encoding of `convert::indices`.
    pub indices: [u64; 2],
}

/// What a value of [`TweetEntitiesEntry`] holds.
pub struct TweetEntitiesEntryModel {
    pub text: Seq<char>,
    pub indices: (u64, u64),
}

impl View for TweetEntitiesEntry {
    type V = TweetEntitiesEntryModel;

    open spec fn view(&self) -> TweetEntitiesEntryModel {
        TweetEntitiesEntryModel {
            text: self.text@,
            indices: (self.indices[0], self.indices[1]),
        }
    }
}

impl TweetEntitiesEntry {
    /// No two of the keys are the same.
    proof fn lemma_keys_differ()
        ensures
            "text"@ != "indices"@,
    {
        reveal_strlit("text");
        reveal_strlit("indices");
        assert("text"@.len() == 4);
        assert("indices"@.len() == 7);
    }
}

impl Record for TweetEntitiesEntry {
    open spec fn read(value: JsonModel) -> Option<TweetEntitiesEntryModel> {
        match value {
            JsonModel::Object(entries) => if entries.len() == 2
                && text_at(entries, "text"@).is_some()
                && indices_at(entries, "indices"@).is_some()
            {
                Some(
                    TweetEntitiesEntryModel {
                        text: text_at(entries, "text"@).unwrap(),
                        indices: indices_at(entries, "indices"@).unwrap(),
                    },
                )
            } else {
                None
            },
            _ => None,
        }
    }

    open spec fn written(record: TweetEntitiesEntryModel) -> JsonModel {
        JsonModel::Object(
            seq![
                ("text"@, JsonModel::Text(record.text)),
                ("indices"@, indices_value(record.indices)),
            ],
        )
    }

    open spec fn is_writable(record: TweetEntitiesEntryModel) -> bool {
        true
    }

    open spec fn is_canonical(value: JsonModel) -> bool {
        &&& value is Object
        &&& value->Object_0.len() == 2
        &&& value->Object_0[0].0 == "text"@
        &&& value->Object_0[1].0 == "indices"@
        &&& indices_canonical(value->Object_0[1].1)
    }

    proof fn written_is_read_back(record: TweetEntitiesEntryModel) {
        let entries = Self::written(record)->Object_0;
        Self::lemma_keys_differ();
        lemma_lookup_at(entries, 0);
        lemma_lookup_at(entries, 1);
        lemma_indices_value(entries, "indices"@, record.indices);
    }

    proof fn read_is_written_back(value: JsonModel) {
        let entries = value->Object_0;
        Self::lemma_keys_differ();
        lemma_lookup_at(entries, 0);
        lemma_lookup_at(entries, 1);
        lemma_indices_at(entries, "indices"@);
        assert(Self::written(Self::read(value).unwrap())->Object_0 =~= entries);
    }

    fn decode(value: &Json) -> (r: Option<TweetEntitiesEntry>) {
        let entries = match value.as_object() {
            Some(entries) => entries,
            None => {
                return None;
            },
        };
        if entries.len() != 2 {
            return None;
        }
        let text = match read_text(entries, "text") {
            Some(found) => found,
            None => {
                return None;
            },
        };
        let indices = match read_indices(entries, "indices") {
            Some(found) => found,
            None => {
                return None;
            },
        };
        Some(TweetEntitiesEntry { text, indices })
    }

    fn encode(&self) -> (r: Json) {
        let mut entries: Vec<(String, Json)> = Vec::new();
        entries.push(text_entry("text", &self.text));
        entries.push(indices_entry("indices", &self.indices));
        proof {
            assert(entry_models(entries@) =~= Self::written(self@)->Object_0);
        }
        Json::object(entries)
    }
}

/// A mention of an account, and where it stands in the text.
#[derive(Clone, Debug, PartialEq, Eq)]
pub struct TweetEntitiesUserMention {
    /// The entry `name`.
    pub name: String,
    /// The entry `screen_name`.
    pub screen_name: String,
    /// The entry `indices`, in the encoding of `convert::indices`.
    pub indices: [u64; 2],
    /// The entry `id_str`.
    pub id_str: String,
    /// The entry `id`.
    pub id: String,
}

/// What a value of [`TweetEntitiesUserMention`] holds.
pub struct TweetEntitiesUserMentionModel {
    pub name: Seq<char>,
    pub screen_name: Seq<char>,
    pub indices: (u64, u64),
    pub id_str: Seq<char>,
    pub id: Seq<char>,
}

impl View for TweetEntitiesUserMention {
    type V = TweetEntitiesUserMentionModel;

    open spec fn view(&self) -> TweetEntitiesUserMentionModel {
        TweetEntitiesUserMentionModel {
            name: self.name@,
            screen_name: self.screen_name@,
            indices: (self.indices[0], self.indices[1]),
            id_str: self.id_str@,
            id: self.id@,
        }
    }
}

impl TweetEntitiesUserMention {
    /// No two of the keys are the same.
    proof fn lemma_keys_differ()
        ensures
            "name"@ != "screen_name"@,
            "name"@ != "indices"@,
            "name"@ != "id_str"@,
            "name"@ != "id"@,
            "screen_name"@ != "indices"@,
            "screen_name"@ != "id_str"@,
            "screen_name"@ != "id"@,
            "indices"@ != "id_str"@,
            "indices"@ != "id"@,
            "id_str"@ != "id"@,
    {
        reveal_strlit("name");
        reveal_strlit("screen_name");
        reveal_strlit("indices");
        reveal_strlit("id_str");
        reveal_strlit("id");
        assert("name"@.len() == 4);
        assert("screen_name"@.len() == 11);
        assert("indices"@.len() == 7);
        assert("id_str"@.len() == 6);
        assert("id"@.len() == 2);
    }
}

impl Record for TweetEntitiesUserMention {
    open spec fn read(value: JsonModel) -> Option<TweetEntitiesUserMentionModel> {
        match value {
            JsonModel::Object(entries) => if entries.len() == 5
                && text_at(entries, "name"@).is_some()
                && text_at(entries, "screen_name"@).is_some()
                && indices_at(entries, "indices"@).is_some()
                && text_at(entries, "id_str"@).is_some()
                && text_at(entries, "id"@).is_some()
            {
                Some(
                    TweetEntitiesUserMentionModel {
                        name: text_at(entries, "name"@).unwrap(),
                        screen_name: text_at(entries, "screen_name"@).unwrap(),
                        indices: indices_at(entries, "indices"@).unwrap(),
                        id_str: text_at(entries, "id_str"@).unwrap(),
                        id: text_at(entries, "id"@).unwrap(),
                    },
                )
            } else {
                None
            },
            _ => None,
        }
    }

    open spec fn written(record: TweetEntitiesUserMentionModel) -> JsonModel {
        JsonModel::Object(
            seq![
                ("name"@, JsonModel::Text(record.name)),
                ("screen_name"@, JsonModel::Text(record.screen_name)),
                ("indices"@, indices_value(record.indices)),
                ("id_str"@, JsonModel::Text(record.id_str)),
                ("id"@, JsonModel::Text(record.id)),
            ],
        )
    }

    open spec fn is_writable(record: TweetEntitiesUserMentionModel) -> bool {
        true
    }

    open spec fn is_canonical(value: JsonModel) -> bool {
        &&& value is Object
        &&& value->Object_0.len() == 5
        &&& value->Object_0[0].0 == "name"@
        &&& value->Object_0[1].0 == "screen_name"@
        &&& value->Object_0[2].0 == "indices"@
        &&& value->Object_0[3].0 == "id_str"@
        &&& value->Object_0[4].0 == "id"@
        &&& indices_canonical(value->Object_0[2].1)
    }

    proof fn written_is_read_back(record: TweetEntitiesUserMentionModel) {
        let entries = Self::written(record)->Object_0;
        Self::lemma_keys_differ();
        lemma_lookup_at(entries, 0);
        lemma_lookup_at(entries, 1);
        lemma_lookup_at(entries, 2);
        lemma_lookup_at(entries, 3);
        lemma_lookup_at(entries, 4);
        lemma_indices_value(entries, "indices"@, record.indices);
    }

    proof fn read_is_written_back(value: JsonModel) {
        let entries = value->Object_0;
        Self::lemma_keys_differ();
        lemma_lookup_at(entries, 0);
        lemma_lookup_at(entries, 1);
        lemma_lookup_at(entries, 2);
        lemma_lookup_at(entries, 3);
        lemma_lookup_at(entries, 4);
        lemma_indices_at(entries, "indices"@);
        assert(Self::written(Self::read(value).unwrap())->Object_0 =~= entries);
    }

    fn decode(value: &Json) -> (r: Option<TweetEntitiesUserMention>) {
        let entries = match value.as_object() {
            Some(entries) => entries,
            None => {
                return None;
            },
        };
        if entries.len() != 5 {
            return None;
        }
        let name = match read_text(entries, "name") {
            Some(found) => found,
            None => {
                return None;
            },
        };
        let screen_name = match read_text(entries, "screen_name") {
            Some(found) => found,
            None => {
                return None;
            },
        };
        let indices = match read_indices(entries, "indices") {
            Some(found) => found,
            None => {
                return None;
            },
        };
        let id_str = match read_text(entries, "id_str") {
            Some(found) => found,
            None => {
                return None;
            },
        };
        let id = match read_text(entries, "id") {
            Some(found) => found,
            None => {
                return None;
            },
        };
        Some(TweetEntitiesUserMention { name, screen_name, indices, id_str, id })
    }

    fn encode(&self) -> (r: Json) {
        let mut entries: Vec<(String, Json)> = Vec::new();
        entries.push(text_entry("name", &self.name));
        entries.push(text_entry("screen_name", &self.screen_name));
        entries.push(indices_entry("indices", &self.indices));
        entries.push(text_entry("id_str", &self.id_str));
        entries.push(text_entry("id", &self.id));
        proof {
            assert(entry_models(entries@) =~= Self::written(self@)->Object_0);
        }
        Json::object(entries)
    }
}

/// A link, and where it stands in the text.
#[derive(Clone, Debug, PartialEq, Eq)]
pub struct TweetEntitiesUserUrl {
    /// The entry `url`.
    pub url: String,
    /// The entry `expanded_url`.
    pub expanded_url: String,
    /// The entry `display_url`.
    pub display_url: String,
    /// The entry `indices`, in the encoding of `convert::indices`.
    pub indices: [u64; 2],
}

/// What a value of [`TweetEntitiesUserUrl`] holds.
pub struct TweetEntitiesUserUrlModel {
    pub url: Seq<char>,
    pub expanded_url: Seq<char>,
    pub display_url: Seq<char>,
    pub indices: (u64, u64),
}

impl View for TweetEntitiesUserUrl {
    type V = TweetEntitiesUserUrlModel;

    open spec fn view(&self) -> TweetEntitiesUserUrlModel {
        TweetEntitiesUserUrlModel {
            url: self.url@,
            expanded_url: self.expanded_url@,
            display_url: self.display_url@,
            indices: (self.indices[0], self.indices[1]),
        }
    }
}

impl TweetEntitiesUserUrl {
    /// No two of the keys are the same.
    proof fn lemma_keys_differ()
        ensures
            "url"@ != "expanded_url"@,
            "url"@ != "display_url"@,
            "url"@ != "indices"@,
            "expanded_url"@ != "display_url"@,
            "expanded_url"@ != "indices"@,
            "display_url"@ != "indices"@,
    {
        reveal_strlit("url");
        reveal_strlit("expanded_url");
        reveal_strlit("display_url");
        reveal_strlit("indices");
        assert("url"@.len() == 3);
        assert("expanded_url"@.len() == 12);
        assert("display_url"@.len() == 11);
        assert("indices"@.len() == 7);
    }
}

impl Record for TweetEntitiesUserUrl {
    open spec fn read(value: JsonModel) -> Option<TweetEntitiesUserUrlModel> {
        match value {
            JsonModel::Object(entries) => if entries.len() == 4
                && text_at(entries, "url"@).is_some()
                && text_at(entries, "expanded_url"@).is_some()
                && text_at(entries, "display_url"@).is_some()
                && indices_at(entries, "indices"@).is_some()
            {
                Some(
                    TweetEntitiesUserUrlModel {
                        url: text_at(entries, "url"@).unwrap(),
                        expanded_url: text_at(entries, "expanded_url"@).unwrap(),
                        display_url: text_at(entries, "display_url"@).unwrap(),
                        indices: indices_at(entries, "indices"@).unwrap(),
                    },
                )
            } else {
                None
            },
            _ => None,
        }
    }

    open spec fn written(record: TweetEntitiesUserUrlModel) -> JsonModel {
        JsonModel::Object(
            seq![
                ("url"@, JsonModel::Text(record.url)),
                ("expanded_url"@, JsonModel::Text(record.expanded_url)),
                ("display_url"@, JsonModel::Text(record.display_url)),
                ("indices"@, indices_value(record.indices)),
            ],
        )
    }

    open spec fn is_writable(record: TweetEntitiesUserUrlModel) -> bool {
        true
    }

    open spec fn is_canonical(value: JsonModel) -> bool {
        &&& value is Object
        &&& value->Object_0.len() == 4
        &&& value->Object_0[0].0 == "url"@
        &&& value->Object_0[1].0 == "expanded_url"@
        &&& value->Object_0[2].0 == "display_url"@
        &&& value->Object_0[3].0 == "indices"@
        &&& indices_canonical(value->Object_0[3].1)
    }

    proof fn written_is_read_back(record: TweetEntitiesUserUrlModel) {
        let entries = Self::written(record)->Object_0;
        Self::lemma_keys_differ();
        lemma_lookup_at(entries, 0);
        lemma_lookup_at(entries, 1);
        lemma_lookup_at(entries, 2);
        lemma_lookup_at(entries, 3);
        lemma_indices_value(entries, "indices"@, record.indices);
    }

    proof fn read_is_written_back(value: JsonModel) {
        let entries = value->Object_0;
        Self::lemma_keys_differ();
        lemma_lookup_at(entries, 0);
        lemma_lookup_at(entries, 1);
        lemma_lookup_at(entries, 2);
        lemma_lookup_at(entries, 3);
        lemma_indices_at(entries, "indices"@);
        assert(Self::written(Self::read(value).unwrap())->Object_0 =~= entries);
    }

    fn decode(value: &Json) -> (r: Option<TweetEntitiesUserUrl>) {
        let entries = match value.as_object() {
            Some(entries) => entries,
            None => {
                return None;
            },
        };
        if entries.len() != 4 {
            return None;
        }
        let url = match read_text(entries, "url") {
            Some(found) => found,
            None => {
                return None;
            },
        };
        let expanded_url = match read_text(entries, "expanded_url") {
            Some(found) => found,
            None => {
                return None;
            },
        };
        let display_url = match read_text(entries, "display_url") {
            Some(found) => found,
            None => {
                return None;
            },
        };
        let indices = match read_indices(entries, "indices") {
            Some(found) => found,
            None => {
                return None;
            },
        };
        Some(TweetEntitiesUserUrl { url, expanded_url, display_url, indices })
    }

    fn encode(&self) -> (r: Json) {
        let mut entries: Vec<(String, Json)> = Vec::new();
        entries.push(text_entry("url", &self.url));
        entries.push(text_entry("expanded_url", &self.expanded_url));
        entries.push(text_entry("display_url", &self.display_url));
        entries.push(indices_entry("indices", &self.indices));
        proof {
            assert(entry_models(entries@) =~= Self::written(self@)->Object_0);
        }
        Json::object(entries)
    }
}

} // verus!
