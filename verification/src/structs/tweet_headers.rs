//! The records of the file `data/tweet-headers.js`.

use vstd::prelude::*;
use vstd::string::*;
use crate::envelope;
use crate::instant::{Civil, Instant};
use crate::json::{entry_models, lemma_lookup_at, Json, JsonModel};
use crate::record::{
    created_at, created_canonical, created_entry, created_value, created_writable,
    lemma_created_at, lemma_created_value, read_created, read_text, text_at, text_entry, Record,
};

verus! {

/// An envelope: an object of the one entry `tweet`, which holds a [`Tweet`].
#[derive(Clone, Debug, PartialEq, Eq)]
pub struct TweetObject {
    /// The entry `tweet`.
    pub tweet: Tweet,
}

/// What a value of [`TweetObject`] holds.
pub struct TweetObjectModel {
    pub tweet: TweetModel,
}

impl View for TweetObject {
    type V = TweetObjectModel;

    open spec fn view(&self) -> TweetObjectModel {
        TweetObjectModel {
            tweet: self.tweet@,
        }
    }
}

impl Record for TweetObject {
    open spec fn read(value: JsonModel) -> Option<TweetObjectModel> {
        match envelope::opened(value, "tweet"@) {
            Some(inner) => match Tweet::read(inner) {
                Some(tweet) => Some(TweetObjectModel { tweet }),
                None => None,
            },
            None => None,
        }
    }

    open spec fn written(record: TweetObjectModel) -> JsonModel {
        envelope::sealed("tweet"@, Tweet::written(record.tweet))
    }

    open spec fn is_writable(record: TweetObjectModel) -> bool {
        Tweet::is_writable(record.tweet)
    }

    open spec fn is_canonical(value: JsonModel) -> bool {
        match envelope::opened(value, "tweet"@) {
            Some(inner) => Tweet::is_canonical(inner),
            None => false,
        }
    }

    proof fn written_is_read_back(record: TweetObjectModel) {
        Tweet::written_is_read_back(record.tweet);
    }

    proof fn read_is_written_back(value: JsonModel) {
        Tweet::read_is_written_back(envelope::opened(value, "tweet"@).unwrap());
        envelope::open_then_seal(value, "tweet"@);
    }

    fn decode(value: &Json) -> (r: Option<TweetObject>) {
        match envelope::open(value, "tweet") {
            Ok(inner) => match Tweet::decode(inner) {
                Some(tweet) => Some(TweetObject { tweet }),
                None => None,
            },
            Err(_) => None,
        }
    }

    fn encode(&self) -> (r: Json) {
        envelope::seal("tweet", self.tweet.encode())
    }
}

/// A tweet without its content: whose it is, and when it was written.
#[derive(Clone, Debug, PartialEq, Eq)]
pub struct Tweet {
    /// The entry `tweet_id`.
    pub tweet_id: String,
    /// The entry `user_id`.
    pub user_id: String,
    /// The entry `created_at`, in the encoding of `convert::created_at`.
    pub created_at: Instant,
}

/// What a value of [`Tweet`] holds.
pub struct TweetModel {
    pub tweet_id: Seq<char>,
    pub user_id: Seq<char>,
    pub created_at: Civil,
}

impl View for Tweet {
    type V = TweetModel;

    open spec fn view(&self) -> TweetModel {
        TweetModel {
            tweet_id: self.tweet_id@,
            user_id: self.user_id@,
            created_at: self.created_at@,
        }
    }
}

impl Tweet {
    /// No two of the keys are the same.
    proof fn lemma_keys_differ()
        ensures
            "tweet_id"@ != "user_id"@,
            "tweet_id"@ != "created_at"@,
            "user_id"@ != "created_at"@,
    {
        reveal_strlit("tweet_id");
        reveal_strlit("user_id");
        reveal_strlit("created_at");
        assert("tweet_id"@.len() == 8);
        assert("user_id"@.len() == 7);
        assert("created_at"@.len() == 10);
    }
}

impl Record for Tweet {
    open spec fn read(value: JsonModel) -> Option<TweetModel> {
        match value {
            JsonModel::Object(entries) => if entries.len() == 3
                && text_at(entries, "tweet_id"@).is_some()
                && text_at(entries, "user_id"@).is_some()
                && created_at(entries, "created_at"@).is_some()
            {
                Some(
                    TweetModel {
                        tweet_id: text_at(entries, "tweet_id"@).unwrap(),
                        user_id: text_at(entries, "user_id"@).unwrap(),
                        created_at: created_at(entries, "created_at"@).unwrap(),
                    },
                )
            } else {
                None
            },
            _ => None,
        }
    }

    open spec fn written(record: TweetModel) -> JsonModel {
        JsonModel::Object(
            seq![
                ("tweet_id"@, JsonModel::Text(record.tweet_id)),
                ("user_id"@, JsonModel::Text(record.user_id)),
                ("created_at"@, created_value(record.created_at)),
            ],
        )
    }

    open spec fn is_writable(record: TweetModel) -> bool {
        &&& created_writable(record.created_at)
    }

    open spec fn is_canonical(value: JsonModel) -> bool {
        &&& value is Object
        &&& value->Object_0.len() == 3
        &&& value->Object_0[0].0 == "tweet_id"@
        &&& value->Object_0[1].0 == "user_id"@
        &&& value->Object_0[2].0 == "created_at"@
        &&& created_canonical(value->Object_0[2].1)
    }

    proof fn written_is_read_back(record: TweetModel) {
        let entries = Self::written(record)->Object_0;
        Self::lemma_keys_differ();
        lemma_lookup_at(entries, 0);
        lemma_lookup_at(entries, 1);
        lemma_lookup_at(entries, 2);
        lemma_created_value(entries, "created_at"@, record.created_at);
    }

    proof fn read_is_written_back(value: JsonModel) {
        let entries = value->Object_0;
        Self::lemma_keys_differ();
        lemma_lookup_at(entries, 0);
        lemma_lookup_at(entries, 1);
        lemma_lookup_at(entries, 2);
        lemma_created_at(entries, "created_at"@);
        assert(Self::written(Self::read(value).unwrap())->Object_0 =~= entries);
    }

    fn decode(value: &Json) -> (r: Option<Tweet>) {
        let entries = match value.as_object() {
            Some(entries) => entries,
            None => {
                return None;
            },
        };
        if entries.len() != 3 {
            return None;
        }
        let tweet_id = match read_text(entries, "tweet_id") {
            Some(found) => found,
            None => {
                return None;
            },
        };
        let user_id = match read_text(entries, "user_id") {
            Some(found) => found,
            None => {
                return None;
            },
        };
        let created_at = match read_created(entries, "created_at") {
            Some(found) => found,
            None => {
                return None;
            },
        };
        Some(Tweet { tweet_id, user_id, created_at })
    }

    fn encode(&self) -> (r: Json) {
        let mut entries: Vec<(String, Json)> = Vec::new();
        entries.push(text_entry("tweet_id", &self.tweet_id));
        entries.push(text_entry("user_id", &self.user_id));
        entries.push(created_entry("created_at", &self.created_at));
        proof {
            assert(entry_models(entries@) =~= Self::written(self@)->Object_0);
        }
        Json::object(entries)
    }
}

} // verus!
