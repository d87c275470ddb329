//! The records of the file `data/twitter-circle.js`.

use vstd::prelude::*;
use vstd::string::*;
use crate::convert::date_time_iso_8601;
use crate::envelope;
use crate::instant::{Civil, Instant};
use crate::json::{entry_models, lemma_lookup_at, Json, JsonModel};
use crate::record::{
    created_at, instant_at, instant_entry, read_instant, read_text, text_at, text_entry, Record,
};

verus! {

/// An envelope: an object of the one entry `twitterCircle`, which holds a
/// [`TwitterCircle`].
#[derive(Clone, Debug, PartialEq, Eq)]
pub struct TwitterCircleObject {
    /// The entry `twitterCircle`.
    pub twitter_circle: TwitterCircle,
}

/// What a value of [`TwitterCircleObject`] holds.
pub struct TwitterCircleObjectModel {
    pub twitter_circle: TwitterCircleModel,
}

impl View for TwitterCircleObject {
    type V = TwitterCircleObjectModel;

    open spec fn view(&self) -> TwitterCircleObjectModel {
        TwitterCircleObjectModel {
            twitter_circle: self.twitter_circle@,
        }
    }
}

impl Record for TwitterCircleObject {
    open spec fn read(value: JsonModel) -> Option<TwitterCircleObjectModel> {
        match envelope::opened(value, "twitterCircle"@) {
            Some(inner) => match TwitterCircle::read(inner) {
                Some(twitter_circle) => Some(TwitterCircleObjectModel { twitter_circle }),
                None => None,
            },
            None => None,
        }
    }

    open spec fn written(record: TwitterCircleObjectModel) -> JsonModel {
        envelope::sealed("twitterCircle"@, TwitterCircle::written(record.twitter_circle))
    }

    open spec fn is_writable(record: TwitterCircleObjectModel) -> bool {
        TwitterCircle::is_writable(record.twitter_circle)
    }

    open spec fn is_canonical(value: JsonModel) -> bool {
        match envelope::opened(value, "twitterCircle"@) {
            Some(inner) => TwitterCircle::is_canonical(inner),
            None => false,
        }
    }

    proof fn written_is_read_back(record: TwitterCircleObjectModel) {
        TwitterCircle::written_is_read_back(record.twitter_circle);
    }

    proof fn read_is_written_back(value: JsonModel) {
        TwitterCircle::read_is_written_back(envelope::opened(value, "twitterCircle"@).unwrap());
        envelope::open_then_seal(value, "twitterCircle"@);
    }

    fn decode(value: &Json) -> (r: Option<TwitterCircleObject>) {
        match envelope::open(value, "twitterCircle") {
            Ok(inner) => match TwitterCircle::decode(inner) {
                Some(twitter_circle) => Some(TwitterCircleObject { twitter_circle }),
                None => None,
            },
            Err(_) => None,
        }
    }

    fn encode(&self) -> (r: Json) {
        envelope::seal("twitterCircle", self.twitter_circle.encode())
    }
}

/// The circle of the account.
#[derive(Clone, Debug, PartialEq, Eq)]
pub struct TwitterCircle {
    /// The entry `id`.
    pub id: String,
    /// The entry `ownerUserId`.
    pub owner_user_id: String,
    /// The entry `createdAt`, in the encoding of
    /// `convert::date_time_iso_8601`.
    pub created_at: Instant,
}

/// What a value of [`TwitterCircle`] holds.
pub struct TwitterCircleModel {
    pub id: Seq<char>,
    pub owner_user_id: Seq<char>,
    pub created_at: Civil,
}

impl View for TwitterCircle {
    type V = TwitterCircleModel;

    open spec fn view(&self) -> TwitterCircleModel {
        TwitterCircleModel {
            id: self.id@,
            owner_user_id: self.owner_user_id@,
            created_at: self.created_at@,
        }
    }
}

impl TwitterCircle {
    /// No two of the keys are the same.
    proof fn lemma_keys_differ()
        ensures
            "id"@ != "ownerUserId"@,
            "id"@ != "createdAt"@,
            "ownerUserId"@ != "createdAt"@,
    {
        reveal_strlit("id");
        reveal_strlit("ownerUserId");
        reveal_strlit("createdAt");
        assert("id"@.len() == 2);
        assert("ownerUserId"@.len() == 11);
        assert("createdAt"@.len() == 9);
    }
}

impl Record for TwitterCircle {
    open spec fn read(value: JsonModel) -> Option<TwitterCircleModel> {
        match value {
            JsonModel::Object(entries) => if entries.len() == 3
                && text_at(entries, "id"@).is_some()
                && text_at(entries, "ownerUserId"@).is_some()
                && instant_at(entries, "createdAt"@).is_some()
            {
                Some(
                    TwitterCircleModel {
                        id: text_at(entries, "id"@).unwrap(),
                        owner_user_id: text_at(entries, "ownerUserId"@).unwrap(),
                        created_at: instant_at(entries, "createdAt"@).unwrap(),
                    },
                )
            } else {
                None
            },
            _ => None,
        }
    }

    open spec fn written(record: TwitterCircleModel) -> JsonModel {
        JsonModel::Object(
            seq![
                ("id"@, JsonModel::Text(record.id)),
                ("ownerUserId"@, JsonModel::Text(record.owner_user_id)),
                ("createdAt"@, JsonModel::Text(date_time_iso_8601::encoded(record.created_at))),
            ],
        )
    }

    open spec fn is_writable(record: TwitterCircleModel) -> bool {
        &&& record.created_at.is_valid()
    }

    open spec fn is_canonical(value: JsonModel) -> bool {
        &&& value is Object
        &&& value->Object_0.len() == 3
        &&& value->Object_0[0].0 == "id"@
        &&& value->Object_0[1].0 == "ownerUserId"@
        &&& value->Object_0[2].0 == "createdAt"@
    }

    proof fn written_is_read_back(record: TwitterCircleModel) {
        let entries = Self::written(record)->Object_0;
        Self::lemma_keys_differ();
        lemma_lookup_at(entries, 0);
        lemma_lookup_at(entries, 1);
        lemma_lookup_at(entries, 2);
        date_time_iso_8601::instant_round_trip(record.created_at);
    }

    proof fn read_is_written_back(value: JsonModel) {
        let entries = value->Object_0;
        Self::lemma_keys_differ();
        lemma_lookup_at(entries, 0);
        lemma_lookup_at(entries, 1);
        lemma_lookup_at(entries, 2);
        date_time_iso_8601::text_round_trip(entries[2].1->Text_0);
        assert(Self::written(Self::read(value).unwrap())->Object_0 =~= entries);
    }

    fn decode(value: &Json) -> (r: Option<TwitterCircle>) {
        let entries = match value.as_object() {
            Some(entries) => entries,
            None => {
                return None;
            },
        };
        if entries.len() != 3 {
            return None;
        }
        let id = match read_text(entries, "id") {
            Some(found) => found,
            None => {
                return None;
            },
        };
        let owner_user_id = match read_text(entries, "ownerUserId") {
            Some(found) => found,
            None => {
                return None;
            },
        };
        let created_at = match read_instant(entries, "createdAt") {
            Some(found) => found,
            None => {
                return None;
            },
        };
        Some(TwitterCircle { id, owner_user_id, created_at })
    }

    fn encode(&self) -> (r: Json) {
        let mut entries: Vec<(String, Json)> = Vec::new();
        entries.push(text_entry("id", &self.id));
        entries.push(text_entry("ownerUserId", &self.owner_user_id));
        entries.push(instant_entry("createdAt", &self.created_at));
        proof {
            assert(entry_models(entries@) =~= Self::written(self@)->Object_0);
        }
        Json::object(entries)
    }
}

} // verus!
