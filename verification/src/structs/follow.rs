//! Records that the files `data/following.js` and `data/follower.js` share.

use vstd::prelude::*;
use vstd::string::*;
use crate::json::{entry_models, lemma_lookup_at, Json, JsonModel};
use crate::record::{read_text, text_at, text_entry, Record};

verus! {

/// An account that follows this account, or that this account follows.
#[derive(Clone, Debug, PartialEq, Eq)]
pub struct Follow {
    /// The entry `accountId`.
    pub account_id: String,
    /// The entry `userLink`.
    pub user_link: String,
}

/// What a value of [`Follow`] holds.
pub struct FollowModel {
    pub account_id: Seq<char>,
    pub user_link: Seq<char>,
}

impl View for Follow {
    type V = FollowModel;

    open spec fn view(&self) -> FollowModel {
        FollowModel {
            account_id: self.account_id@,
            user_link: self.user_link@,
        }
    }
}

impl Follow {
    /// No two of the keys are the same.
    proof fn lemma_keys_differ()
        ensures
            "accountId"@ != "userLink"@,
    {
        reveal_strlit("accountId");
        reveal_strlit("userLink");
        assert("accountId"@.len() == 9);
        assert("userLink"@.len() == 8);
    }
}

impl Record for Follow {
    open spec fn read(value: JsonModel) -> Option<FollowModel> {
        match value {
            JsonModel::Object(entries) => if entries.len() == 2
                && text_at(entries, "accountId"@).is_some()
                && text_at(entries, "userLink"@).is_some()
            {
                Some(
                    FollowModel {
                        account_id: text_at(entries, "accountId"@).unwrap(),
                        user_link: text_at(entries, "userLink"@).unwrap(),
                    },
                )
            } else {
                None
            },
            _ => None,
        }
    }

    open spec fn written(record: FollowModel) -> JsonModel {
        JsonModel::Object(
            seq![
                ("accountId"@, JsonModel::Text(record.account_id)),
                ("userLink"@, JsonModel::Text(record.user_link)),
            ],
        )
    }

    open spec fn is_writable(record: FollowModel) -> bool {
        true
    }

    open spec fn is_canonical(value: JsonModel) -> bool {
        &&& value is Object
        &&& value->Object_0.len() == 2
        &&& value->Object_0[0].0 == "accountId"@
        &&& value->Object_0[1].0 == "userLink"@
    }

    proof fn written_is_read_back(record: FollowModel) {
        let entries = Self::written(record)->Object_0;
        Self::lemma_keys_differ();
        lemma_lookup_at(entries, 0);
        lemma_lookup_at(entries, 1);
    }

    proof fn read_is_written_back(value: JsonModel) {
        let entries = value->Object_0;
        Self::lemma_keys_differ();
        lemma_lookup_at(entries, 0);
        lemma_lookup_at(entries, 1);
        assert(Self::written(Self::read(value).unwrap())->Object_0 =~= entries);
    }

    fn decode(value: &Json) -> (r: Option<Follow>) {
        let entries = match value.as_object() {
            Some(entries) => entries,
            None => {
                return None;
            },
        };
        if entries.len() != 2 {
            return None;
        }
        let account_id = match read_text(entries, "accountId") {
            Some(found) => found,
            None => {
                return None;
            },
        };
        let user_link = match read_text(entries, "userLink") {
            Some(found) => found,
            None => {
                return None;
            },
        };
        Some(Follow { account_id, user_link })
    }

    fn encode(&self) -> (r: Json) {
        let mut entries: Vec<(String, Json)> = Vec::new();
        entries.push(text_entry("accountId", &self.account_id));
        entries.push(text_entry("userLink", &self.user_link));
        proof {
            assert(entry_models(entries@) =~= Self::written(self@)->Object_0);
        }
        Json::object(entries)
    }
}

} // verus!
