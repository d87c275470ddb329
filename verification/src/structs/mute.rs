//! The records of the file `data/mute.js`.

use vstd::prelude::*;
use vstd::string::*;
use crate::envelope;
use crate::json::{entry_models, lemma_lookup_at, Json, JsonModel};
use crate::record::{read_text, text_at, text_entry, Record};

verus! {

/// An envelope: an object of the one entry `muting`, which holds a [`Muting`].
#[derive(Clone, Debug, PartialEq, Eq)]
pub struct MutingObject {
    /// The entry `muting`.
    pub muting: Muting,
}

/// What a value of [`MutingObject`] holds.
pub struct MutingObjectModel {
    pub muting: MutingModel,
}

impl View for MutingObject {
    type V = MutingObjectModel;

    open spec fn view(&self) -> MutingObjectModel {
        MutingObjectModel {
            muting: self.muting@,
        }
    }
}

impl Record for MutingObject {
    open spec fn read(value: JsonModel) -> Option<MutingObjectModel> {
        match envelope::opened(value, "muting"@) {
            Some(inner) => match Muting::read(inner) {
                Some(muting) => Some(MutingObjectModel { muting }),
                None => None,
            },
            None => None,
        }
    }

    open spec fn written(record: MutingObjectModel) -> JsonModel {
        envelope::sealed("muting"@, Muting::written(record.muting))
    }

    open spec fn is_writable(record: MutingObjectModel) -> bool {
        Muting::is_writable(record.muting)
    }

    open spec fn is_canonical(value: JsonModel) -> bool {
        match envelope::opened(value, "muting"@) {
            Some(inner) => Muting::is_canonical(inner),
            None => false,
        }
    }

    proof fn written_is_read_back(record: MutingObjectModel) {
        Muting::written_is_read_back(record.muting);
    }

    proof fn read_is_written_back(value: JsonModel) {
        Muting::read_is_written_back(envelope::opened(value, "muting"@).unwrap());
        envelope::open_then_seal(value, "muting"@);
    }

    fn decode(value: &Json) -> (r: Option<MutingObject>) {
        match envelope::open(value, "muting") {
            Ok(inner) => match Muting::decode(inner) {
                Some(muting) => Some(MutingObject { muting }),
                None => None,
            },
            Err(_) => None,
        }
    }

    fn encode(&self) -> (r: Json) {
        envelope::seal("muting", self.muting.encode())
    }
}

/// An account that this account has muted.
#[derive(Clone, Debug, PartialEq, Eq)]
pub struct Muting {
    /// The entry `accountId`.
    pub account_id: String,
    /// The entry `userLink`.
    pub user_link: String,
}

/// What a value of [`Muting`] holds.
pub struct MutingModel {
    pub account_id: Seq<char>,
    pub user_link: Seq<char>,
}

impl View for Muting {
    type V = MutingModel;

    open spec fn view(&self) -> MutingModel {
        MutingModel {
            account_id: self.account_id@,
            user_link: self.user_link@,
        }
    }
}

impl Muting {
    /// No two of the keys are the same.
    proof fn lemma_keys_differ()
        ensures
            "accountId"@ != "userLink"@,
    {
        reveal_strlit("accountId");
        reveal_strlit("userLink");
        assert("accountId"@.len() == 9);
        assert("userLink"@.len() == 8);
    }
}

impl Record for Muting {
    open spec fn read(value: JsonModel) -> Option<MutingModel> {
        match value {
            JsonModel::Object(entries) => if entries.len() == 2
                && text_at(entries, "accountId"@).is_some()
                && text_at(entries, "userLink"@).is_some()
            {
                Some(
                    MutingModel {
                        account_id: text_at(entries, "accountId"@).unwrap(),
                        user_link: text_at(entries, "userLink"@).unwrap(),
                    },
                )
            } else {
                None
            },
            _ => None,
        }
    }

    open spec fn written(record: MutingModel) -> JsonModel {
        JsonModel::Object(
            seq![
                ("accountId"@, JsonModel::Text(record.account_id)),
                ("userLink"@, JsonModel::Text(record.user_link)),
            ],
        )
    }

    open spec fn is_writable(record: MutingModel) -> bool {
        true
    }

    open spec fn is_canonical(value: JsonModel) -> bool {
        &&& value is Object
        &&& value->Object_0.len() == 2
        &&& value->Object_0[0].0 == "accountId"@
        &&& value->Object_0[1].0 == "userLink"@
    }

    proof fn written_is_read_back(record: MutingModel) {
        let entries = Self::written(record)->Object_0;
        Self::lemma_keys_differ();
        lemma_lookup_at(entries, 0);
        lemma_lookup_at(entries, 1);
    }

    proof fn read_is_written_back(value: JsonModel) {
        let entries = value->Object_0;
        Self::lemma_keys_differ();
        lemma_lookup_at(entries, 0);
        lemma_lookup_at(entries, 1);
        assert(Self::written(Self::read(value).unwrap())->Object_0 =~= entries);
    }

    fn decode(value: &Json) -> (r: Option<Muting>) {
        let entries = match value.as_object() {
            Some(entries) => entries,
            None => {
                return None;
            },
        };
        if entries.len() != 2 {
            return None;
        }
        let account_id = match read_text(entries, "accountId") {
            Some(found) => found,
            None => {
                return None;
            },
        };
        let user_link = match read_text(entries, "userLink") {
            Some(found) => found,
            None => {
                return None;
            },
        };
        Some(Muting { account_id, user_link })
    }

    fn encode(&self) -> (r: Json) {
        let mut entries: Vec<(String, Json)> = Vec::new();
        entries.push(text_entry("accountId", &self.account_id));
        entries.push(text_entry("userLink", &self.user_link));
        proof {
            assert(entry_models(entries@) =~= Self::written(self@)->Object_0);
        }
        Json::object(entries)
    }
}

} // verus!
