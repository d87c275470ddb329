//! The records of the file `data/block.js`.

use vstd::prelude::*;
use vstd::string::*;
use crate::envelope;
use crate::json::{entry_models, lemma_lookup_at, Json, JsonModel};
use crate::record::{read_text, text_at, text_entry, Record};

verus! {

/// An envelope: an object of the one entry `blocking`, which holds a
/// [`Blocking`].
#[derive(Clone, Debug, PartialEq, Eq)]
pub struct BlockingObject {
    /// The entry `blocking`.
    pub blocking: Blocking,
}

/// What a value of [`BlockingObject`] holds.
pub struct BlockingObjectModel {
    pub blocking: BlockingModel,
}

impl View for BlockingObject {
    type V = BlockingObjectModel;

    open spec fn view(&self) -> BlockingObjectModel {
        BlockingObjectModel {
            blocking: self.blocking@,
        }
    }
}

impl Record for BlockingObject {
    open spec fn read(value: JsonModel) -> Option<BlockingObjectModel> {
        match envelope::opened(value, "blocking"@) {
            Some(inner) => match Blocking::read(inner) {
                Some(blocking) => Some(BlockingObjectModel { blocking }),
                None => None,
            },
            None => None,
        }
    }

    open spec fn written(record: BlockingObjectModel) -> JsonModel {
        envelope::sealed("blocking"@, Blocking::written(record.blocking))
    }

    open spec fn is_writable(record: BlockingObjectModel) -> bool {
        Blocking::is_writable(record.blocking)
    }

    open spec fn is_canonical(value: JsonModel) -> bool {
        match envelope::opened(value, "blocking"@) {
            Some(inner) => Blocking::is_canonical(inner),
            None => false,
        }
    }

    proof fn written_is_read_back(record: BlockingObjectModel) {
        Blocking::written_is_read_back(record.blocking);
    }

    proof fn read_is_written_back(value: JsonModel) {
        Blocking::read_is_written_back(envelope::opened(value, "blocking"@).unwrap());
        envelope::open_then_seal(value, "blocking"@);
    }

    fn decode(value: &Json) -> (r: Option<BlockingObject>) {
        match envelope::open(value, "blocking") {
            Ok(inner) => match Blocking::decode(inner) {
                Some(blocking) => Some(BlockingObject { blocking }),
                None => None,
            },
            Err(_) => None,
        }
    }

    fn encode(&self) -> (r: Json) {
        envelope::seal("blocking", self.blocking.encode())
    }
}

/// An account that this account has blocked.
#[derive(Clone, Debug, PartialEq, Eq)]
pub struct Blocking {
    /// The entry `accountId`.
    pub account_id: String,
    /// The entry `userLink`.
    pub user_link: String,
}

/// What a value of [`Blocking`] holds.
pub struct BlockingModel {
    pub account_id: Seq<char>,
    pub user_link: Seq<char>,
}

impl View for Blocking {
    type V = BlockingModel;

    open spec fn view(&self) -> BlockingModel {
        BlockingModel {
            account_id: self.account_id@,
            user_link: self.user_link@,
        }
    }
}

impl Blocking {
    /// No two of the keys are the same.
    proof fn lemma_keys_differ()
        ensures
            "accountId"@ != "userLink"@,
    {
        reveal_strlit("accountId");
        reveal_strlit("userLink");
        assert("accountId"@.len() == 9);
        assert("userLink"@.len() == 8);
    }
}

impl Record for Blocking {
    open spec fn read(value: JsonModel) -> Option<BlockingModel> {
        match value {
            JsonModel::Object(entries) => if entries.len() == 2
                && text_at(entries, "accountId"@).is_some()
                && text_at(entries, "userLink"@).is_some()
            {
                Some(
                    BlockingModel {
                        account_id: text_at(entries, "accountId"@).unwrap(),
                        user_link: text_at(entries, "userLink"@).unwrap(),
                    },
                )
            } else {
                None
            },
            _ => None,
        }
    }

    open spec fn written(record: BlockingModel) -> JsonModel {
        JsonModel::Object(
            seq![
                ("accountId"@, JsonModel::Text(record.account_id)),
                ("userLink"@, JsonModel::Text(record.user_link)),
            ],
        )
    }

    open spec fn is_writable(record: BlockingModel) -> bool {
        true
    }

    open spec fn is_canonical(value: JsonModel) -> bool {
        &&& value is Object
        &&& value->Object_0.len() == 2
        &&& value->Object_0[0].0 == "accountId"@
        &&& value->Object_0[1].0 == "userLink"@
    }

    proof fn written_is_read_back(record: BlockingModel) {
        let entries = Self::written(record)->Object_0;
        Self::lemma_keys_differ();
        lemma_lookup_at(entries, 0);
        lemma_lookup_at(entries, 1);
    }

    proof fn read_is_written_back(value: JsonModel) {
        let entries = value->Object_0;
        Self::lemma_keys_differ();
        lemma_lookup_at(entries, 0);
        lemma_lookup_at(entries, 1);
        assert(Self::written(Self::read(value).unwrap())->Object_0 =~= entries);
    }

    fn decode(value: &Json) -> (r: Option<Blocking>) {
        let entries = match value.as_object() {
            Some(entries) => entries,
            None => {
                return None;
            },
        };
        if entries.len() != 2 {
            return None;
        }
        let account_id = match read_text(entries, "accountId") {
            Some(found) => found,
            None => {
                return None;
            },
        };
        let user_link = match read_text(entries, "userLink") {
            Some(found) => found,
            None => {
                return None;
            },
        };
        Some(Blocking { account_id, user_link })
    }

    fn encode(&self) -> (r: Json) {
        let mut entries: Vec<(String, Json)> = Vec::new();
        entries.push(text_entry("accountId", &self.account_id));
        entries.push(text_entry("userLink", &self.user_link));
        proof {
            assert(entry_models(entries@) =~= Self::written(self@)->Object_0);
        }
        Json::object(entries)
    }
}

} // verus!
