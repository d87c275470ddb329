//! The records of the file `data/verified.js`.

use vstd::prelude::*;
use vstd::string::*;
use crate::envelope;
use crate::json::{entry_models, lemma_lookup_at, Json, JsonModel};
use crate::record::{flag_at, flag_entry, read_flag, read_text, text_at, text_entry, Record};

verus! {

/// An envelope: an object of the one entry `verified`, which holds a
/// [`Verified`].
#[derive(Clone, Debug, PartialEq, Eq)]
pub struct VerifiedObject {
    /// The entry `verified`.
    pub verified: Verified,
}

/// What a value of [`VerifiedObject`] holds.
pub struct VerifiedObjectModel {
    pub verified: VerifiedModel,
}

impl View for VerifiedObject {
    type V = VerifiedObjectModel;

    open spec fn view(&self) -> VerifiedObjectModel {
        VerifiedObjectModel {
            verified: self.verified@,
        }
    }
}

impl Record for VerifiedObject {
    open spec fn read(value: JsonModel) -> Option<VerifiedObjectModel> {
        match envelope::opened(value, "verified"@) {
            Some(inner) => match Verified::read(inner) {
                Some(verified) => Some(VerifiedObjectModel { verified }),
                None => None,
            },
            None => None,
        }
    }

    open spec fn written(record: VerifiedObjectModel) -> JsonModel {
        envelope::sealed("verified"@, Verified::written(record.verified))
    }

    open spec fn is_writable(record: VerifiedObjectModel) -> bool {
        Verified::is_writable(record.verified)
    }

    open spec fn is_canonical(value: JsonModel) -> bool {
        match envelope::opened(value, "verified"@) {
            Some(inner) => Verified::is_canonical(inner),
            None => false,
        }
    }

    proof fn written_is_read_back(record: VerifiedObjectModel) {
        Verified::written_is_read_back(record.verified);
    }

    proof fn read_is_written_back(value: JsonModel) {
        Verified::read_is_written_back(envelope::opened(value, "verified"@).unwrap());
        envelope::open_then_seal(value, "verified"@);
    }

    fn decode(value: &Json) -> (r: Option<VerifiedObject>) {
        match envelope::open(value, "verified") {
            Ok(inner) => match Verified::decode(inner) {
                Some(verified) => Some(VerifiedObject { verified }),
                None => None,
            },
            Err(_) => None,
        }
    }

    fn encode(&self) -> (r: Json) {
        envelope::seal("verified", self.verified.encode())
    }
}

/// Whether the account is verified.
#[derive(Clone, Debug, PartialEq, Eq)]
pub struct Verified {
    /// The entry `accountId`.
    pub account_id: String,
    /// The entry `verified`.
    pub verified: bool,
}

/// What a value of [`Verified`] holds.
pub struct VerifiedModel {
    pub account_id: Seq<char>,
    pub verified: bool,
}

impl View for Verified {
    type V = VerifiedModel;

    open spec fn view(&self) -> VerifiedModel {
        VerifiedModel {
            account_id: self.account_id@,
            verified: self.verified,
        }
    }
}

impl Verified {
    /// No two of the keys are the same.
    proof fn lemma_keys_differ()
        ensures
            "accountId"@ != "verified"@,
    {
        reveal_strlit("accountId");
        reveal_strlit("verified");
        assert("accountId"@.len() == 9);
        assert("verified"@.len() == 8);
    }
}

impl Record for Verified {
    open spec fn read(value: JsonModel) -> Option<VerifiedModel> {
        match value {
            JsonModel::Object(entries) => if entries.len() == 2
                && text_at(entries, "accountId"@).is_some()
                && flag_at(entries, "verified"@).is_some()
            {
                Some(
                    VerifiedModel {
                        account_id: text_at(entries, "accountId"@).unwrap(),
                        verified: flag_at(entries, "verified"@).unwrap(),
                    },
                )
            } else {
                None
            },
            _ => None,
        }
    }

    open spec fn written(record: VerifiedModel) -> JsonModel {
        JsonModel::Object(
            seq![
                ("accountId"@, JsonModel::Text(record.account_id)),
                ("verified"@, JsonModel::Bool(record.verified)),
            ],
        )
    }

    open spec fn is_writable(record: VerifiedModel) -> bool {
        true
    }

    open spec fn is_canonical(value: JsonModel) -> bool {
        &&& value is Object
        &&& value->Object_0.len() == 2
        &&& value->Object_0[0].0 == "accountId"@
        &&& value->Object_0[1].0 == "verified"@
    }

    proof fn written_is_read_back(record: VerifiedModel) {
        let entries = Self::written(record)->Object_0;
        Self::lemma_keys_differ();
        lemma_lookup_at(entries, 0);
        lemma_lookup_at(entries, 1);
    }

    proof fn read_is_written_back(value: JsonModel) {
        let entries = value->Object_0;
        Self::lemma_keys_differ();
        lemma_lookup_at(entries, 0);
        lemma_lookup_at(entries, 1);
        assert(Self::written(Self::read(value).unwrap())->Object_0 =~= entries);
    }

    fn decode(value: &Json) -> (r: Option<Verified>) {
        let entries = match value.as_object() {
            Some(entries) => entries,
            None => {
                return None;
            },
        };
        if entries.len() != 2 {
            return None;
        }
        let account_id = match read_text(entries, "accountId") {
            Some(found) => found,
            None => {
                return None;
            },
        };
        let verified = match read_flag(entries, "verified") {
            Some(found) => found,
            None => {
                return None;
            },
        };
        Some(Verified { account_id, verified })
    }

    fn encode(&self) -> (r: Json) {
        let mut entries: Vec<(String, Json)> = Vec::new();
        entries.push(text_entry("accountId", &self.account_id));
        entries.push(flag_entry("verified", &self.verified));
        proof {
            assert(entry_models(entries@) =~= Self::written(self@)->Object_0);
        }
        Json::object(entries)
    }
}

} // verus!
