//! The records of the file `data/email-address-change.js`.

use vstd::prelude::*;
use vstd::string::*;
use crate::convert::date_time_iso_8601;
use crate::envelope;
use crate::instant::{Civil, Instant};
use crate::json::{entry_models, lemma_lookup_at, Json, JsonModel};
use crate::record;
use crate::record::{
    instant_at, instant_entry, read_instant, read_record, read_text, record_at, record_entry,
    text_at, text_entry, Record,
};

verus! {

/// An envelope: an object of the one entry `emailAddressChange`, which holds a
/// [`EmailAddressChange`].
#[derive(Clone, Debug, PartialEq, Eq)]
pub struct EmailAddressChangeObject {
    /// The entry `emailAddressChange`.
    pub email_address_change: EmailAddressChange,
}

/// What a value of [`EmailAddressChangeObject`] holds.
pub struct EmailAddressChangeObjectModel {
    pub email_address_change: EmailAddressChangeModel,
}

impl View for EmailAddressChangeObject {
    type V = EmailAddressChangeObjectModel;

    open spec fn view(&self) -> EmailAddressChangeObjectModel {
        EmailAddressChangeObjectModel {
            email_address_change: self.email_address_change@,
        }
    }
}

impl Record for EmailAddressChangeObject {
    open spec fn read(value: JsonModel) -> Option<EmailAddressChangeObjectModel> {
        match envelope::opened(value, "emailAddressChange"@) {
            Some(inner) => match EmailAddressChange::read(inner) {
                Some(email_address_change) => Some(
                    EmailAddressChangeObjectModel { email_address_change },
                ),
                None => None,
            },
            None => None,
        }
    }

    open spec fn written(record: EmailAddressChangeObjectModel) -> JsonModel {
        envelope::sealed(
            "emailAddressChange"@,
            EmailAddressChange::written(record.email_address_change),
        )
    }

    open spec fn is_writable(record: EmailAddressChangeObjectModel) -> bool {
        EmailAddressChange::is_writable(record.email_address_change)
    }

    open spec fn is_canonical(value: JsonModel) -> bool {
        match envelope::opened(value, "emailAddressChange"@) {
            Some(inner) => EmailAddressChange::is_canonical(inner),
            None => false,
        }
    }

    proof fn written_is_read_back(record: EmailAddressChangeObjectModel) {
        EmailAddressChange::written_is_read_back(record.email_address_change);
    }

    proof fn read_is_written_back(value: JsonModel) {
        EmailAddressChange::read_is_written_back(
            envelope::opened(value, "emailAddressChange"@).unwrap(),
        );
        envelope::open_then_seal(value, "emailAddressChange"@);
    }

    fn decode(value: &Json) -> (r: Option<EmailAddressChangeObject>) {
        match envelope::open(value, "emailAddressChange") {
            Ok(inner) => match EmailAddressChange::decode(inner) {
                Some(email_address_change) => Some(
                    EmailAddressChangeObject { email_address_change },
                ),
                None => None,
            },
            Err(_) => None,
        }
    }

    fn encode(&self) -> (r: Json) {
        envelope::seal("emailAddressChange", self.email_address_change.encode())
    }
}

/// A change of the address of an account.
#[derive(Clone, Debug, PartialEq, Eq)]
pub struct EmailAddressChange {
    /// The entry `accountId`.
    pub account_id: String,
    /// The entry `emailChange`.
    pub email_change: EmailChange,
}

/// What a value of [`EmailAddressChange`] holds.
pub struct EmailAddressChangeModel {
    pub account_id: Seq<char>,
    pub email_change: EmailChangeModel,
}

impl View for EmailAddressChange {
    type V = EmailAddressChangeModel;

    open spec fn view(&self) -> EmailAddressChangeModel {
        EmailAddressChangeModel {
            account_id: self.account_id@,
            email_change: self.email_change@,
        }
    }
}

impl EmailAddressChange {
    /// No two of the keys are the same.
    proof fn lemma_keys_differ()
        ensures
            "accountId"@ != "emailChange"@,
    {
        reveal_strlit("accountId");
        reveal_strlit("emailChange");
        assert("accountId"@.len() == 9);
        assert("emailChange"@.len() == 11);
    }
}

impl Record for EmailAddressChange {
    open spec fn read(value: JsonModel) -> Option<EmailAddressChangeModel> {
        match value {
            JsonModel::Object(entries) => if entries.len() == 2
                && text_at(entries, "accountId"@).is_some()
                && record_at::<EmailChange>(entries, "emailChange"@).is_some()
            {
                Some(
                    EmailAddressChangeModel {
                        account_id: text_at(entries, "accountId"@).unwrap(),
                        email_change: record_at::<EmailChange>(entries, "emailChange"@).unwrap(),
                    },
                )
            } else {
                None
            },
            _ => None,
        }
    }

    open spec fn written(record: EmailAddressChangeModel) -> JsonModel {
        JsonModel::Object(
            seq![
                ("accountId"@, JsonModel::Text(record.account_id)),
                ("emailChange"@, EmailChange::written(record.email_change)),
            ],
        )
    }

    open spec fn is_writable(record: EmailAddressChangeModel) -> bool {
        &&& EmailChange::is_writable(record.email_change)
    }

    open spec fn is_canonical(value: JsonModel) -> bool {
        &&& value is Object
        &&& value->Object_0.len() == 2
        &&& value->Object_0[0].0 == "accountId"@
        &&& value->Object_0[1].0 == "emailChange"@
        &&& EmailChange::is_canonical(value->Object_0[1].1)
    }

    proof fn written_is_read_back(record: EmailAddressChangeModel) {
        let entries = Self::written(record)->Object_0;
        Self::lemma_keys_differ();
        lemma_lookup_at(entries, 0);
        lemma_lookup_at(entries, 1);
        EmailChange::written_is_read_back(record.email_change);
    }

    proof fn read_is_written_back(value: JsonModel) {
        let entries = value->Object_0;
        Self::lemma_keys_differ();
        lemma_lookup_at(entries, 0);
        lemma_lookup_at(entries, 1);
        EmailChange::read_is_written_back(entries[1].1);
        assert(Self::written(Self::read(value).unwrap())->Object_0 =~= entries);
    }

    fn decode(value: &Json) -> (r: Option<EmailAddressChange>) {
        let entries = match value.as_object() {
            Some(entries) => entries,
            None => {
                return None;
            },
        };
        if entries.len() != 2 {
            return None;
        }
        let account_id = match read_text(entries, "accountId") {
            Some(found) => found,
            None => {
                return None;
            },
        };
        let email_change = match read_record::<EmailChange>(entries, "emailChange") {
            Some(found) => found,
            None => {
                return None;
            },
        };
        Some(EmailAddressChange { account_id, email_change })
    }

    fn encode(&self) -> (r: Json) {
        let mut entries: Vec<(String, Json)> = Vec::new();
        entries.push(text_entry("accountId", &self.account_id));
        entries.push(record_entry("emailChange", &self.email_change));
        proof {
            assert(entry_models(entries@) =~= Self::written(self@)->Object_0);
        }
        Json::object(entries)
    }
}

/// The address that the account was given, and when.
#[derive(Clone, Debug, PartialEq, Eq)]
pub struct EmailChange {
    /// The entry `changedAt`, in the encoding of
    /// `convert::date_time_iso_8601`.
    pub changed_at: Instant,
    /// The entry `changedTo`.
    pub changed_to: String,
}

/// What a value of [`EmailChange`] holds.
pub struct EmailChangeModel {
    pub changed_at: Civil,
    pub changed_to: Seq<char>,
}

impl View for EmailChange {
    type V = EmailChangeModel;

    open spec fn view(&self) -> EmailChangeModel {
        EmailChangeModel {
            changed_at: self.changed_at@,
            changed_to: self.changed_to@,
        }
    }
}

impl EmailChange {
    /// No two of the keys are the same.
    proof fn lemma_keys_differ()
        ensures
            "changedAt"@ != "changedTo"@,
    {
        reveal_strlit("changedAt");
        reveal_strlit("changedTo");
        assert("changedAt"@.len() == 9);
        assert("changedTo"@.len() == 9);
        assert("changedAt"@[7] != "changedTo"@[7]);
    }
}

impl Record for EmailChange {
    open spec fn read(value: JsonModel) -> Option<EmailChangeModel> {
        match value {
            JsonModel::Object(entries) => if entries.len() == 2
                && instant_at(entries, "changedAt"@).is_some()
                && text_at(entries, "changedTo"@).is_some()
            {
                Some(
                    EmailChangeModel {
                        changed_at: instant_at(entries, "changedAt"@).unwrap(),
                        changed_to: text_at(entries, "changedTo"@).unwrap(),
                    },
                )
            } else {
                None
            },
            _ => None,
        }
    }

    open spec fn written(record: EmailChangeModel) -> JsonModel {
        JsonModel::Object(
            seq![
                ("changedAt"@, JsonModel::Text(date_time_iso_8601::encoded(record.changed_at))),
                ("changedTo"@, JsonModel::Text(record.changed_to)),
            ],
        )
    }

    open spec fn is_writable(record: EmailChangeModel) -> bool {
        &&& record.changed_at.is_valid()
    }

    open spec fn is_canonical(value: JsonModel) -> bool {
        &&& value is Object
        &&& value->Object_0.len() == 2
        &&& value->Object_0[0].0 == "changedAt"@
        &&& value->Object_0[1].0 == "changedTo"@
    }

    proof fn written_is_read_back(record: EmailChangeModel) {
        let entries = Self::written(record)->Object_0;
        Self::lemma_keys_differ();
        lemma_lookup_at(entries, 0);
        lemma_lookup_at(entries, 1);
        date_time_iso_8601::instant_round_trip(record.changed_at);
    }

    proof fn read_is_written_back(value: JsonModel) {
        let entries = value->Object_0;
        Self::lemma_keys_differ();
        lemma_lookup_at(entries, 0);
        lemma_lookup_at(entries, 1);
        date_time_iso_8601::text_round_trip(entries[0].1->Text_0);
        assert(Self::written(Self::read(value).unwrap())->Object_0 =~= entries);
    }

    fn decode(value: &Json) -> (r: Option<EmailChange>) {
        let entries = match value.as_object() {
            Some(entries) => entries,
            None => {
                return None;
            },
        };
        if entries.len() != 2 {
            return None;
        }
        let changed_at = match read_instant(entries, "changedAt") {
            Some(found) => found,
            None => {
                return None;
            },
        };
        let changed_to = match read_text(entries, "changedTo") {
            Some(found) => found,
            None => {
                return None;
            },
        };
        Some(EmailChange { changed_at, changed_to })
    }

    fn encode(&self) -> (r: Json) {
        let mut entries: Vec<(String, Json)> = Vec::new();
        entries.push(instant_entry("changedAt", &self.changed_at));
        entries.push(text_entry("changedTo", &self.changed_to));
        proof {
            assert(entry_models(entries@) =~= Self::written(self@)->Object_0);
        }
        Json::object(entries)
    }
}

} // verus!
