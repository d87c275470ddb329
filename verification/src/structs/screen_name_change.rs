//! The records of the file `data/screen-name-change.js`.

use vstd::prelude::*;
use vstd::string::*;
use crate::convert::date_time_iso_8601;
use crate::envelope;
use crate::instant::{Civil, Instant};
use crate::json::{entry_models, lemma_lookup_at, Json, JsonModel};
use crate::record;
use crate::record::{
    instant_at, instant_entry, read_instant, read_record, read_text, record_at, record_entry,
    text_at, text_entry, Record,
};

verus! {

/// An envelope: an object of the one entry `screenNameChange`, which holds a
/// [`ScreenNameChangeEntry`].
#[derive(Clone, Debug, PartialEq, Eq)]
pub struct ScreenNameChangeObject {
    /// The entry `screenNameChange`.
    pub screen_name_change: ScreenNameChangeEntry,
}

/// What a value of [`ScreenNameChangeObject`] holds.
pub struct ScreenNameChangeObjectModel {
    pub screen_name_change: ScreenNameChangeEntryModel,
}

impl View for ScreenNameChangeObject {
    type V = ScreenNameChangeObjectModel;

    open spec fn view(&self) -> ScreenNameChangeObjectModel {
        ScreenNameChangeObjectModel {
            screen_name_change: self.screen_name_change@,
        }
    }
}

impl Record for ScreenNameChangeObject {
    open spec fn read(value: JsonModel) -> Option<ScreenNameChangeObjectModel> {
        match envelope::opened(value, "screenNameChange"@) {
            Some(inner) => match ScreenNameChangeEntry::read(inner) {
                Some(screen_name_change) => Some(
                    ScreenNameChangeObjectModel { screen_name_change },
                ),
                None => None,
            },
            None => None,
        }
    }

    open spec fn written(record: ScreenNameChangeObjectModel) -> JsonModel {
        envelope::sealed(
            "screenNameChange"@,
            ScreenNameChangeEntry::written(record.screen_name_change),
        )
    }

    open spec fn is_writable(record: ScreenNameChangeObjectModel) -> bool {
        ScreenNameChangeEntry::is_writable(record.screen_name_change)
    }

    open spec fn is_canonical(value: JsonModel) -> bool {
        match envelope::opened(value, "screenNameChange"@) {
            Some(inner) => ScreenNameChangeEntry::is_canonical(inner),
            None => false,
        }
    }

    proof fn written_is_read_back(record: ScreenNameChangeObjectModel) {
        ScreenNameChangeEntry::written_is_read_back(record.screen_name_change);
    }

    proof fn read_is_written_back(value: JsonModel) {
        ScreenNameChangeEntry::read_is_written_back(
            envelope::opened(value, "screenNameChange"@).unwrap(),
        );
        envelope::open_then_seal(value, "screenNameChange"@);
    }

    fn decode(value: &Json) -> (r: Option<ScreenNameChangeObject>) {
        match envelope::open(value, "screenNameChange") {
            Ok(inner) => match ScreenNameChangeEntry::decode(inner) {
                Some(screen_name_change) => Some(ScreenNameChangeObject { screen_name_change }),
                None => None,
            },
            Err(_) => None,
        }
    }

    fn encode(&self) -> (r: Json) {
        envelope::seal("screenNameChange", self.screen_name_change.encode())
    }
}

/// A change of the screen name of an account.
#[derive(Clone, Debug, PartialEq, Eq)]
pub struct ScreenNameChangeEntry {
    /// The entry `accountId`.
    pub account_id: String,
    /// The entry `screenNameChange`.
    pub screen_name_change: ScreenNameChange,
}

/// What a value of [`ScreenNameChangeEntry`] holds.
pub struct ScreenNameChangeEntryModel {
    pub account_id: Seq<char>,
    pub screen_name_change: ScreenNameChangeModel,
}

impl View for ScreenNameChangeEntry {
    type V = ScreenNameChangeEntryModel;

    open spec fn view(&self) -> ScreenNameChangeEntryModel {
        ScreenNameChangeEntryModel {
            account_id: self.account_id@,
            screen_name_change: self.screen_name_change@,
        }
    }
}

impl ScreenNameChangeEntry {
    /// No two of the keys are the same.
    proof fn lemma_keys_differ()
        ensures
            "accountId"@ != "screenNameChange"@,
    {
        reveal_strlit("accountId");
        reveal_strlit("screenNameChange");
        assert("accountId"@.len() == 9);
        assert("screenNameChange"@.len() == 16);
    }
}

impl Record for ScreenNameChangeEntry {
    open spec fn read(value: JsonModel) -> Option<ScreenNameChangeEntryModel> {
        match value {
            JsonModel::Object(entries) => if entries.len() == 2
                && text_at(entries, "accountId"@).is_some()
                && record_at::<ScreenNameChange>(entries, "screenNameChange"@).is_some()
            {
                Some(
                    ScreenNameChangeEntryModel {
                        account_id: text_at(entries, "accountId"@).unwrap(),
                        screen_name_change: record_at::<ScreenNameChange>(
                            entries,
                            "screenNameChange"@,
                        ).unwrap(),
                    },
                )
            } else {
                None
            },
            _ => None,
        }
    }

    open spec fn written(record: ScreenNameChangeEntryModel) -> JsonModel {
        JsonModel::Object(
            seq![
                ("accountId"@, JsonModel::Text(record.account_id)),
                ("screenNameChange"@, ScreenNameChange::written(record.screen_name_change)),
            ],
        )
    }

    open spec fn is_writable(record: ScreenNameChangeEntryModel) -> bool {
        &&& ScreenNameChange::is_writable(record.screen_name_change)
    }

    open spec fn is_canonical(value: JsonModel) -> bool {
        &&& value is Object
        &&& value->Object_0.len() == 2
        &&& value->Object_0[0].0 == "accountId"@
        &&& value->Object_0[1].0 == "screenNameChange"@
        &&& ScreenNameChange::is_canonical(value->Object_0[1].1)
    }

    proof fn written_is_read_back(record: ScreenNameChangeEntryModel) {
        let entries = Self::written(record)->Object_0;
        Self::lemma_keys_differ();
        lemma_lookup_at(entries, 0);
        lemma_lookup_at(entries, 1);
        ScreenNameChange::written_is_read_back(record.screen_name_change);
    }

    proof fn read_is_written_back(value: JsonModel) {
        let entries = value->Object_0;
        Self::lemma_keys_differ();
        lemma_lookup_at(entries, 0);
        lemma_lookup_at(entries, 1);
        ScreenNameChange::read_is_written_back(entries[1].1);
        assert(Self::written(Self::read(value).unwrap())->Object_0 =~= entries);
    }

    fn decode(value: &Json) -> (r: Option<ScreenNameChangeEntry>) {
        let entries = match value.as_object() {
            Some(entries) => entries,
            None => {
                return None;
            },
        };
        if entries.len() != 2 {
            return None;
        }
        let account_id = match read_text(entries, "accountId") {
            Some(found) => found,
            None => {
                return None;
            },
        };
        let screen_name_change = match read_record::<ScreenNameChange>(
            entries,
            "screenNameChange",
        ) {
            Some(found) => found,
            None => {
                return None;
            },
        };
        Some(ScreenNameChangeEntry { account_id, screen_name_change })
    }

    fn encode(&self) -> (r: Json) {
        let mut entries: Vec<(String, Json)> = Vec::new();
        entries.push(text_entry("accountId", &self.account_id));
        entries.push(record_entry("screenNameChange", &self.screen_name_change));
        proof {
            assert(entry_models(entries@) =~= Self::written(self@)->Object_0);
        }
        Json::object(entries)
    }
}

/// The screen name before and after, and when it changed.
#[derive(Clone, Debug, PartialEq, Eq)]
pub struct ScreenNameChange {
    /// The entry `changedAt`, in the encoding of
    /// `convert::date_time_iso_8601`.
    pub changed_at: Instant,
    /// The entry `changedFrom`.
    pub changed_from: String,
    /// The entry `changedTo`.
    pub changed_to: String,
}

/// What a value of [`ScreenNameChange`] holds.
pub struct ScreenNameChangeModel {
    pub changed_at: Civil,
    pub changed_from: Seq<char>,
    pub changed_to: Seq<char>,
}

impl View for ScreenNameChange {
    type V = ScreenNameChangeModel;

    open spec fn view(&self) -> ScreenNameChangeModel {
        ScreenNameChangeModel {
            changed_at: self.changed_at@,
            changed_from: self.changed_from@,
            changed_to: self.changed_to@,
        }
    }
}

impl ScreenNameChange {
    /// No two of the keys are the same.
    proof fn lemma_keys_differ()
        ensures
            "changedAt"@ != "changedFrom"@,
            "changedAt"@ != "changedTo"@,
            "changedFrom"@ != "changedTo"@,
    {
        reveal_strlit("changedAt");
        reveal_strlit("changedFrom");
        reveal_strlit("changedTo");
        assert("changedAt"@.len() == 9);
        assert("changedFrom"@.len() == 11);
        assert("changedTo"@.len() == 9);
        assert("changedAt"@[7] != "changedTo"@[7]);
    }
}

impl Record for ScreenNameChange {
    open spec fn read(value: JsonModel) -> Option<ScreenNameChangeModel> {
        match value {
            JsonModel::Object(entries) => if entries.len() == 3
                && instant_at(entries, "changedAt"@).is_some()
                && text_at(entries, "changedFrom"@).is_some()
                && text_at(entries, "changedTo"@).is_some()
            {
                Some(
                    ScreenNameChangeModel {
                        changed_at: instant_at(entries, "changedAt"@).unwrap(),
                        changed_from: text_at(entries, "changedFrom"@).unwrap(),
                        changed_to: text_at(entries, "changedTo"@).unwrap(),
                    },
                )
            } else {
                None
            },
            _ => None,
        }
    }

    open spec fn written(record: ScreenNameChangeModel) -> JsonModel {
        JsonModel::Object(
            seq![
                ("changedAt"@, JsonModel::Text(date_time_iso_8601::encoded(record.changed_at))),
                ("changedFrom"@, JsonModel::Text(record.changed_from)),
                ("changedTo"@, JsonModel::Text(record.changed_to)),
            ],
        )
    }

    open spec fn is_writable(record: ScreenNameChangeModel) -> bool {
        &&& record.changed_at.is_valid()
    }

    open spec fn is_canonical(value: JsonModel) -> bool {
        &&& value is Object
        &&& value->Object_0.len() == 3
        &&& value->Object_0[0].0 == "changedAt"@
        &&& value->Object_0[1].0 == "changedFrom"@
        &&& value->Object_0[2].0 == "changedTo"@
    }

    proof fn written_is_read_back(record: ScreenNameChangeModel) {
        let entries = Self::written(record)->Object_0;
        Self::lemma_keys_differ();
        lemma_lookup_at(entries, 0);
        lemma_lookup_at(entries, 1);
        lemma_lookup_at(entries, 2);
        date_time_iso_8601::instant_round_trip(record.changed_at);
    }

    proof fn read_is_written_back(value: JsonModel) {
        let entries = value->Object_0;
        Self::lemma_keys_differ();
        lemma_lookup_at(entries, 0);
        lemma_lookup_at(entries, 1);
        lemma_lookup_at(entries, 2);
        date_time_iso_8601::text_round_trip(entries[0].1->Text_0);
        assert(Self::written(Self::read(value).unwrap())->Object_0 =~= entries);
    }

    fn decode(value: &Json) -> (r: Option<ScreenNameChange>) {
        let entries = match value.as_object() {
            Some(entries) => entries,
            None => {
                return None;
            },
        };
        if entries.len() != 3 {
            return None;
        }
        let changed_at = match read_instant(entries, "changedAt") {
            Some(found) => found,
            None => {
                return None;
            },
        };
        let changed_from = match read_text(entries, "changedFrom") {
            Some(found) => found,
            None => {
                return None;
            },
        };
        let changed_to = match read_text(entries, "changedTo") {
            Some(found) => found,
            None => {
                return None;
            },
        };
        Some(ScreenNameChange { changed_at, changed_from, changed_to })
    }

    fn encode(&self) -> (r: Json) {
        let mut entries: Vec<(String, Json)> = Vec::new();
        entries.push(instant_entry("changedAt", &self.changed_at));
        entries.push(text_entry("changedFrom", &self.changed_from));
        entries.push(text_entry("changedTo", &self.changed_to));
        proof {
            assert(entry_models(entries@) =~= Self::written(self@)->Object_0);
        }
        Json::object(entries)
    }
}

} // verus!
