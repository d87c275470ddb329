//! The records of the file `data/account-timezone.js`.

use vstd::prelude::*;
use vstd::string::*;
use crate::envelope;
use crate::json::{entry_models, lemma_lookup_at, Json, JsonModel};
use crate::record::{read_text, text_at, text_entry, Record};

verus! {

/// An envelope: an object of the one entry `accountTimezone`, which holds a
/// [`AccountTimezone`].
#[derive(Clone, Debug, PartialEq, Eq)]
pub struct AccountTimezoneObject {
    /// The entry `accountTimezone`.
    pub account_timezone: AccountTimezone,
}

/// What a value of [`AccountTimezoneObject`] holds.
pub struct AccountTimezoneObjectModel {
    pub account_timezone: AccountTimezoneModel,
}

impl View for AccountTimezoneObject {
    type V = AccountTimezoneObjectModel;

    open spec fn view(&self) -> AccountTimezoneObjectModel {
        AccountTimezoneObjectModel {
            account_timezone: self.account_timezone@,
        }
    }
}

impl Record for AccountTimezoneObject {
    open spec fn read(value: JsonModel) -> Option<AccountTimezoneObjectModel> {
        match envelope::opened(value, "accountTimezone"@) {
            Some(inner) => match AccountTimezone::read(inner) {
                Some(account_timezone) => Some(AccountTimezoneObjectModel { account_timezone }),
                None => None,
            },
            None => None,
        }
    }

    open spec fn written(record: AccountTimezoneObjectModel) -> JsonModel {
        envelope::sealed("accountTimezone"@, AccountTimezone::written(record.account_timezone))
    }

    open spec fn is_writable(record: AccountTimezoneObjectModel) -> bool {
        AccountTimezone::is_writable(record.account_timezone)
    }

    open spec fn is_canonical(value: JsonModel) -> bool {
        match envelope::opened(value, "accountTimezone"@) {
            Some(inner) => AccountTimezone::is_canonical(inner),
            None => false,
        }
    }

    proof fn written_is_read_back(record: AccountTimezoneObjectModel) {
        AccountTimezone::written_is_read_back(record.account_timezone);
    }

    proof fn read_is_written_back(value: JsonModel) {
        AccountTimezone::read_is_written_back(envelope::opened(value, "accountTimezone"@).unwrap());
        envelope::open_then_seal(value, "accountTimezone"@);
    }

    fn decode(value: &Json) -> (r: Option<AccountTimezoneObject>) {
        match envelope::open(value, "accountTimezone") {
            Ok(inner) => match AccountTimezone::decode(inner) {
                Some(account_timezone) => Some(AccountTimezoneObject { account_timezone }),
                None => None,
            },
            Err(_) => None,
        }
    }

    fn encode(&self) -> (r: Json) {
        envelope::seal("accountTimezone", self.account_timezone.encode())
    }
}

/// The time zone that the account is set to.
#[derive(Clone, Debug, PartialEq, Eq)]
pub struct AccountTimezone {
    /// The entry `accountId`.
    pub account_id: String,
    /// The entry `timeZone`.
    pub time_zone: String,
}

/// What a value of [`AccountTimezone`] holds.
pub struct AccountTimezoneModel {
    pub account_id: Seq<char>,
    pub time_zone: Seq<char>,
}

impl View for AccountTimezone {
    type V = AccountTimezoneModel;

    open spec fn view(&self) -> AccountTimezoneModel {
        AccountTimezoneModel {
            account_id: self.account_id@,
            time_zone: self.time_zone@,
        }
    }
}

impl AccountTimezone {
    /// No two of the keys are the same.
    proof fn lemma_keys_differ()
        ensures
            "accountId"@ != "timeZone"@,
    {
        reveal_strlit("accountId");
        reveal_strlit("timeZone");
        assert("accountId"@.len() == 9);
        assert("timeZone"@.len() == 8);
    }
}

impl Record for AccountTimezone {
    open spec fn read(value: JsonModel) -> Option<AccountTimezoneModel> {
        match value {
            JsonModel::Object(entries) => if entries.len() == 2
                && text_at(entries, "accountId"@).is_some()
                && text_at(entries, "timeZone"@).is_some()
            {
                Some(
                    AccountTimezoneModel {
                        account_id: text_at(entries, "accountId"@).unwrap(),
                        time_zone: text_at(entries, "timeZone"@).unwrap(),
                    },
                )
            } else {
                None
            },
            _ => None,
        }
    }

    open spec fn written(record: AccountTimezoneModel) -> JsonModel {
        JsonModel::Object(
            seq![
                ("accountId"@, JsonModel::Text(record.account_id)),
                ("timeZone"@, JsonModel::Text(record.time_zone)),
            ],
        )
    }

    open spec fn is_writable(record: AccountTimezoneModel) -> bool {
        true
    }

    open spec fn is_canonical(value: JsonModel) -> bool {
        &&& value is Object
        &&& value->Object_0.len() == 2
        &&& value->Object_0[0].0 == "accountId"@
        &&& value->Object_0[1].0 == "timeZone"@
    }

    proof fn written_is_read_back(record: AccountTimezoneModel) {
        let entries = Self::written(record)->Object_0;
        Self::lemma_keys_differ();
        lemma_lookup_at(entries, 0);
        lemma_lookup_at(entries, 1);
    }

    proof fn read_is_written_back(value: JsonModel) {
        let entries = value->Object_0;
        Self::lemma_keys_differ();
        lemma_lookup_at(entries, 0);
        lemma_lookup_at(entries, 1);
        assert(Self::written(Self::read(value).unwrap())->Object_0 =~= entries);
    }

    fn decode(value: &Json) -> (r: Option<AccountTimezone>) {
        let entries = match value.as_object() {
            Some(entries) => entries,
            None => {
                return None;
            },
        };
        if entries.len() != 2 {
            return None;
        }
        let account_id = match read_text(entries, "accountId") {
            Some(found) => found,
            None => {
                return None;
            },
        };
        let time_zone = match read_text(entries, "timeZone") {
            Some(found) => found,
            None => {
                return None;
            },
        };
        Some(AccountTimezone { account_id, time_zone })
    }

    fn encode(&self) -> (r: Json) {
        let mut entries: Vec<(String, Json)> = Vec::new();
        entries.push(text_entry("accountId", &self.account_id));
        entries.push(text_entry("timeZone", &self.time_zone));
        proof {
            assert(entry_models(entries@) =~= Self::written(self@)->Object_0);
        }
        Json::object(entries)
    }
}

} // verus!
