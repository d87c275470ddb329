//! The records of the file `data/account.js`.

use vstd::prelude::*;
use vstd::string::*;
use crate::convert::date_time_iso_8601;
use crate::envelope;
use crate::instant::{Civil, Instant};
use crate::json::{entry_models, lemma_lookup_at, Json, JsonModel};
use crate::record::{
    created_at, instant_at, instant_entry, read_instant, read_text, text_at, text_entry, Record,
};

verus! {

/// An envelope: an object of the one entry `account`, which holds a
/// [`Account`].
#[derive(Clone, Debug, PartialEq, Eq)]
pub struct AccountObject {
    /// The entry `account`.
    pub account: Account,
}

/// What a value of [`AccountObject`] holds.
pub struct AccountObjectModel {
    pub account: AccountModel,
}

impl View for AccountObject {
    type V = AccountObjectModel;

    open spec fn view(&self) -> AccountObjectModel {
        AccountObjectModel {
            account: self.account@,
        }
    }
}

impl Record for AccountObject {
    open spec fn read(value: JsonModel) -> Option<AccountObjectModel> {
        match envelope::opened(value, "account"@) {
            Some(inner) => match Account::read(inner) {
                Some(account) => Some(AccountObjectModel { account }),
                None => None,
            },
            None => None,
        }
    }

    open spec fn written(record: AccountObjectModel) -> JsonModel {
        envelope::sealed("account"@, Account::written(record.account))
    }

    open spec fn is_writable(record: AccountObjectModel) -> bool {
        Account::is_writable(record.account)
    }

    open spec fn is_canonical(value: JsonModel) -> bool {
        match envelope::opened(value, "account"@) {
            Some(inner) => Account::is_canonical(inner),
            None => false,
        }
    }

    proof fn written_is_read_back(record: AccountObjectModel) {
        Account::written_is_read_back(record.account);
    }

    proof fn read_is_written_back(value: JsonModel) {
        Account::read_is_written_back(envelope::opened(value, "account"@).unwrap());
        envelope::open_then_seal(value, "account"@);
    }

    fn decode(value: &Json) -> (r: Option<AccountObject>) {
        match envelope::open(value, "account") {
            Ok(inner) => match Account::decode(inner) {
                Some(account) => Some(AccountObject { account }),
                None => None,
            },
            Err(_) => None,
        }
    }

    fn encode(&self) -> (r: Json) {
        envelope::seal("account", self.account.encode())
    }
}

/// The account: how it was made, and under which names it goes.
#[derive(Clone, Debug, PartialEq, Eq)]
pub struct Account {
    /// The entry `email`.
    pub email: String,
    /// The entry `createdVia`.
    pub created_via: String,
    /// The entry `username`.
    pub username: String,
    /// The entry `accountId`.
    pub account_id: String,
    /// The entry `createdAt`, in the encoding of
    /// `convert::date_time_iso_8601`.
    pub created_at: Instant,
    /// The entry `accountDisplayName`.
    pub account_display_name: String,
}

/// What a value of [`Account`] holds.
pub struct AccountModel {
    pub email: Seq<char>,
    pub created_via: Seq<char>,
    pub username: Seq<char>,
    pub account_id: Seq<char>,
    pub created_at: Civil,
    pub account_display_name: Seq<char>,
}

impl View for Account {
    type V = AccountModel;

    open spec fn view(&self) -> AccountModel {
        AccountModel {
            email: self.email@,
            created_via: self.created_via@,
            username: self.username@,
            account_id: self.account_id@,
            created_at: self.created_at@,
            account_display_name: self.account_display_name@,
        }
    }
}

impl Account {
    /// No two of the keys are the same.
    proof fn lemma_keys_differ()
        ensures
            "email"@ != "createdVia"@,
            "email"@ != "username"@,
            "email"@ != "accountId"@,
            "email"@ != "createdAt"@,
            "email"@ != "accountDisplayName"@,
            "createdVia"@ != "username"@,
            "createdVia"@ != "accountId"@,
            "createdVia"@ != "createdAt"@,
            "createdVia"@ != "accountDisplayName"@,
            "username"@ != "accountId"@,
            "username"@ != "createdAt"@,
            "username"@ != "accountDisplayName"@,
            "accountId"@ != "createdAt"@,
            "accountId"@ != "accountDisplayName"@,
            "createdAt"@ != "accountDisplayName"@,
    {
        reveal_strlit("email");
        reveal_strlit("createdVia");
        reveal_strlit("username");
        reveal_strlit("accountId");
        reveal_strlit("createdAt");
        reveal_strlit("accountDisplayName");
        assert("email"@.len() == 5);
        assert("createdVia"@.len() == 10);
        assert("username"@.len() == 8);
        assert("accountId"@.len() == 9);
        assert("createdAt"@.len() == 9);
        assert("accountDisplayName"@.len() == 18);
        assert("accountId"@[0] != "createdAt"@[0]);
    }
}

impl Record for Account {
    open spec fn read(value: JsonModel) -> Option<AccountModel> {
        match value {
            JsonModel::Object(entries) => if entries.len() == 6
                && text_at(entries, "email"@).is_some()
                && text_at(entries, "createdVia"@).is_some()
                && text_at(entries, "username"@).is_some()
                && text_at(entries, "accountId"@).is_some()
                && instant_at(entries, "createdAt"@).is_some()
                && text_at(entries, "accountDisplayName"@).is_some()
            {
                Some(
                    AccountModel {
                        email: text_at(entries, "email"@).unwrap(),
                        created_via: text_at(entries, "createdVia"@).unwrap(),
                        username: text_at(entries, "username"@).unwrap(),
                        account_id: text_at(entries, "accountId"@).unwrap(),
                        created_at: instant_at(entries, "createdAt"@).unwrap(),
                        account_display_name: text_at(entries, "accountDisplayName"@).unwrap(),
                    },
                )
            } else {
                None
            },
            _ => None,
        }
    }

    open spec fn written(record: AccountModel) -> JsonModel {
        JsonModel::Object(
            seq![
                ("email"@, JsonModel::Text(record.email)),
                ("createdVia"@, JsonModel::Text(record.created_via)),
                ("username"@, JsonModel::Text(record.username)),
                ("accountId"@, JsonModel::Text(record.account_id)),
                ("createdAt"@, JsonModel::Text(date_time_iso_8601::encoded(record.created_at))),
                ("accountDisplayName"@, JsonModel::Text(record.account_display_name)),
            ],
        )
    }

    open spec fn is_writable(record: AccountModel) -> bool {
        &&& record.created_at.is_valid()
    }

    open spec fn is_canonical(value: JsonModel) -> bool {
        &&& value is Object
        &&& value->Object_0.len() == 6
        &&& value->Object_0[0].0 == "email"@
        &&& value->Object_0[1].0 == "createdVia"@
        &&& value->Object_0[2].0 == "username"@
        &&& value->Object_0[3].0 == "accountId"@
        &&& value->Object_0[4].0 == "createdAt"@
        &&& value->Object_0[5].0 == "accountDisplayName"@
    }

    proof fn written_is_read_back(record: AccountModel) {
        let entries = Self::written(record)->Object_0;
        Self::lemma_keys_differ();
        lemma_lookup_at(entries, 0);
        lemma_lookup_at(entries, 1);
        lemma_lookup_at(entries, 2);
        lemma_lookup_at(entries, 3);
        lemma_lookup_at(entries, 4);
        lemma_lookup_at(entries, 5);
        date_time_iso_8601::instant_round_trip(record.created_at);
    }

    proof fn read_is_written_back(value: JsonModel) {
        let entries = value->Object_0;
        Self::lemma_keys_differ();
        lemma_lookup_at(entries, 0);
        lemma_lookup_at(entries, 1);
        lemma_lookup_at(entries, 2);
        lemma_lookup_at(entries, 3);
        lemma_lookup_at(entries, 4);
        lemma_lookup_at(entries, 5);
        date_time_iso_8601::text_round_trip(entries[4].1->Text_0);
        assert(Self::written(Self::read(value).unwrap())->Object_0 =~= entries);
    }

    fn decode(value: &Json) -> (r: Option<Account>) {
        let entries = match value.as_object() {
            Some(entries) => entries,
            None => {
                return None;
            },
        };
        if entries.len() != 6 {
            return None;
        }
        let email = match read_text(entries, "email") {
            Some(found) => found,
            None => {
                return None;
            },
        };
        let created_via = match read_text(entries, "createdVia") {
            Some(found) => found,
            None => {
                return None;
            },
        };
        let username = match read_text(entries, "username") {
            Some(found) => found,
            None => {
                return None;
            },
        };
        let account_id = match read_text(entries, "accountId") {
            Some(found) => found,
            None => {
                return None;
            },
        };
        let created_at = match read_instant(entries, "createdAt") {
            Some(found) => found,
            None => {
                return None;
            },
        };
        let account_display_name = match read_text(entries, "accountDisplayName") {
            Some(found) => found,
            None => {
                return None;
            },
        };
        Some(Account { email, created_via, username, account_id, created_at, account_display_name })
    }

    fn encode(&self) -> (r: Json) {
        let mut entries: Vec<(String, Json)> = Vec::new();
        entries.push(text_entry("email", &self.email));
        entries.push(text_entry("createdVia", &self.created_via));
        entries.push(text_entry("username", &self.username));
        entries.push(text_entry("accountId", &self.account_id));
        entries.push(instant_entry("createdAt", &self.created_at));
        entries.push(text_entry("accountDisplayName", &self.account_display_name));
        proof {
            assert(entry_models(entries@) =~= Self::written(self@)->Object_0);
        }
        Json::object(entries)
    }
}

} // verus!
