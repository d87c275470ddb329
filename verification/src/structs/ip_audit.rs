//! The records of the file `data/ip-audit.js`.

use vstd::prelude::*;
use vstd::string::*;
use crate::convert::date_time_iso_8601;
use crate::envelope;
use crate::instant::{Civil, Instant};
use crate::json::{entry_models, lemma_lookup_at, Json, JsonModel};
use crate::record::{
    created_at, instant_at, instant_entry, read_instant, read_text, text_at, text_entry, Record,
};

verus! {

/// An envelope: an object of the one entry `ipAudit`, which holds a
/// [`IpAudit`].
#[derive(Clone, Debug, PartialEq, Eq)]
pub struct IpAuditObject {
    /// The entry `ipAudit`.
    pub ip_audit: IpAudit,
}

/// What a value of [`IpAuditObject`] holds.
pub struct IpAuditObjectModel {
    pub ip_audit: IpAuditModel,
}

impl View for IpAuditObject {
    type V = IpAuditObjectModel;

    open spec fn view(&self) -> IpAuditObjectModel {
        IpAuditObjectModel {
            ip_audit: self.ip_audit@,
        }
    }
}

impl Record for IpAuditObject {
    open spec fn read(value: JsonModel) -> Option<IpAuditObjectModel> {
        match envelope::opened(value, "ipAudit"@) {
            Some(inner) => match IpAudit::read(inner) {
                Some(ip_audit) => Some(IpAuditObjectModel { ip_audit }),
                None => None,
            },
            None => None,
        }
    }

    open spec fn written(record: IpAuditObjectModel) -> JsonModel {
        envelope::sealed("ipAudit"@, IpAudit::written(record.ip_audit))
    }

    open spec fn is_writable(record: IpAuditObjectModel) -> bool {
        IpAudit::is_writable(record.ip_audit)
    }

    open spec fn is_canonical(value: JsonModel) -> bool {
        match envelope::opened(value, "ipAudit"@) {
            Some(inner) => IpAudit::is_canonical(inner),
            None => false,
        }
    }

    proof fn written_is_read_back(record: IpAuditObjectModel) {
        IpAudit::written_is_read_back(record.ip_audit);
    }

    proof fn read_is_written_back(value: JsonModel) {
        IpAudit::read_is_written_back(envelope::opened(value, "ipAudit"@).unwrap());
        envelope::open_then_seal(value, "ipAudit"@);
    }

    fn decode(value: &Json) -> (r: Option<IpAuditObject>) {
        match envelope::open(value, "ipAudit") {
            Ok(inner) => match IpAudit::decode(inner) {
                Some(ip_audit) => Some(IpAuditObject { ip_audit }),
                None => None,
            },
            Err(_) => None,
        }
    }

    fn encode(&self) -> (r: Json) {
        envelope::seal("ipAudit", self.ip_audit.encode())
    }
}

/// A login: when, and from which address.
#[derive(Clone, Debug, PartialEq, Eq)]
pub struct IpAudit {
    /// The entry `accountId`.
    pub account_id: String,
    /// The entry `createdAt`, in the encoding of
    /// `convert::date_time_iso_8601`.
    pub created_at: Instant,
    /// The entry `loginIp`.
    pub login_ip: String,
}

/// What a value of [`IpAudit`] holds.
pub struct IpAuditModel {
    pub account_id: Seq<char>,
    pub created_at: Civil,
    pub login_ip: Seq<char>,
}

impl View for IpAudit {
    type V = IpAuditModel;

    open spec fn view(&self) -> IpAuditModel {
        IpAuditModel {
            account_id: self.account_id@,
            created_at: self.created_at@,
            login_ip: self.login_ip@,
        }
    }
}

impl IpAudit {
    /// No two of the keys are the same.
    proof fn lemma_keys_differ()
        ensures
            "accountId"@ != "createdAt"@,
            "accountId"@ != "loginIp"@,
            "createdAt"@ != "loginIp"@,
    {
        reveal_strlit("accountId");
        reveal_strlit("createdAt");
        reveal_strlit("loginIp");
        assert("accountId"@.len() == 9);
        assert("createdAt"@.len() == 9);
        assert("loginIp"@.len() == 7);
        assert("accountId"@[0] != "createdAt"@[0]);
    }
}

impl Record for IpAudit {
    open spec fn read(value: JsonModel) -> Option<IpAuditModel> {
        match value {
            JsonModel::Object(entries) => if entries.len() == 3
                && text_at(entries, "accountId"@).is_some()
                && instant_at(entries, "createdAt"@).is_some()
                && text_at(entries, "loginIp"@).is_some()
            {
                Some(
                    IpAuditModel {
                        account_id: text_at(entries, "accountId"@).unwrap(),
                        created_at: instant_at(entries, "createdAt"@).unwrap(),
                        login_ip: text_at(entries, "loginIp"@).unwrap(),
                    },
                )
            } else {
                None
            },
            _ => None,
        }
    }

    open spec fn written(record: IpAuditModel) -> JsonModel {
        JsonModel::Object(
            seq![
                ("accountId"@, JsonModel::Text(record.account_id)),
                ("createdAt"@, JsonModel::Text(date_time_iso_8601::encoded(record.created_at))),
                ("loginIp"@, JsonModel::Text(record.login_ip)),
            ],
        )
    }

    open spec fn is_writable(record: IpAuditModel) -> bool {
        &&& record.created_at.is_valid()
    }

    open spec fn is_canonical(value: JsonModel) -> bool {
        &&& value is Object
        &&& value->Object_0.len() == 3
        &&& value->Object_0[0].0 == "accountId"@
        &&& value->Object_0[1].0 == "createdAt"@
        &&& value->Object_0[2].0 == "loginIp"@
    }

    proof fn written_is_read_back(record: IpAuditModel) {
        let entries = Self::written(record)->Object_0;
        Self::lemma_keys_differ();
        lemma_lookup_at(entries, 0);
        lemma_lookup_at(entries, 1);
        lemma_lookup_at(entries, 2);
        date_time_iso_8601::instant_round_trip(record.created_at);
    }

    proof fn read_is_written_back(value: JsonModel) {
        let entries = value->Object_0;
        Self::lemma_keys_differ();
        lemma_lookup_at(entries, 0);
        lemma_lookup_at(entries, 1);
        lemma_lookup_at(entries, 2);
        date_time_iso_8601::text_round_trip(entries[1].1->Text_0);
        assert(Self::written(Self::read(value).unwrap())->Object_0 =~= entries);
    }

    fn decode(value: &Json) -> (r: Option<IpAudit>) {
        let entries = match value.as_object() {
            Some(entries) => entries,
            None => {
                return None;
            },
        };
        if entries.len() != 3 {
            return None;
        }
        let account_id = match read_text(entries, "accountId") {
            Some(found) => found,
            None => {
                return None;
            },
        };
        let created_at = match read_instant(entries, "createdAt") {
            Some(found) => found,
            None => {
                return None;
            },
        };
        let login_ip = match read_text(entries, "loginIp") {
            Some(found) => found,
            None => {
                return None;
            },
        };
        Some(IpAudit { account_id, created_at, login_ip })
    }

    fn encode(&self) -> (r: Json) {
        let mut entries: Vec<(String, Json)> = Vec::new();
        entries.push(text_entry("accountId", &self.account_id));
        entries.push(instant_entry("createdAt", &self.created_at));
        entries.push(text_entry("loginIp", &self.login_ip));
        proof {
            assert(entry_models(entries@) =~= Self::written(self@)->Object_0);
        }
        Json::object(entries)
    }
}

} // verus!
