//! The records of the file `data/device-token.js`.

use vstd::prelude::*;
use vstd::string::*;
use crate::convert::date_time_iso_8601;
use crate::envelope;
use crate::instant::{Civil, Instant};
use crate::json::{entry_models, lemma_lookup_at, Json, JsonModel};
use crate::record::{
    created_at, instant_at, instant_entry, read_instant, read_text, text_at, text_entry, Record,
};

verus! {

/// An envelope: an object of the one entry `deviceToken`, which holds a
/// [`DeviceToken`].
#[derive(Clone, Debug, PartialEq, Eq)]
pub struct DeviceTokenObject {
    /// The entry `deviceToken`.
    pub device_token: DeviceToken,
}

/// What a value of [`DeviceTokenObject`] holds.
pub struct DeviceTokenObjectModel {
    pub device_token: DeviceTokenModel,
}

impl View for DeviceTokenObject {
    type V = DeviceTokenObjectModel;

    open spec fn view(&self) -> DeviceTokenObjectModel {
        DeviceTokenObjectModel {
            device_token: self.device_token@,
        }
    }
}

impl Record for DeviceTokenObject {
    open spec fn read(value: JsonModel) -> Option<DeviceTokenObjectModel> {
        match envelope::opened(value, "deviceToken"@) {
            Some(inner) => match DeviceToken::read(inner) {
                Some(device_token) => Some(DeviceTokenObjectModel { device_token }),
                None => None,
            },
            None => None,
        }
    }

    open spec fn written(record: DeviceTokenObjectModel) -> JsonModel {
        envelope::sealed("deviceToken"@, DeviceToken::written(record.device_token))
    }

    open spec fn is_writable(record: DeviceTokenObjectModel) -> bool {
        DeviceToken::is_writable(record.device_token)
    }

    open spec fn is_canonical(value: JsonModel) -> bool {
        match envelope::opened(value, "deviceToken"@) {
            Some(inner) => DeviceToken::is_canonical(inner),
            None => false,
        }
    }

    proof fn written_is_read_back(record: DeviceTokenObjectModel) {
        DeviceToken::written_is_read_back(record.device_token);
    }

    proof fn read_is_written_back(value: JsonModel) {
        DeviceToken::read_is_written_back(envelope::opened(value, "deviceToken"@).unwrap());
        envelope::open_then_seal(value, "deviceToken"@);
    }

    fn decode(value: &Json) -> (r: Option<DeviceTokenObject>) {
        match envelope::open(value, "deviceToken") {
            Ok(inner) => match DeviceToken::decode(inner) {
                Some(device_token) => Some(DeviceTokenObject { device_token }),
                None => None,
            },
            Err(_) => None,
        }
    }

    fn encode(&self) -> (r: Json) {
        envelope::seal("deviceToken", self.device_token.encode())
    }
}

/// A token that an application holds for this account.
#[derive(Clone, Debug, PartialEq, Eq)]
pub struct DeviceToken {
    /// The entry `clientApplicationId`.
    pub client_application_id: String,
    /// The entry `token`.
    pub token: String,
    /// The entry `createdAt`, in the encoding of
    /// `convert::date_time_iso_8601`.
    pub created_at: Instant,
    /// The entry `lastSeenAt`, in the encoding of
    /// `convert::date_time_iso_8601`.
    pub last_seen_at: Instant,
    /// The entry `clientApplicationName`.
    pub client_application_name: String,
}

/// What a value of [`DeviceToken`] holds.
pub struct DeviceTokenModel {
    pub client_application_id: Seq<char>,
    pub token: Seq<char>,
    pub created_at: Civil,
    pub last_seen_at: Civil,
    pub client_application_name: Seq<char>,
}

impl View for DeviceToken {
    type V = DeviceTokenModel;

    open spec fn view(&self) -> DeviceTokenModel {
        DeviceTokenModel {
            client_application_id: self.client_application_id@,
            token: self.token@,
            created_at: self.created_at@,
            last_seen_at: self.last_seen_at@,
            client_application_name: self.client_application_name@,
        }
    }
}

impl DeviceToken {
    /// No two of the keys are the same.
    proof fn lemma_keys_differ()
        ensures
            "clientApplicationId"@ != "token"@,
            "clientApplicationId"@ != "createdAt"@,
            "clientApplicationId"@ != "lastSeenAt"@,
            "clientApplicationId"@ != "clientApplicationName"@,
            "token"@ != "createdAt"@,
            "token"@ != "lastSeenAt"@,
            "token"@ != "clientApplicationName"@,
            "createdAt"@ != "lastSeenAt"@,
            "createdAt"@ != "clientApplicationName"@,
            "lastSeenAt"@ != "clientApplicationName"@,
    {
        reveal_strlit("clientApplicationId");
        reveal_strlit("token");
        reveal_strlit("createdAt");
        reveal_strlit("lastSeenAt");
        reveal_strlit("clientApplicationName");
        assert("clientApplicationId"@.len() == 19);
        assert("token"@.len() == 5);
        assert("createdAt"@.len() == 9);
        assert("lastSeenAt"@.len() == 10);
        assert("clientApplicationName"@.len() == 21);
    }
}

impl Record for DeviceToken {
    open spec fn read(value: JsonModel) -> Option<DeviceTokenModel> {
        match value {
            JsonModel::Object(entries) => if entries.len() == 5
                && text_at(entries, "clientApplicationId"@).is_some()
                && text_at(entries, "token"@).is_some()
                && instant_at(entries, "createdAt"@).is_some()
                && instant_at(entries, "lastSeenAt"@).is_some()
                && text_at(entries, "clientApplicationName"@).is_some()
            {
                Some(
                    DeviceTokenModel {
                        client_application_id: text_at(entries, "clientApplicationId"@).unwrap(),
                        token: text_at(entries, "token"@).unwrap(),
                        created_at: instant_at(entries, "createdAt"@).unwrap(),
                        last_seen_at: instant_at(entries, "lastSeenAt"@).unwrap(),
                        client_application_name: text_at(
                            entries,
                            "clientApplicationName"@,
                        ).unwrap(),
                    },
                )
            } else {
                None
            },
            _ => None,
        }
    }

    open spec fn written(record: DeviceTokenModel) -> JsonModel {
        JsonModel::Object(
            seq![
                ("clientApplicationId"@, JsonModel::Text(record.client_application_id)),
                ("token"@, JsonModel::Text(record.token)),
                ("createdAt"@, JsonModel::Text(date_time_iso_8601::encoded(record.created_at))),
                ("lastSeenAt"@, JsonModel::Text(date_time_iso_8601::encoded(record.last_seen_at))),
                ("clientApplicationName"@, JsonModel::Text(record.client_application_name)),
            ],
        )
    }

    open spec fn is_writable(record: DeviceTokenModel) -> bool {
        &&& record.created_at.is_valid()
        &&& record.last_seen_at.is_valid()
    }

    open spec fn is_canonical(value: JsonModel) -> bool {
        &&& value is Object
        &&& value->Object_0.len() == 5
        &&& value->Object_0[0].0 == "clientApplicationId"@
        &&& value->Object_0[1].0 == "token"@
        &&& value->Object_0[2].0 == "createdAt"@
        &&& value->Object_0[3].0 == "lastSeenAt"@
        &&& value->Object_0[4].0 == "clientApplicationName"@
    }

    proof fn written_is_read_back(record: DeviceTokenModel) {
        let entries = Self::written(record)->Object_0;
        Self::lemma_keys_differ();
        lemma_lookup_at(entries, 0);
        lemma_lookup_at(entries, 1);
        lemma_lookup_at(entries, 2);
        lemma_lookup_at(entries, 3);
        lemma_lookup_at(entries, 4);
        date_time_iso_8601::instant_round_trip(record.created_at);
        date_time_iso_8601::instant_round_trip(record.last_seen_at);
    }

    proof fn read_is_written_back(value: JsonModel) {
        let entries = value->Object_0;
        Self::lemma_keys_differ();
        lemma_lookup_at(entries, 0);
        lemma_lookup_at(entries, 1);
        lemma_lookup_at(entries, 2);
        lemma_lookup_at(entries, 3);
        lemma_lookup_at(entries, 4);
        date_time_iso_8601::text_round_trip(entries[2].1->Text_0);
        date_time_iso_8601::text_round_trip(entries[3].1->Text_0);
        assert(Self::written(Self::read(value).unwrap())->Object_0 =~= entries);
    }

    fn decode(value: &Json) -> (r: Option<DeviceToken>) {
        let entries = match value.as_object() {
            Some(entries) => entries,
            None => {
                return None;
            },
        };
        if entries.len() != 5 {
            return None;
        }
        let client_application_id = match read_text(entries, "clientApplicationId") {
            Some(found) => found,
            None => {
                return None;
            },
        };
        let token = match read_text(entries, "token") {
            Some(found) => found,
            None => {
                return None;
            },
        };
        let created_at = match read_instant(entries, "createdAt") {
            Some(found) => found,
            None => {
                return None;
            },
        };
        let last_seen_at = match read_instant(entries, "lastSeenAt") {
            Some(found) => found,
            None => {
                return None;
            },
        };
        let client_application_name = match read_text(entries, "clientApplicationName") {
            Some(found) => found,
            None => {
                return None;
            },
        };
        Some(
            DeviceToken {
                client_application_id,
                token,
                created_at,
                last_seen_at,
                client_application_name,
            },
        )
    }

    fn encode(&self) -> (r: Json) {
        let mut entries: Vec<(String, Json)> = Vec::new();
        entries.push(text_entry("clientApplicationId", &self.client_application_id));
        entries.push(text_entry("token", &self.token));
        entries.push(instant_entry("createdAt", &self.created_at));
        entries.push(instant_entry("lastSeenAt", &self.last_seen_at));
        entries.push(text_entry("clientApplicationName", &self.client_application_name));
        proof {
            assert(entry_models(entries@) =~= Self::written(self@)->Object_0);
        }
        Json::object(entries)
    }
}

} // verus!
