//! The records of the file `data/key-registry.js`.

use vstd::prelude::*;
use vstd::string::*;
use crate::convert::date_time_iso_8601;
use crate::envelope;
use crate::instant::{Civil, Instant};
use crate::json::{entry_models, lemma_lookup_at, Json, JsonModel};
use crate::record;
use crate::record::{
    created_at, instant_at, instant_entry, read_instant, read_records, read_text, record_models,
    records_entry, text_at, text_entry, Record,
};

verus! {

/// An envelope: an object of the one entry `registeredDevices`, which holds a
/// [`RegisteredDevices`].
#[derive(Clone, Debug, PartialEq, Eq)]
pub struct RegisteredDevicesObject {
    /// The entry `registeredDevices`.
    pub registered_devices: RegisteredDevices,
}

/// What a value of [`RegisteredDevicesObject`] holds.
pub struct RegisteredDevicesObjectModel {
    pub registered_devices: RegisteredDevicesModel,
}

impl View for RegisteredDevicesObject {
    type V = RegisteredDevicesObjectModel;

    open spec fn view(&self) -> RegisteredDevicesObjectModel {
        RegisteredDevicesObjectModel {
            registered_devices: self.registered_devices@,
        }
    }
}

impl Record for RegisteredDevicesObject {
    open spec fn read(value: JsonModel) -> Option<RegisteredDevicesObjectModel> {
        match envelope::opened(value, "registeredDevices"@) {
            Some(inner) => match RegisteredDevices::read(inner) {
                Some(registered_devices) => Some(
                    RegisteredDevicesObjectModel { registered_devices },
                ),
                None => None,
            },
            None => None,
        }
    }

    open spec fn written(record: RegisteredDevicesObjectModel) -> JsonModel {
        envelope::sealed(
            "registeredDevices"@,
            RegisteredDevices::written(record.registered_devices),
        )
    }

    open spec fn is_writable(record: RegisteredDevicesObjectModel) -> bool {
        RegisteredDevices::is_writable(record.registered_devices)
    }

    open spec fn is_canonical(value: JsonModel) -> bool {
        match envelope::opened(value, "registeredDevices"@) {
            Some(inner) => RegisteredDevices::is_canonical(inner),
            None => false,
        }
    }

    proof fn written_is_read_back(record: RegisteredDevicesObjectModel) {
        RegisteredDevices::written_is_read_back(record.registered_devices);
    }

    proof fn read_is_written_back(value: JsonModel) {
        RegisteredDevices::read_is_written_back(
            envelope::opened(value, "registeredDevices"@).unwrap(),
        );
        envelope::open_then_seal(value, "registeredDevices"@);
    }

    fn decode(value: &Json) -> (r: Option<RegisteredDevicesObject>) {
        match envelope::open(value, "registeredDevices") {
            Ok(inner) => match RegisteredDevices::decode(inner) {
                Some(registered_devices) => Some(RegisteredDevicesObject { registered_devices }),
                None => None,
            },
            Err(_) => None,
        }
    }

    fn encode(&self) -> (r: Json) {
        envelope::seal("registeredDevices", self.registered_devices.encode())
    }
}

/// The devices that hold keys for encrypted messages.
#[derive(Clone, Debug, PartialEq, Eq)]
pub struct RegisteredDevices {
    /// The entry `deviceMetadataList`.
    pub device_metadata_list: Vec<DeviceMetadata>,
}

/// What a value of [`RegisteredDevices`] holds.
pub struct RegisteredDevicesModel {
    pub device_metadata_list: Seq<DeviceMetadataModel>,
}

impl View for RegisteredDevices {
    type V = RegisteredDevicesModel;

    open spec fn view(&self) -> RegisteredDevicesModel {
        RegisteredDevicesModel {
            device_metadata_list: record_models(self.device_metadata_list@),
        }
    }
}

impl Record for RegisteredDevices {
    open spec fn read(value: JsonModel) -> Option<RegisteredDevicesModel> {
        match value {
            JsonModel::Object(entries) => if entries.len() == 1
                && record::records_at::<DeviceMetadata>(entries, "deviceMetadataList"@).is_some()
            {
                Some(
                    RegisteredDevicesModel {
                        device_metadata_list: record::records_at::<DeviceMetadata>(
                            entries,
                            "deviceMetadataList"@,
                        ).unwrap(),
                    },
                )
            } else {
                None
            },
            _ => None,
        }
    }

    open spec fn written(record: RegisteredDevicesModel) -> JsonModel {
        JsonModel::Object(
            seq![
                (
                    "deviceMetadataList"@,
                    record::records_value::<DeviceMetadata>(record.device_metadata_list),
                ),
            ],
        )
    }

    open spec fn is_writable(record: RegisteredDevicesModel) -> bool {
        &&& record::all_writable::<DeviceMetadata>(record.device_metadata_list)
    }

    open spec fn is_canonical(value: JsonModel) -> bool {
        &&& value is Object
        &&& value->Object_0.len() == 1
        &&& value->Object_0[0].0 == "deviceMetadataList"@
        &&& record::all_canonical::<DeviceMetadata>(value->Object_0[0].1)
    }

    proof fn written_is_read_back(record: RegisteredDevicesModel) {
        let entries = Self::written(record)->Object_0;
        lemma_lookup_at(entries, 0);
        record::lemma_records_value::<DeviceMetadata>(record.device_metadata_list);
    }

    proof fn read_is_written_back(value: JsonModel) {
        let entries = value->Object_0;
        lemma_lookup_at(entries, 0);
        record::lemma_records_of::<DeviceMetadata>(entries[0].1);
        assert(Self::written(Self::read(value).unwrap())->Object_0 =~= entries);
    }

    fn decode(value: &Json) -> (r: Option<RegisteredDevices>) {
        let entries = match value.as_object() {
            Some(entries) => entries,
            None => {
                return None;
            },
        };
        if entries.len() != 1 {
            return None;
        }
        let device_metadata_list = match read_records::<DeviceMetadata>(
            entries,
            "deviceMetadataList",
        ) {
            Some(found) => found,
            None => {
                return None;
            },
        };
        Some(RegisteredDevices { device_metadata_list })
    }

    fn encode(&self) -> (r: Json) {
        let mut entries: Vec<(String, Json)> = Vec::new();
        entries.push(records_entry("deviceMetadataList", &self.device_metadata_list));
        proof {
            assert(entry_models(entries@) =~= Self::written(self@)->Object_0);
        }
        Json::object(entries)
    }
}

/// A device that holds a key for encrypted messages.
#[derive(Clone, Debug, PartialEq, Eq)]
pub struct DeviceMetadata {
    /// The entry `userAgent`.
    pub user_agent: String,
    /// The entry `registrationToken`.
    pub registration_token: String,
    /// The entry `identityKey`.
    pub identity_key: String,
    /// The entry `createdAt`, in the encoding of
    /// `convert::date_time_iso_8601`.
    pub created_at: Instant,
    /// The entry `deviceId`.
    pub device_id: String,
}

/// What a value of [`DeviceMetadata`] holds.
pub struct DeviceMetadataModel {
    pub user_agent: Seq<char>,
    pub registration_token: Seq<char>,
    pub identity_key: Seq<char>,
    pub created_at: Civil,
    pub device_id: Seq<char>,
}

impl View for DeviceMetadata {
    type V = DeviceMetadataModel;

    open spec fn view(&self) -> DeviceMetadataModel {
        DeviceMetadataModel {
            user_agent: self.user_agent@,
            registration_token: self.registration_token@,
            identity_key: self.identity_key@,
            created_at: self.created_at@,
            device_id: self.device_id@,
        }
    }
}

impl DeviceMetadata {
    /// No two of the keys are the same.
    proof fn lemma_keys_differ()
        ensures
            "userAgent"@ != "registrationToken"@,
            "userAgent"@ != "identityKey"@,
            "userAgent"@ != "createdAt"@,
            "userAgent"@ != "deviceId"@,
            "registrationToken"@ != "identityKey"@,
            "registrationToken"@ != "createdAt"@,
            "registrationToken"@ != "deviceId"@,
            "identityKey"@ != "createdAt"@,
            "identityKey"@ != "deviceId"@,
            "createdAt"@ != "deviceId"@,
    {
        reveal_strlit("userAgent");
        reveal_strlit("registrationToken");
        reveal_strlit("identityKey");
        reveal_strlit("createdAt");
        reveal_strlit("deviceId");
        assert("userAgent"@.len() == 9);
        assert("registrationToken"@.len() == 17);
        assert("identityKey"@.len() == 11);
        assert("createdAt"@.len() == 9);
        assert("deviceId"@.len() == 8);
        assert("userAgent"@[0] != "createdAt"@[0]);
    }
}

impl Record for DeviceMetadata {
    open spec fn read(value: JsonModel) -> Option<DeviceMetadataModel> {
        match value {
            JsonModel::Object(entries) => if entries.len() == 5
                && text_at(entries, "userAgent"@).is_some()
                && text_at(entries, "registrationToken"@).is_some()
                && text_at(entries, "identityKey"@).is_some()
                && instant_at(entries, "createdAt"@).is_some()
                && text_at(entries, "deviceId"@).is_some()
            {
                Some(
                    DeviceMetadataModel {
                        user_agent: text_at(entries, "userAgent"@).unwrap(),
                        registration_token: text_at(entries, "registrationToken"@).unwrap(),
                        identity_key: text_at(entries, "identityKey"@).unwrap(),
                        created_at: instant_at(entries, "createdAt"@).unwrap(),
                        device_id: text_at(entries, "deviceId"@).unwrap(),
                    },
                )
            } else {
                None
            },
            _ => None,
        }
    }

    open spec fn written(record: DeviceMetadataModel) -> JsonModel {
        JsonModel::Object(
            seq![
                ("userAgent"@, JsonModel::Text(record.user_agent)),
                ("registrationToken"@, JsonModel::Text(record.registration_token)),
                ("identityKey"@, JsonModel::Text(record.identity_key)),
                ("createdAt"@, JsonModel::Text(date_time_iso_8601::encoded(record.created_at))),
                ("deviceId"@, JsonModel::Text(record.device_id)),
            ],
        )
    }

    open spec fn is_writable(record: DeviceMetadataModel) -> bool {
        &&& record.created_at.is_valid()
    }

    open spec fn is_canonical(value: JsonModel) -> bool {
        &&& value is Object
        &&& value->Object_0.len() == 5
        &&& value->Object_0[0].0 == "userAgent"@
        &&& value->Object_0[1].0 == "registrationToken"@
        &&& value->Object_0[2].0 == "identityKey"@
        &&& value->Object_0[3].0 == "createdAt"@
        &&& value->Object_0[4].0 == "deviceId"@
    }

    proof fn written_is_read_back(record: DeviceMetadataModel) {
        let entries = Self::written(record)->Object_0;
        Self::lemma_keys_differ();
        lemma_lookup_at(entries, 0);
        lemma_lookup_at(entries, 1);
        lemma_lookup_at(entries, 2);
        lemma_lookup_at(entries, 3);
        lemma_lookup_at(entries, 4);
        date_time_iso_8601::instant_round_trip(record.created_at);
    }

    proof fn read_is_written_back(value: JsonModel) {
        let entries = value->Object_0;
        Self::lemma_keys_differ();
        lemma_lookup_at(entries, 0);
        lemma_lookup_at(entries, 1);
        lemma_lookup_at(entries, 2);
        lemma_lookup_at(entries, 3);
        lemma_lookup_at(entries, 4);
        date_time_iso_8601::text_round_trip(entries[3].1->Text_0);
        assert(Self::written(Self::read(value).unwrap())->Object_0 =~= entries);
    }

    fn decode(value: &Json) -> (r: Option<DeviceMetadata>) {
        let entries = match value.as_object() {
            Some(entries) => entries,
            None => {
                return None;
            },
        };
        if entries.len() != 5 {
            return None;
        }
        let user_agent = match read_text(entries, "userAgent") {
            Some(found) => found,
            None => {
                return None;
            },
        };
        let registration_token = match read_text(entries, "registrationToken") {
            Some(found) => found,
            None => {
                return None;
            },
        };
        let identity_key = match read_text(entries, "identityKey") {
            Some(found) => found,
            None => {
                return None;
            },
        };
        let created_at = match read_instant(entries, "createdAt") {
            Some(found) => found,
            None => {
                return None;
            },
        };
        let device_id = match read_text(entries, "deviceId") {
            Some(found) => found,
            None => {
                return None;
            },
        };
        Some(DeviceMetadata { user_agent, registration_token, identity_key, created_at, device_id })
    }

    fn encode(&self) -> (r: Json) {
        let mut entries: Vec<(String, Json)> = Vec::new();
        entries.push(text_entry("userAgent", &self.user_agent));
        entries.push(text_entry("registrationToken", &self.registration_token));
        entries.push(text_entry("identityKey", &self.identity_key));
        entries.push(instant_entry("createdAt", &self.created_at));
        entries.push(text_entry("deviceId", &self.device_id));
        proof {
            assert(entry_models(entries@) =~= Self::written(self@)->Object_0);
        }
        Json::object(entries)
    }
}

} // verus!
