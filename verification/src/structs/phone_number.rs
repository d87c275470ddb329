//! The records of the file `data/phone-number.js`.

use vstd::prelude::*;
use crate::envelope;
use crate::json::{entry_models, lemma_lookup_at, Json, JsonModel};
use crate::record::{read_text, text_at, text_entry, Record};

verus! {

/// An envelope: an object of the one entry `device`, which holds a [`Device`].
#[derive(Clone, Debug, PartialEq, Eq)]
pub struct DeviceObject {
    /// The entry `device`.
    pub device: Device,
}

/// What a value of [`DeviceObject`] holds.
pub struct DeviceObjectModel {
    pub device: DeviceModel,
}

impl View for DeviceObject {
    type V = DeviceObjectModel;

    open spec fn view(&self) -> DeviceObjectModel {
        DeviceObjectModel {
            device: self.device@,
        }
    }
}

impl Record for DeviceObject {
    open spec fn read(value: JsonModel) -> Option<DeviceObjectModel> {
        match envelope::opened(value, "device"@) {
            Some(inner) => match Device::read(inner) {
                Some(device) => Some(DeviceObjectModel { device }),
                None => None,
            },
            None => None,
        }
    }

    open spec fn written(record: DeviceObjectModel) -> JsonModel {
        envelope::sealed("device"@, Device::written(record.device))
    }

    open spec fn is_writable(record: DeviceObjectModel) -> bool {
        Device::is_writable(record.device)
    }

    open spec fn is_canonical(value: JsonModel) -> bool {
        match envelope::opened(value, "device"@) {
            Some(inner) => Device::is_canonical(inner),
            None => false,
        }
    }

    proof fn written_is_read_back(record: DeviceObjectModel) {
        Device::written_is_read_back(record.device);
    }

    proof fn read_is_written_back(value: JsonModel) {
        Device::read_is_written_back(envelope::opened(value, "device"@).unwrap());
        envelope::open_then_seal(value, "device"@);
    }

    fn decode(value: &Json) -> (r: Option<DeviceObject>) {
        match envelope::open(value, "device") {
            Ok(inner) => match Device::decode(inner) {
                Some(device) => Some(DeviceObject { device }),
                None => None,
            },
            Err(_) => None,
        }
    }

    fn encode(&self) -> (r: Json) {
        envelope::seal("device", self.device.encode())
    }
}

/// The telephone number of the account.
#[derive(Clone, Debug, PartialEq, Eq)]
pub struct Device {
    /// The entry `phoneNumber`.
    pub phone_number: String,
}

/// What a value of [`Device`] holds.
pub struct DeviceModel {
    pub phone_number: Seq<char>,
}

impl View for Device {
    type V = DeviceModel;

    open spec fn view(&self) -> DeviceModel {
        DeviceModel {
            phone_number: self.phone_number@,
        }
    }
}

impl Record for Device {
    open spec fn read(value: JsonModel) -> Option<DeviceModel> {
        match value {
            JsonModel::Object(entries) => if entries.len() == 1
                && text_at(entries, "phoneNumber"@).is_some()
            {
                Some(
                    DeviceModel {
                        phone_number: text_at(entries, "phoneNumber"@).unwrap(),
                    },
                )
            } else {
                None
            },
            _ => None,
        }
    }

    open spec fn written(record: DeviceModel) -> JsonModel {
        JsonModel::Object(
            seq![
                ("phoneNumber"@, JsonModel::Text(record.phone_number)),
            ],
        )
    }

    open spec fn is_writable(record: DeviceModel) -> bool {
        true
    }

    open spec fn is_canonical(value: JsonModel) -> bool {
        &&& value is Object
        &&& value->Object_0.len() == 1
        &&& value->Object_0[0].0 == "phoneNumber"@
    }

    proof fn written_is_read_back(record: DeviceModel) {
        let entries = Self::written(record)->Object_0;
        lemma_lookup_at(entries, 0);
    }

    proof fn read_is_written_back(value: JsonModel) {
        let entries = value->Object_0;
        lemma_lookup_at(entries, 0);
        assert(Self::written(Self::read(value).unwrap())->Object_0 =~= entries);
    }

    fn decode(value: &Json) -> (r: Option<Device>) {
        let entries = match value.as_object() {
            Some(entries) => entries,
            None => {
                return None;
            },
        };
        if entries.len() != 1 {
            return None;
        }
        let phone_number = match read_text(entries, "phoneNumber") {
            Some(found) => found,
            None => {
                return None;
            },
        };
        Some(Device { phone_number })
    }

    fn encode(&self) -> (r: Json) {
        let mut entries: Vec<(String, Json)> = Vec::new();
        entries.push(text_entry("phoneNumber", &self.phone_number));
        proof {
            assert(entry_models(entries@) =~= Self::written(self@)->Object_0);
        }
        Json::object(entries)
    }
}

} // verus!
