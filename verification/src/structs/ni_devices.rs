//! The records of the file `data/ni-devices.js`.

use vstd::prelude::*;
use vstd::string::*;
use crate::envelope;
use crate::instant::{Civil, Instant};
use crate::json::{entry_models, lemma_lookup_at, Json, JsonModel};
use crate::record::{
    day_at, day_canonical, day_entry, day_value, day_writable, lemma_day_at, lemma_day_value,
    read_day, read_text, text_at, text_entry, Record,
};

verus! {

/// An envelope: an object of the one entry `niDeviceResponse`, which holds a
/// [`NiDeviceResponse`].
#[derive(Clone, Debug, PartialEq, Eq)]
pub struct NiDeviceResponseObject {
    /// The entry `niDeviceResponse`.
    pub ni_device_response: NiDeviceResponse,
}

/// What a value of [`NiDeviceResponseObject`] holds.
pub struct NiDeviceResponseObjectModel {
    pub ni_device_response: NiDeviceResponseModel,
}

impl View for NiDeviceResponseObject {
    type V = NiDeviceResponseObjectModel;

    open spec fn view(&self) -> NiDeviceResponseObjectModel {
        NiDeviceResponseObjectModel {
            ni_device_response: self.ni_device_response@,
        }
    }
}

impl Record for NiDeviceResponseObject {
    open spec fn read(value: JsonModel) -> Option<NiDeviceResponseObjectModel> {
        match envelope::opened(value, "niDeviceResponse"@) {
            Some(inner) => match NiDeviceResponse::read(inner) {
                Some(ni_device_response) => Some(
                    NiDeviceResponseObjectModel { ni_device_response },
                ),
                None => None,
            },
            None => None,
        }
    }

    open spec fn written(record: NiDeviceResponseObjectModel) -> JsonModel {
        envelope::sealed("niDeviceResponse"@, NiDeviceResponse::written(record.ni_device_response))
    }

    open spec fn is_writable(record: NiDeviceResponseObjectModel) -> bool {
        NiDeviceResponse::is_writable(record.ni_device_response)
    }

    open spec fn is_canonical(value: JsonModel) -> bool {
        match envelope::opened(value, "niDeviceResponse"@) {
            Some(inner) => NiDeviceResponse::is_canonical(inner),
            None => false,
        }
    }

    proof fn written_is_read_back(record: NiDeviceResponseObjectModel) {
        NiDeviceResponse::written_is_read_back(record.ni_device_response);
    }

    proof fn read_is_written_back(value: JsonModel) {
        NiDeviceResponse::read_is_written_back(
            envelope::opened(value, "niDeviceResponse"@).unwrap(),
        );
        envelope::open_then_seal(value, "niDeviceResponse"@);
    }

    fn decode(value: &Json) -> (r: Option<NiDeviceResponseObject>) {
        match envelope::open(value, "niDeviceResponse") {
            Ok(inner) => match NiDeviceResponse::decode(inner) {
                Some(ni_device_response) => Some(NiDeviceResponseObject { ni_device_response }),
                None => None,
            },
            Err(_) => None,
        }
    }

    fn encode(&self) -> (r: Json) {
        envelope::seal("niDeviceResponse", self.ni_device_response.encode())
    }
}

/// A device that is registered for messages.
#[derive(Clone, Debug, PartialEq, Eq)]
pub struct NiDeviceResponse {
    /// The entry `messagingDevice`.
    pub messaging_device: MessagingDevice,
}

/// What a value of [`NiDeviceResponse`] holds.
pub struct NiDeviceResponseModel {
    pub messaging_device: MessagingDeviceModel,
}

impl View for NiDeviceResponse {
    type V = NiDeviceResponseModel;

    open spec fn view(&self) -> NiDeviceResponseModel {
        NiDeviceResponseModel {
            messaging_device: self.messaging_device@,
        }
    }
}

impl Record for NiDeviceResponse {
    open spec fn read(value: JsonModel) -> Option<NiDeviceResponseModel> {
        match envelope::opened(value, "messagingDevice"@) {
            Some(inner) => match MessagingDevice::read(inner) {
                Some(messaging_device) => Some(NiDeviceResponseModel { messaging_device }),
                None => None,
            },
            None => None,
        }
    }

    open spec fn written(record: NiDeviceResponseModel) -> JsonModel {
        envelope::sealed("messagingDevice"@, MessagingDevice::written(record.messaging_device))
    }

    open spec fn is_writable(record: NiDeviceResponseModel) -> bool {
        MessagingDevice::is_writable(record.messaging_device)
    }

    open spec fn is_canonical(value: JsonModel) -> bool {
        match envelope::opened(value, "messagingDevice"@) {
            Some(inner) => MessagingDevice::is_canonical(inner),
            None => false,
        }
    }

    proof fn written_is_read_back(record: NiDeviceResponseModel) {
        MessagingDevice::written_is_read_back(record.messaging_device);
    }

    proof fn read_is_written_back(value: JsonModel) {
        MessagingDevice::read_is_written_back(envelope::opened(value, "messagingDevice"@).unwrap());
        envelope::open_then_seal(value, "messagingDevice"@);
    }

    fn decode(value: &Json) -> (r: Option<NiDeviceResponse>) {
        match envelope::open(value, "messagingDevice") {
            Ok(inner) => match MessagingDevice::decode(inner) {
                Some(messaging_device) => Some(NiDeviceResponse { messaging_device }),
                None => None,
            },
            Err(_) => None,
        }
    }

    fn encode(&self) -> (r: Json) {
        envelope::seal("messagingDevice", self.messaging_device.encode())
    }
}

/// A telephone that is registered for messages.
#[derive(Clone, Debug, PartialEq, Eq)]
pub struct MessagingDevice {
    /// The entry `phoneNumber`.
    pub phone_number: String,
    /// The entry `carrier`.
    pub carrier: String,
    /// The entry `deviceType`.
    pub device_type: String,
    /// The entry `updatedDate`, in the encoding of
    /// `convert::date_year_month_day`.
    pub updated_date: Instant,
    /// The entry `createdDate`, in the encoding of
    /// `convert::date_year_month_day`.
    pub created_date: Instant,
}

/// What a value of [`MessagingDevice`] holds.
pub struct MessagingDeviceModel {
    pub phone_number: Seq<char>,
    pub carrier: Seq<char>,
    pub device_type: Seq<char>,
    pub updated_date: Civil,
    pub created_date: Civil,
}

impl View for MessagingDevice {
    type V = MessagingDeviceModel;

    open spec fn view(&self) -> MessagingDeviceModel {
        MessagingDeviceModel {
            phone_number: self.phone_number@,
            carrier: self.carrier@,
            device_type: self.device_type@,
            updated_date: self.updated_date@,
            created_date: self.created_date@,
        }
    }
}

impl MessagingDevice {
    /// No two of the keys are the same.
    proof fn lemma_keys_differ()
        ensures
            "phoneNumber"@ != "carrier"@,
            "phoneNumber"@ != "deviceType"@,
            "phoneNumber"@ != "updatedDate"@,
            "phoneNumber"@ != "createdDate"@,
            "carrier"@ != "deviceType"@,
            "carrier"@ != "updatedDate"@,
            "carrier"@ != "createdDate"@,
            "deviceType"@ != "updatedDate"@,
            "deviceType"@ != "createdDate"@,
            "updatedDate"@ != "createdDate"@,
    {
        reveal_strlit("phoneNumber");
        reveal_strlit("carrier");
        reveal_strlit("deviceType");
        reveal_strlit("updatedDate");
        reveal_strlit("createdDate");
        assert("phoneNumber"@.len() == 11);
        assert("carrier"@.len() == 7);
        assert("deviceType"@.len() == 10);
        assert("updatedDate"@.len() == 11);
        assert("createdDate"@.len() == 11);
        assert("phoneNumber"@[0] != "updatedDate"@[0]);
        assert("phoneNumber"@[0] != "createdDate"@[0]);
        assert("updatedDate"@[0] != "createdDate"@[0]);
    }
}

impl Record for MessagingDevice {
    open spec fn read(value: JsonModel) -> Option<MessagingDeviceModel> {
        match value {
            JsonModel::Object(entries) => if entries.len() == 5
                && text_at(entries, "phoneNumber"@).is_some()
                && text_at(entries, "carrier"@).is_some()
                && text_at(entries, "deviceType"@).is_some()
                && day_at(entries, "updatedDate"@).is_some()
                && day_at(entries, "createdDate"@).is_some()
            {
                Some(
                    MessagingDeviceModel {
                        phone_number: text_at(entries, "phoneNumber"@).unwrap(),
                        carrier: text_at(entries, "carrier"@).unwrap(),
                        device_type: text_at(entries, "deviceType"@).unwrap(),
                        updated_date: day_at(entries, "updatedDate"@).unwrap(),
                        created_date: day_at(entries, "createdDate"@).unwrap(),
                    },
                )
            } else {
                None
            },
            _ => None,
        }
    }

    open spec fn written(record: MessagingDeviceModel) -> JsonModel {
        JsonModel::Object(
            seq![
                ("phoneNumber"@, JsonModel::Text(record.phone_number)),
                ("carrier"@, JsonModel::Text(record.carrier)),
                ("deviceType"@, JsonModel::Text(record.device_type)),
                ("updatedDate"@, day_value(record.updated_date)),
                ("createdDate"@, day_value(record.created_date)),
            ],
        )
    }

    open spec fn is_writable(record: MessagingDeviceModel) -> bool {
        &&& day_writable(record.updated_date)
        &&& day_writable(record.created_date)
    }

    open spec fn is_canonical(value: JsonModel) -> bool {
        &&& value is Object
        &&& value->Object_0.len() == 5
        &&& value->Object_0[0].0 == "phoneNumber"@
        &&& value->Object_0[1].0 == "carrier"@
        &&& value->Object_0[2].0 == "deviceType"@
        &&& value->Object_0[3].0 == "updatedDate"@
        &&& value->Object_0[4].0 == "createdDate"@
        &&& day_canonical(value->Object_0[3].1)
        &&& day_canonical(value->Object_0[4].1)
    }

    proof fn written_is_read_back(record: MessagingDeviceModel) {
        let entries = Self::written(record)->Object_0;
        Self::lemma_keys_differ();
        lemma_lookup_at(entries, 0);
        lemma_lookup_at(entries, 1);
        lemma_lookup_at(entries, 2);
        lemma_lookup_at(entries, 3);
        lemma_lookup_at(entries, 4);
        lemma_day_value(entries, "updatedDate"@, record.updated_date);
        lemma_day_value(entries, "createdDate"@, record.created_date);
    }

    proof fn read_is_written_back(value: JsonModel) {
        let entries = value->Object_0;
        Self::lemma_keys_differ();
        lemma_lookup_at(entries, 0);
        lemma_lookup_at(entries, 1);
        lemma_lookup_at(entries, 2);
        lemma_lookup_at(entries, 3);
        lemma_lookup_at(entries, 4);
        lemma_day_at(entries, "updatedDate"@);
        lemma_day_at(entries, "createdDate"@);
        assert(Self::written(Self::read(value).unwrap())->Object_0 =~= entries);
    }

    fn decode(value: &Json) -> (r: Option<MessagingDevice>) {
        let entries = match value.as_object() {
            Some(entries) => entries,
            None => {
                return None;
            },
        };
        if entries.len() != 5 {
            return None;
        }
        let phone_number = match read_text(entries, "phoneNumber") {
            Some(found) => found,
            None => {
                return None;
            },
        };
        let carrier = match read_text(entries, "carrier") {
            Some(found) => found,
            None => {
                return None;
            },
        };
        let device_type = match read_text(entries, "deviceType") {
            Some(found) => found,
            None => {
                return None;
            },
        };
        let updated_date = match read_day(entries, "updatedDate") {
            Some(found) => found,
            None => {
                return None;
            },
        };
        let created_date = match read_day(entries, "createdDate") {
            Some(found) => found,
            None => {
                return None;
            },
        };
        Some(MessagingDevice { phone_number, carrier, device_type, updated_date, created_date })
    }

    fn encode(&self) -> (r: Json) {
        let mut entries: Vec<(String, Json)> = Vec::new();
        entries.push(text_entry("phoneNumber", &self.phone_number));
        entries.push(text_entry("carrier", &self.carrier));
        entries.push(text_entry("deviceType", &self.device_type));
        entries.push(day_entry("updatedDate", &self.updated_date));
        entries.push(day_entry("createdDate", &self.created_date));
        proof {
            assert(entry_models(entries@) =~= Self::written(self@)->Object_0);
        }
        Json::object(entries)
    }
}

} // verus!
