//! The records of the file `data/connected-application.js`.

use vstd::prelude::*;
use vstd::string::*;
use crate::convert::date_time_iso_8601;
use crate::envelope;
use crate::instant::{Civil, Instant};
use crate::json::{entry_models, lemma_lookup_at, Json, JsonModel};
use crate::record;
use crate::record::{
    instant_at, instant_entry, lemma_texts_of, lemma_texts_value, read_instant, read_record,
    read_text, read_texts, record_at, record_entry, text_at, text_entry, texts_at, texts_entry,
    texts_value, Record,
};
use crate::text::texts;

verus! {

/// An envelope: an object of the one entry `connectedApplication`, which holds
/// a [`ConnectedApplication`].
#[derive(Clone, Debug, PartialEq, Eq)]
pub struct ConnectedApplicationObject {
    /// The entry `connectedApplication`.
    pub connected_application: ConnectedApplication,
}

/// What a value of [`ConnectedApplicationObject`] holds.
pub struct ConnectedApplicationObjectModel {
    pub connected_application: ConnectedApplicationModel,
}

impl View for ConnectedApplicationObject {
    type V = ConnectedApplicationObjectModel;

    open spec fn view(&self) -> ConnectedApplicationObjectModel {
        ConnectedApplicationObjectModel {
            connected_application: self.connected_application@,
        }
    }
}

impl Record for ConnectedApplicationObject {
    open spec fn read(value: JsonModel) -> Option<ConnectedApplicationObjectModel> {
        match envelope::opened(value, "connectedApplication"@) {
            Some(inner) => match ConnectedApplication::read(inner) {
                Some(connected_application) => Some(
                    ConnectedApplicationObjectModel { connected_application },
                ),
                None => None,
            },
            None => None,
        }
    }

    open spec fn written(record: ConnectedApplicationObjectModel) -> JsonModel {
        envelope::sealed(
            "connectedApplication"@,
            ConnectedApplication::written(record.connected_application),
        )
    }

    open spec fn is_writable(record: ConnectedApplicationObjectModel) -> bool {
        ConnectedApplication::is_writable(record.connected_application)
    }

    open spec fn is_canonical(value: JsonModel) -> bool {
        match envelope::opened(value, "connectedApplication"@) {
            Some(inner) => ConnectedApplication::is_canonical(inner),
            None => false,
        }
    }

    proof fn written_is_read_back(record: ConnectedApplicationObjectModel) {
        ConnectedApplication::written_is_read_back(record.connected_application);
    }

    proof fn read_is_written_back(value: JsonModel) {
        ConnectedApplication::read_is_written_back(
            envelope::opened(value, "connectedApplication"@).unwrap(),
        );
        envelope::open_then_seal(value, "connectedApplication"@);
    }

    fn decode(value: &Json) -> (r: Option<ConnectedApplicationObject>) {
        match envelope::open(value, "connectedApplication") {
            Ok(inner) => match ConnectedApplication::decode(inner) {
                Some(connected_application) => Some(
                    ConnectedApplicationObject { connected_application },
                ),
                None => None,
            },
            Err(_) => None,
        }
    }

    fn encode(&self) -> (r: Json) {
        envelope::seal("connectedApplication", self.connected_application.encode())
    }
}

/// An application that this account has let in.
#[derive(Clone, Debug, PartialEq, Eq)]
pub struct ConnectedApplication {
    /// The entry `organization`.
    pub organization: Organization,
    /// The entry `name`.
    pub name: String,
    /// The entry `description`.
    pub description: String,
    /// The entry `permissions`.
    pub permissions: Vec<String>,
    /// The entry `approvedAt`, in the encoding of
    /// `convert::date_time_iso_8601`.
    pub approved_at: Instant,
    /// The entry `id`.
    pub id: String,
}

/// What a value of [`ConnectedApplication`] holds.
pub struct ConnectedApplicationModel {
    pub organization: OrganizationModel,
    pub name: Seq<char>,
    pub description: Seq<char>,
    pub permissions: Seq<Seq<char>>,
    pub approved_at: Civil,
    pub id: Seq<char>,
}

impl View for ConnectedApplication {
    type V = ConnectedApplicationModel;

    open spec fn view(&self) -> ConnectedApplicationModel {
        ConnectedApplicationModel {
            organization: self.organization@,
            name: self.name@,
            description: self.description@,
            permissions: texts(self.permissions@),
            approved_at: self.approved_at@,
            id: self.id@,
        }
    }
}

impl ConnectedApplication {
    /// No two of the keys are the same.
    proof fn lemma_keys_differ()
        ensures
            "organization"@ != "name"@,
            "organization"@ != "description"@,
            "organization"@ != "permissions"@,
            "organization"@ != "approvedAt"@,
            "organization"@ != "id"@,
            "name"@ != "description"@,
            "name"@ != "permissions"@,
            "name"@ != "approvedAt"@,
            "name"@ != "id"@,
            "description"@ != "permissions"@,
            "description"@ != "approvedAt"@,
            "description"@ != "id"@,
            "permissions"@ != "approvedAt"@,
            "permissions"@ != "id"@,
            "approvedAt"@ != "id"@,
    {
        reveal_strlit("organization");
        reveal_strlit("name");
        reveal_strlit("description");
        reveal_strlit("permissions");
        reveal_strlit("approvedAt");
        reveal_strlit("id");
        assert("organization"@.len() == 12);
        assert("name"@.len() == 4);
        assert("description"@.len() == 11);
        assert("permissions"@.len() == 11);
        assert("approvedAt"@.len() == 10);
        assert("id"@.len() == 2);
        assert("description"@[0] != "permissions"@[0]);
    }
}

impl Record for ConnectedApplication {
    open spec fn read(value: JsonModel) -> Option<ConnectedApplicationModel> {
        match value {
            JsonModel::Object(entries) => if entries.len() == 6
                && record_at::<Organization>(entries, "organization"@).is_some()
                && text_at(entries, "name"@).is_some()
                && text_at(entries, "description"@).is_some()
                && texts_at(entries, "permissions"@).is_some()
                && instant_at(entries, "approvedAt"@).is_some()
                && text_at(entries, "id"@).is_some()
            {
                Some(
                    ConnectedApplicationModel {
                        organization: record_at::<Organization>(entries, "organization"@).unwrap(),
                        name: text_at(entries, "name"@).unwrap(),
                        description: text_at(entries, "description"@).unwrap(),
                        permissions: texts_at(entries, "permissions"@).unwrap(),
                        approved_at: instant_at(entries, "approvedAt"@).unwrap(),
                        id: text_at(entries, "id"@).unwrap(),
                    },
                )
            } else {
                None
            },
            _ => None,
        }
    }

    open spec fn written(record: ConnectedApplicationModel) -> JsonModel {
        JsonModel::Object(
            seq![
                ("organization"@, Organization::written(record.organization)),
                ("name"@, JsonModel::Text(record.name)),
                ("description"@, JsonModel::Text(record.description)),
                ("permissions"@, texts_value(record.permissions)),
                ("approvedAt"@, JsonModel::Text(date_time_iso_8601::encoded(record.approved_at))),
                ("id"@, JsonModel::Text(record.id)),
            ],
        )
    }

    open spec fn is_writable(record: ConnectedApplicationModel) -> bool {
        &&& Organization::is_writable(record.organization)
        &&& record.approved_at.is_valid()
    }

    open spec fn is_canonical(value: JsonModel) -> bool {
        &&& value is Object
        &&& value->Object_0.len() == 6
        &&& value->Object_0[0].0 == "organization"@
        &&& value->Object_0[1].0 == "name"@
        &&& value->Object_0[2].0 == "description"@
        &&& value->Object_0[3].0 == "permissions"@
        &&& value->Object_0[4].0 == "approvedAt"@
        &&& value->Object_0[5].0 == "id"@
        &&& Organization::is_canonical(value->Object_0[0].1)
    }

    proof fn written_is_read_back(record: ConnectedApplicationModel) {
        let entries = Self::written(record)->Object_0;
        Self::lemma_keys_differ();
        lemma_lookup_at(entries, 0);
        lemma_lookup_at(entries, 1);
        lemma_lookup_at(entries, 2);
        lemma_lookup_at(entries, 3);
        lemma_lookup_at(entries, 4);
        lemma_lookup_at(entries, 5);
        Organization::written_is_read_back(record.organization);
        lemma_texts_value(record.permissions);
        date_time_iso_8601::instant_round_trip(record.approved_at);
    }

    proof fn read_is_written_back(value: JsonModel) {
        let entries = value->Object_0;
        Self::lemma_keys_differ();
        lemma_lookup_at(entries, 0);
        lemma_lookup_at(entries, 1);
        lemma_lookup_at(entries, 2);
        lemma_lookup_at(entries, 3);
        lemma_lookup_at(entries, 4);
        lemma_lookup_at(entries, 5);
        Organization::read_is_written_back(entries[0].1);
        lemma_texts_of(entries[3].1);
        date_time_iso_8601::text_round_trip(entries[4].1->Text_0);
        assert(Self::written(Self::read(value).unwrap())->Object_0 =~= entries);
    }

    fn decode(value: &Json) -> (r: Option<ConnectedApplication>) {
        let entries = match value.as_object() {
            Some(entries) => entries,
            None => {
                return None;
            },
        };
        if entries.len() != 6 {
            return None;
        }
        let organization = match read_record::<Organization>(entries, "organization") {
            Some(found) => found,
            None => {
                return None;
            },
        };
        let name = match read_text(entries, "name") {
            Some(found) => found,
            None => {
                return None;
            },
        };
        let description = match read_text(entries, "description") {
            Some(found) => found,
            None => {
                return None;
            },
        };
        let permissions = match read_texts(entries, "permissions") {
            Some(found) => found,
            None => {
                return None;
            },
        };
        let approved_at = match read_instant(entries, "approvedAt") {
            Some(found) => found,
            None => {
                return None;
            },
        };
        let id = match read_text(entries, "id") {
            Some(found) => found,
            None => {
                return None;
            },
        };
        Some(ConnectedApplication { organization, name, description, permissions, approved_at, id })
    }

    fn encode(&self) -> (r: Json) {
        let mut entries: Vec<(String, Json)> = Vec::new();
        entries.push(record_entry("organization", &self.organization));
        entries.push(text_entry("name", &self.name));
        entries.push(text_entry("description", &self.description));
        entries.push(texts_entry("permissions", &self.permissions));
        entries.push(instant_entry("approvedAt", &self.approved_at));
        entries.push(text_entry("id", &self.id));
        proof {
            assert(entry_models(entries@) =~= Self::written(self@)->Object_0);
        }
        Json::object(entries)
    }
}

/// Who makes an application.
#[derive(Clone, Debug, PartialEq, Eq)]
pub struct Organization {
    /// The entry `name`.
    pub name: String,
    /// The entry `url`.
    pub url: String,
    /// The entry `privacyPolicyUrl`.
    pub privacy_policy_url: String,
    /// The entry `termsAndConditionsUrl`.
    pub terms_and_conditions_url: String,
}

/// What a value of [`Organization`] holds.
pub struct OrganizationModel {
    pub name: Seq<char>,
    pub url: Seq<char>,
    pub privacy_policy_url: Seq<char>,
    pub terms_and_conditions_url: Seq<char>,
}

impl View for Organization {
    type V = OrganizationModel;

    open spec fn view(&self) -> OrganizationModel {
        OrganizationModel {
            name: self.name@,
            url: self.url@,
            privacy_policy_url: self.privacy_policy_url@,
            terms_and_conditions_url: self.terms_and_conditions_url@,
        }
    }
}

impl Organization {
    /// No two of the keys are the same.
    proof fn lemma_keys_differ()
        ensures
            "name"@ != "url"@,
            "name"@ != "privacyPolicyUrl"@,
            "name"@ != "termsAndConditionsUrl"@,
            "url"@ != "privacyPolicyUrl"@,
            "url"@ != "termsAndConditionsUrl"@,
            "privacyPolicyUrl"@ != "termsAndConditionsUrl"@,
    {
        reveal_strlit("name");
        reveal_strlit("url");
        reveal_strlit("privacyPolicyUrl");
        reveal_strlit("termsAndConditionsUrl");
        assert("name"@.len() == 4);
        assert("url"@.len() == 3);
        assert("privacyPolicyUrl"@.len() == 16);
        assert("termsAndConditionsUrl"@.len() == 21);
    }
}

impl Record for Organization {
    open spec fn read(value: JsonModel) -> Option<OrganizationModel> {
        match value {
            JsonModel::Object(entries) => if entries.len() == 4
                && text_at(entries, "name"@).is_some()
                && text_at(entries, "url"@).is_some()
                && text_at(entries, "privacyPolicyUrl"@).is_some()
                && text_at(entries, "termsAndConditionsUrl"@).is_some()
            {
                Some(
                    OrganizationModel {
                        name: text_at(entries, "name"@).unwrap(),
                        url: text_at(entries, "url"@).unwrap(),
                        privacy_policy_url: text_at(entries, "privacyPolicyUrl"@).unwrap(),
                        terms_and_conditions_url: text_at(
                            entries,
                            "termsAndConditionsUrl"@,
                        ).unwrap(),
                    },
                )
            } else {
                None
            },
            _ => None,
        }
    }

    open spec fn written(record: OrganizationModel) -> JsonModel {
        JsonModel::Object(
            seq![
                ("name"@, JsonModel::Text(record.name)),
                ("url"@, JsonModel::Text(record.url)),
                ("privacyPolicyUrl"@, JsonModel::Text(record.privacy_policy_url)),
                ("termsAndConditionsUrl"@, JsonModel::Text(record.terms_and_conditions_url)),
            ],
        )
    }

    open spec fn is_writable(record: OrganizationModel) -> bool {
        true
    }

    open spec fn is_canonical(value: JsonModel) -> bool {
        &&& value is Object
        &&& value->Object_0.len() == 4
        &&& value->Object_0[0].0 == "name"@
        &&& value->Object_0[1].0 == "url"@
        &&& value->Object_0[2].0 == "privacyPolicyUrl"@
        &&& value->Object_0[3].0 == "termsAndConditionsUrl"@
    }

    proof fn written_is_read_back(record: OrganizationModel) {
        let entries = Self::written(record)->Object_0;
        Self::lemma_keys_differ();
        lemma_lookup_at(entries, 0);
        lemma_lookup_at(entries, 1);
        lemma_lookup_at(entries, 2);
        lemma_lookup_at(entries, 3);
    }

    proof fn read_is_written_back(value: JsonModel) {
        let entries = value->Object_0;
        Self::lemma_keys_differ();
        lemma_lookup_at(entries, 0);
        lemma_lookup_at(entries, 1);
        lemma_lookup_at(entries, 2);
        lemma_lookup_at(entries, 3);
        assert(Self::written(Self::read(value).unwrap())->Object_0 =~= entries);
    }

    fn decode(value: &Json) -> (r: Option<Organization>) {
        let entries = match value.as_object() {
            Some(entries) => entries,
            None => {
                return None;
            },
        };
        if entries.len() != 4 {
            return None;
        }
        let name = match read_text(entries, "name") {
            Some(found) => found,
            None => {
                return None;
            },
        };
        let url = match read_text(entries, "url") {
            Some(found) => found,
            None => {
                return None;
            },
        };
        let privacy_policy_url = match read_text(entries, "privacyPolicyUrl") {
            Some(found) => found,
            None => {
                return None;
            },
        };
        let terms_and_conditions_url = match read_text(entries, "termsAndConditionsUrl") {
            Some(found) => found,
            None => {
                return None;
            },
        };
        Some(Organization { name, url, privacy_policy_url, terms_and_conditions_url })
    }

    fn encode(&self) -> (r: Json) {
        let mut entries: Vec<(String, Json)> = Vec::new();
        entries.push(text_entry("name", &self.name));
        entries.push(text_entry("url", &self.url));
        entries.push(text_entry("privacyPolicyUrl", &self.privacy_policy_url));
        entries.push(text_entry("termsAndConditionsUrl", &self.terms_and_conditions_url));
        proof {
            assert(entry_models(entries@) =~= Self::written(self@)->Object_0);
        }
        Json::object(entries)
    }
}

} // verus!
