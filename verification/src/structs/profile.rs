//! The records of the file `data/profile.js`.

use vstd::prelude::*;
use vstd::string::*;
use crate::envelope;
use crate::json::{entry_models, lemma_lookup_at, Json, JsonModel};
use crate::record;
use crate::record::{read_record, read_text, record_at, record_entry, text_at, text_entry, Record};

verus! {

/// An envelope: an object of the one entry `profile`, which holds a
/// [`Profile`].
#[derive(Clone, Debug, PartialEq, Eq)]
pub struct ProfileObject {
    /// The entry `profile`.
    pub profile: Profile,
}

/// What a value of [`ProfileObject`] holds.
pub struct ProfileObjectModel {
    pub profile: ProfileModel,
}

impl View for ProfileObject {
    type V = ProfileObjectModel;

    open spec fn view(&self) -> ProfileObjectModel {
        ProfileObjectModel {
            profile: self.profile@,
        }
    }
}

impl Record for ProfileObject {
    open spec fn read(value: JsonModel) -> Option<ProfileObjectModel> {
        match envelope::opened(value, "profile"@) {
            Some(inner) => match Profile::read(inner) {
                Some(profile) => Some(ProfileObjectModel { profile }),
                None => None,
            },
            None => None,
        }
    }

    open spec fn written(record: ProfileObjectModel) -> JsonModel {
        envelope::sealed("profile"@, Profile::written(record.profile))
    }

    open spec fn is_writable(record: ProfileObjectModel) -> bool {
        Profile::is_writable(record.profile)
    }

    open spec fn is_canonical(value: JsonModel) -> bool {
        match envelope::opened(value, "profile"@) {
            Some(inner) => Profile::is_canonical(inner),
            None => false,
        }
    }

    proof fn written_is_read_back(record: ProfileObjectModel) {
        Profile::written_is_read_back(record.profile);
    }

    proof fn read_is_written_back(value: JsonModel) {
        Profile::read_is_written_back(envelope::opened(value, "profile"@).unwrap());
        envelope::open_then_seal(value, "profile"@);
    }

    fn decode(value: &Json) -> (r: Option<ProfileObject>) {
        match envelope::open(value, "profile") {
            Ok(inner) => match Profile::decode(inner) {
                Some(profile) => Some(ProfileObject { profile }),
                None => None,
            },
            Err(_) => None,
        }
    }

    fn encode(&self) -> (r: Json) {
        envelope::seal("profile", self.profile.encode())
    }
}

/// The profile of the account.
#[derive(Clone, Debug, PartialEq, Eq)]
pub struct Profile {
    /// The entry `description`.
    pub description: ProfileDescription,
    /// The entry `avatarMediaUrl`.
    pub avatar_media_url: String,
}

/// What a value of [`Profile`] holds.
pub struct ProfileModel {
    pub description: ProfileDescriptionModel,
    pub avatar_media_url: Seq<char>,
}

impl View for Profile {
    type V = ProfileModel;

    open spec fn view(&self) -> ProfileModel {
        ProfileModel {
            description: self.description@,
            avatar_media_url: self.avatar_media_url@,
        }
    }
}

impl Profile {
    /// No two of the keys are the same.
    proof fn lemma_keys_differ()
        ensures
            "description"@ != "avatarMediaUrl"@,
    {
        reveal_strlit("description");
        reveal_strlit("avatarMediaUrl");
        assert("description"@.len() == 11);
        assert("avatarMediaUrl"@.len() == 14);
    }
}

impl Record for Profile {
    open spec fn read(value: JsonModel) -> Option<ProfileModel> {
        match value {
            JsonModel::Object(entries) => if entries.len() == 2
                && record_at::<ProfileDescription>(entries, "description"@).is_some()
                && text_at(entries, "avatarMediaUrl"@).is_some()
            {
                Some(
                    ProfileModel {
                        description: record_at::<ProfileDescription>(
                            entries,
                            "description"@,
                        ).unwrap(),
                        avatar_media_url: text_at(entries, "avatarMediaUrl"@).unwrap(),
                    },
                )
            } else {
                None
            },
            _ => None,
        }
    }

    open spec fn written(record: ProfileModel) -> JsonModel {
        JsonModel::Object(
            seq![
                ("description"@, ProfileDescription::written(record.description)),
                ("avatarMediaUrl"@, JsonModel::Text(record.avatar_media_url)),
            ],
        )
    }

    open spec fn is_writable(record: ProfileModel) -> bool {
        &&& ProfileDescription::is_writable(record.description)
    }

    open spec fn is_canonical(value: JsonModel) -> bool {
        &&& value is Object
        &&& value->Object_0.len() == 2
        &&& value->Object_0[0].0 == "description"@
        &&& value->Object_0[1].0 == "avatarMediaUrl"@
        &&& ProfileDescription::is_canonical(value->Object_0[0].1)
    }

    proof fn written_is_read_back(record: ProfileModel) {
        let entries = Self::written(record)->Object_0;
        Self::lemma_keys_differ();
        lemma_lookup_at(entries, 0);
        lemma_lookup_at(entries, 1);
        ProfileDescription::written_is_read_back(record.description);
    }

    proof fn read_is_written_back(value: JsonModel) {
        let entries = value->Object_0;
        Self::lemma_keys_differ();
        lemma_lookup_at(entries, 0);
        lemma_lookup_at(entries, 1);
        ProfileDescription::read_is_written_back(entries[0].1);
        assert(Self::written(Self::read(value).unwrap())->Object_0 =~= entries);
    }

    fn decode(value: &Json) -> (r: Option<Profile>) {
        let entries = match value.as_object() {
            Some(entries) => entries,
            None => {
                return None;
            },
        };
        if entries.len() != 2 {
            return None;
        }
        let description = match read_record::<ProfileDescription>(entries, "description") {
            Some(found) => found,
            None => {
                return None;
            },
        };
        let avatar_media_url = match read_text(entries, "avatarMediaUrl") {
            Some(found) => found,
            None => {
                return None;
            },
        };
        Some(Profile { description, avatar_media_url })
    }

    fn encode(&self) -> (r: Json) {
        let mut entries: Vec<(String, Json)> = Vec::new();
        entries.push(record_entry("description", &self.description));
        entries.push(text_entry("avatarMediaUrl", &self.avatar_media_url));
        proof {
            assert(entry_models(entries@) =~= Self::written(self@)->Object_0);
        }
        Json::object(entries)
    }
}

/// What the account says of itself.
#[derive(Clone, Debug, PartialEq, Eq)]
pub struct ProfileDescription {
    /// The entry `bio`.
    pub bio: String,
    /// The entry `website`.
    pub website: String,
    /// The entry `location`.
    pub location: String,
}

/// What a value of [`ProfileDescription`] holds.
pub struct ProfileDescriptionModel {
    pub bio: Seq<char>,
    pub website: Seq<char>,
    pub location: Seq<char>,
}

impl View for ProfileDescription {
    type V = ProfileDescriptionModel;

    open spec fn view(&self) -> ProfileDescriptionModel {
        ProfileDescriptionModel {
            bio: self.bio@,
            website: self.website@,
            location: self.location@,
        }
    }
}

impl ProfileDescription {
    /// No two of the keys are the same.
    proof fn lemma_keys_differ()
        ensures
            "bio"@ != "website"@,
            "bio"@ != "location"@,
            "website"@ != "location"@,
    {
        reveal_strlit("bio");
        reveal_strlit("website");
        reveal_strlit("location");
        assert("bio"@.len() == 3);
        assert("website"@.len() == 7);
        assert("location"@.len() == 8);
    }
}

impl Record for ProfileDescription {
    open spec fn read(value: JsonModel) -> Option<ProfileDescriptionModel> {
        match value {
            JsonModel::Object(entries) => if entries.len() == 3
                && text_at(entries, "bio"@).is_some()
                && text_at(entries, "website"@).is_some()
                && text_at(entries, "location"@).is_some()
            {
                Some(
                    ProfileDescriptionModel {
                        bio: text_at(entries, "bio"@).unwrap(),
                        website: text_at(entries, "website"@).unwrap(),
                        location: text_at(entries, "location"@).unwrap(),
                    },
                )
            } else {
                None
            },
            _ => None,
        }
    }

    open spec fn written(record: ProfileDescriptionModel) -> JsonModel {
        JsonModel::Object(
            seq![
                ("bio"@, JsonModel::Text(record.bio)),
                ("website"@, JsonModel::Text(record.website)),
                ("location"@, JsonModel::Text(record.location)),
            ],
        )
    }

    open spec fn is_writable(record: ProfileDescriptionModel) -> bool {
        true
    }

    open spec fn is_canonical(value: JsonModel) -> bool {
        &&& value is Object
        &&& value->Object_0.len() == 3
        &&& value->Object_0[0].0 == "bio"@
        &&& value->Object_0[1].0 == "website"@
        &&& value->Object_0[2].0 == "location"@
    }

    proof fn written_is_read_back(record: ProfileDescriptionModel) {
        let entries = Self::written(record)->Object_0;
        Self::lemma_keys_differ();
        lemma_lookup_at(entries, 0);
        lemma_lookup_at(entries, 1);
        lemma_lookup_at(entries, 2);
    }

    proof fn read_is_written_back(value: JsonModel) {
        let entries = value->Object_0;
        Self::lemma_keys_differ();
        lemma_lookup_at(entries, 0);
        lemma_lookup_at(entries, 1);
        lemma_lookup_at(entries, 2);
        assert(Self::written(Self::read(value).unwrap())->Object_0 =~= entries);
    }

    fn decode(value: &Json) -> (r: Option<ProfileDescription>) {
        let entries = match value.as_object() {
            Some(entries) => entries,
            None => {
                return None;
            },
        };
        if entries.len() != 3 {
            return None;
        }
        let bio = match read_text(entries, "bio") {
            Some(found) => found,
            None => {
                return None;
            },
        };
        let website = match read_text(entries, "website") {
            Some(found) => found,
            None => {
                return None;
            },
        };
        let location = match read_text(entries, "location") {
            Some(found) => found,
            None => {
                return None;
            },
        };
        Some(ProfileDescription { bio, website, location })
    }

    fn encode(&self) -> (r: Json) {
        let mut entries: Vec<(String, Json)> = Vec::new();
        entries.push(text_entry("bio", &self.bio));
        entries.push(text_entry("website", &self.website));
        entries.push(text_entry("location", &self.location));
        proof {
            assert(entry_models(entries@) =~= Self::written(self@)->Object_0);
        }
        Json::object(entries)
    }
}

} // verus!
