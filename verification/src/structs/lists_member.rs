//! The records of the file `data/lists-member.js`.

use vstd::prelude::*;
use crate::envelope;
use crate::json::{entry_models, lemma_lookup_at, Json, JsonModel};
use crate::record::{read_text, text_at, text_entry, Record};

verus! {

/// An envelope: an object of the one entry `userListInfo`, which holds a
/// [`UserListInfo`].
#[derive(Clone, Debug, PartialEq, Eq)]
pub struct UserListInfoObject {
    /// The entry `userListInfo`.
    pub user_list_info: UserListInfo,
}

/// What a value of [`UserListInfoObject`] holds.
pub struct UserListInfoObjectModel {
    pub user_list_info: UserListInfoModel,
}

impl View for UserListInfoObject {
    type V = UserListInfoObjectModel;

    open spec fn view(&self) -> UserListInfoObjectModel {
        UserListInfoObjectModel {
            user_list_info: self.user_list_info@,
        }
    }
}

impl Record for UserListInfoObject {
    open spec fn read(value: JsonModel) -> Option<UserListInfoObjectModel> {
        match envelope::opened(value, "userListInfo"@) {
            Some(inner) => match UserListInfo::read(inner) {
                Some(user_list_info) => Some(UserListInfoObjectModel { user_list_info }),
                None => None,
            },
            None => None,
        }
    }

    open spec fn written(record: UserListInfoObjectModel) -> JsonModel {
        envelope::sealed("userListInfo"@, UserListInfo::written(record.user_list_info))
    }

    open spec fn is_writable(record: UserListInfoObjectModel) -> bool {
        UserListInfo::is_writable(record.user_list_info)
    }

    open spec fn is_canonical(value: JsonModel) -> bool {
        match envelope::opened(value, "userListInfo"@) {
            Some(inner) => UserListInfo::is_canonical(inner),
            None => false,
        }
    }

    proof fn written_is_read_back(record: UserListInfoObjectModel) {
        UserListInfo::written_is_read_back(record.user_list_info);
    }

    proof fn read_is_written_back(value: JsonModel) {
        UserListInfo::read_is_written_back(envelope::opened(value, "userListInfo"@).unwrap());
        envelope::open_then_seal(value, "userListInfo"@);
    }

    fn decode(value: &Json) -> (r: Option<UserListInfoObject>) {
        match envelope::open(value, "userListInfo") {
            Ok(inner) => match UserListInfo::decode(inner) {
                Some(user_list_info) => Some(UserListInfoObject { user_list_info }),
                None => None,
            },
            Err(_) => None,
        }
    }

    fn encode(&self) -> (r: Json) {
        envelope::seal("userListInfo", self.user_list_info.encode())
    }
}

/// A list that this account is a member of.
#[derive(Clone, Debug, PartialEq, Eq)]
pub struct UserListInfo {
    /// The entry `url`.
    pub url: String,
}

/// What a value of [`UserListInfo`] holds.
pub struct UserListInfoModel {
    pub url: Seq<char>,
}

impl View for UserListInfo {
    type V = UserListInfoModel;

    open spec fn view(&self) -> UserListInfoModel {
        UserListInfoModel {
            url: self.url@,
        }
    }
}

impl Record for UserListInfo {
    open spec fn read(value: JsonModel) -> Option<UserListInfoModel> {
        match value {
            JsonModel::Object(entries) => if entries.len() == 1
                && text_at(entries, "url"@).is_some()
            {
                Some(
                    UserListInfoModel {
                        url: text_at(entries, "url"@).unwrap(),
                    },
                )
            } else {
                None
            },
            _ => None,
        }
    }

    open spec fn written(record: UserListInfoModel) -> JsonModel {
        JsonModel::Object(
            seq![
                ("url"@, JsonModel::Text(record.url)),
            ],
        )
    }

    open spec fn is_writable(record: UserListInfoModel) -> bool {
        true
    }

    open spec fn is_canonical(value: JsonModel) -> bool {
        &&& value is Object
        &&& value->Object_0.len() == 1
        &&& value->Object_0[0].0 == "url"@
    }

    proof fn written_is_read_back(record: UserListInfoModel) {
        let entries = Self::written(record)->Object_0;
        lemma_lookup_at(entries, 0);
    }

    proof fn read_is_written_back(value: JsonModel) {
        let entries = value->Object_0;
        lemma_lookup_at(entries, 0);
        assert(Self::written(Self::read(value).unwrap())->Object_0 =~= entries);
    }

    fn decode(value: &Json) -> (r: Option<UserListInfo>) {
        let entries = match value.as_object() {
            Some(entries) => entries,
            None => {
                return None;
            },
        };
        if entries.len() != 1 {
            return None;
        }
        let url = match read_text(entries, "url") {
            Some(found) => found,
            None => {
                return None;
            },
        };
        Some(UserListInfo { url })
    }

    fn encode(&self) -> (r: Json) {
        let mut entries: Vec<(String, Json)> = Vec::new();
        entries.push(text_entry("url", &self.url));
        proof {
            assert(entry_models(entries@) =~= Self::written(self@)->Object_0);
        }
        Json::object(entries)
    }
}

} // verus!
