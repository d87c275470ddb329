//! Records that the files `data/direct-messages.js` and
//! `data/direct-messages-group.js` share.

use vstd::prelude::*;
use vstd::string::*;
use crate::convert::date_time_iso_8601;
use crate::instant::{Civil, Instant};
use crate::json::{entry_models, lemma_lookup_at, Json, JsonModel};
use crate::record::{
    created_at, instant_at, instant_entry, lemma_texts_of, lemma_texts_value, read_instant,
    read_text, read_texts, text_at, text_entry, texts_at, texts_entry, texts_value, Record,
};
use crate::text::texts;

verus! {

/// Some participants left a conversation.
#[derive(Clone, Debug, PartialEq, Eq)]
pub struct ParticipantsLeave {
    /// The entry `userIds`.
    pub user_ids: Vec<String>,
    /// The entry `createdAt`, in the encoding of
    /// `convert::date_time_iso_8601`.
    pub created_at: Instant,
}

/// What a value of [`ParticipantsLeave`] holds.
pub struct ParticipantsLeaveModel {
    pub user_ids: Seq<Seq<char>>,
    pub created_at: Civil,
}

impl View for ParticipantsLeave {
    type V = ParticipantsLeaveModel;

    open spec fn view(&self) -> ParticipantsLeaveModel {
        ParticipantsLeaveModel {
            user_ids: texts(self.user_ids@),
            created_at: self.created_at@,
        }
    }
}

impl ParticipantsLeave {
    /// No two of the keys are the same.
    proof fn lemma_keys_differ()
        ensures
            "userIds"@ != "createdAt"@,
    {
        reveal_strlit("userIds");
        reveal_strlit("createdAt");
        assert("userIds"@.len() == 7);
        assert("createdAt"@.len() == 9);
    }
}

impl Record for ParticipantsLeave {
    open spec fn read(value: JsonModel) -> Option<ParticipantsLeaveModel> {
        match value {
            JsonModel::Object(entries) => if entries.len() == 2
                && texts_at(entries, "userIds"@).is_some()
                && instant_at(entries, "createdAt"@).is_some()
            {
                Some(
                    ParticipantsLeaveModel {
                        user_ids: texts_at(entries, "userIds"@).unwrap(),
                        created_at: instant_at(entries, "createdAt"@).unwrap(),
                    },
                )
            } else {
                None
            },
            _ => None,
        }
    }

    open spec fn written(record: ParticipantsLeaveModel) -> JsonModel {
        JsonModel::Object(
            seq![
                ("userIds"@, texts_value(record.user_ids)),
                ("createdAt"@, JsonModel::Text(date_time_iso_8601::encoded(record.created_at))),
            ],
        )
    }

    open spec fn is_writable(record: ParticipantsLeaveModel) -> bool {
        &&& record.created_at.is_valid()
    }

    open spec fn is_canonical(value: JsonModel) -> bool {
        &&& value is Object
        &&& value->Object_0.len() == 2
        &&& value->Object_0[0].0 == "userIds"@
        &&& value->Object_0[1].0 == "createdAt"@
    }

    proof fn written_is_read_back(record: ParticipantsLeaveModel) {
        let entries = Self::written(record)->Object_0;
        Self::lemma_keys_differ();
        lemma_lookup_at(entries, 0);
        lemma_lookup_at(entries, 1);
        lemma_texts_value(record.user_ids);
        date_time_iso_8601::instant_round_trip(record.created_at);
    }

    proof fn read_is_written_back(value: JsonModel) {
        let entries = value->Object_0;
        Self::lemma_keys_differ();
        lemma_lookup_at(entries, 0);
        lemma_lookup_at(entries, 1);
        lemma_texts_of(entries[0].1);
        date_time_iso_8601::text_round_trip(entries[1].1->Text_0);
        assert(Self::written(Self::read(value).unwrap())->Object_0 =~= entries);
    }

    fn decode(value: &Json) -> (r: Option<ParticipantsLeave>) {
        let entries = match value.as_object() {
            Some(entries) => entries,
            None => {
                return None;
            },
        };
        if entries.len() != 2 {
            return None;
        }
        let user_ids = match read_texts(entries, "userIds") {
            Some(found) => found,
            None => {
                return None;
            },
        };
        let created_at = match read_instant(entries, "createdAt") {
            Some(found) => found,
            None => {
                return None;
            },
        };
        Some(ParticipantsLeave { user_ids, created_at })
    }

    fn encode(&self) -> (r: Json) {
        let mut entries: Vec<(String, Json)> = Vec::new();
        entries.push(texts_entry("userIds", &self.user_ids));
        entries.push(instant_entry("createdAt", &self.created_at));
        proof {
            assert(entry_models(entries@) =~= Self::written(self@)->Object_0);
        }
        Json::object(entries)
    }
}

/// This account was taken into a conversation.
#[derive(Clone, Debug, PartialEq, Eq)]
pub struct JoinConversation {
    /// The entry `initiatingUserId`.
    pub initiating_user_id: String,
    /// The entry `participantsSnapshot`.
    pub participants_snapshot: Vec<String>,
    /// The entry `createdAt`, in the encoding of
    /// `convert::date_time_iso_8601`.
    pub created_at: Instant,
}

/// What a value of [`JoinConversation`] holds.
pub struct JoinConversationModel {
    pub initiating_user_id: Seq<char>,
    pub participants_snapshot: Seq<Seq<char>>,
    pub created_at: Civil,
}

impl View for JoinConversation {
    type V = JoinConversationModel;

    open spec fn view(&self) -> JoinConversationModel {
        JoinConversationModel {
            initiating_user_id: self.initiating_user_id@,
            participants_snapshot: texts(self.participants_snapshot@),
            created_at: self.created_at@,
        }
    }
}

impl JoinConversation {
    /// No two of the keys are the same.
    proof fn lemma_keys_differ()
        ensures
            "initiatingUserId"@ != "participantsSnapshot"@,
            "initiatingUserId"@ != "createdAt"@,
            "participantsSnapshot"@ != "createdAt"@,
    {
        reveal_strlit("initiatingUserId");
        reveal_strlit("participantsSnapshot");
        reveal_strlit("createdAt");
        assert("initiatingUserId"@.len() == 16);
        assert("participantsSnapshot"@.len() == 20);
        assert("createdAt"@.len() == 9);
    }
}

impl Record for JoinConversation {
    open spec fn read(value: JsonModel) -> Option<JoinConversationModel> {
        match value {
            JsonModel::Object(entries) => if entries.len() == 3
                && text_at(entries, "initiatingUserId"@).is_some()
                && texts_at(entries, "participantsSnapshot"@).is_some()
                && instant_at(entries, "createdAt"@).is_some()
            {
                Some(
                    JoinConversationModel {
                        initiating_user_id: text_at(entries, "initiatingUserId"@).unwrap(),
                        participants_snapshot: texts_at(entries, "participantsSnapshot"@).unwrap(),
                        created_at: instant_at(entries, "createdAt"@).unwrap(),
                    },
                )
            } else {
                None
            },
            _ => None,
        }
    }

    open spec fn written(record: JoinConversationModel) -> JsonModel {
        JsonModel::Object(
            seq![
                ("initiatingUserId"@, JsonModel::Text(record.initiating_user_id)),
                ("participantsSnapshot"@, texts_value(record.participants_snapshot)),
                ("createdAt"@, JsonModel::Text(date_time_iso_8601::encoded(record.created_at))),
            ],
        )
    }

    open spec fn is_writable(record: JoinConversationModel) -> bool {
        &&& record.created_at.is_valid()
    }

    open spec fn is_canonical(value: JsonModel) -> bool {
        &&& value is Object
        &&& value->Object_0.len() == 3
        &&& value->Object_0[0].0 == "initiatingUserId"@
        &&& value->Object_0[1].0 == "participantsSnapshot"@
        &&& value->Object_0[2].0 == "createdAt"@
    }

    proof fn written_is_read_back(record: JoinConversationModel) {
        let entries = Self::written(record)->Object_0;
        Self::lemma_keys_differ();
        lemma_lookup_at(entries, 0);
        lemma_lookup_at(entries, 1);
        lemma_lookup_at(entries, 2);
        lemma_texts_value(record.participants_snapshot);
        date_time_iso_8601::instant_round_trip(record.created_at);
    }

    proof fn read_is_written_back(value: JsonModel) {
        let entries = value->Object_0;
        Self::lemma_keys_differ();
        lemma_lookup_at(entries, 0);
        lemma_lookup_at(entries, 1);
        lemma_lookup_at(entries, 2);
        lemma_texts_of(entries[1].1);
        date_time_iso_8601::text_round_trip(entries[2].1->Text_0);
        assert(Self::written(Self::read(value).unwrap())->Object_0 =~= entries);
    }

    fn decode(value: &Json) -> (r: Option<JoinConversation>) {
        let entries = match value.as_object() {
            Some(entries) => entries,
            None => {
                return None;
            },
        };
        if entries.len() != 3 {
            return None;
        }
        let initiating_user_id = match read_text(entries, "initiatingUserId") {
            Some(found) => found,
            None => {
                return None;
            },
        };
        let participants_snapshot = match read_texts(entries, "participantsSnapshot") {
            Some(found) => found,
            None => {
                return None;
            },
        };
        let created_at = match read_instant(entries, "createdAt") {
            Some(found) => found,
            None => {
                return None;
            },
        };
        Some(JoinConversation { initiating_user_id, participants_snapshot, created_at })
    }

    fn encode(&self) -> (r: Json) {
        let mut entries: Vec<(String, Json)> = Vec::new();
        entries.push(text_entry("initiatingUserId", &self.initiating_user_id));
        entries.push(texts_entry("participantsSnapshot", &self.participants_snapshot));
        entries.push(instant_entry("createdAt", &self.created_at));
        proof {
            assert(entry_models(entries@) =~= Self::written(self@)->Object_0);
        }
        Json::object(entries)
    }
}

/// A reaction to a message.
#[derive(Clone, Debug, PartialEq, Eq)]
pub struct MessageCreateReaction {
    /// The entry `senderId`.
    pub sender_id: String,
    /// The entry `reactionKey`.
    pub reaction_key: String,
    /// The entry `eventId`.
    pub event_id: String,
    /// The entry `createdAt`, in the encoding of
    /// `convert::date_time_iso_8601`.
    pub created_at: Instant,
}

/// What a value of [`MessageCreateReaction`] holds.
pub struct MessageCreateReactionModel {
    pub sender_id: Seq<char>,
    pub reaction_key: Seq<char>,
    pub event_id: Seq<char>,
    pub created_at: Civil,
}

impl View for MessageCreateReaction {
    type V = MessageCreateReactionModel;

    open spec fn view(&self) -> MessageCreateReactionModel {
        MessageCreateReactionModel {
            sender_id: self.sender_id@,
            reaction_key: self.reaction_key@,
            event_id: self.event_id@,
            created_at: self.created_at@,
        }
    }
}

impl MessageCreateReaction {
    /// No two of the keys are the same.
    proof fn lemma_keys_differ()
        ensures
            "senderId"@ != "reactionKey"@,
            "senderId"@ != "eventId"@,
            "senderId"@ != "createdAt"@,
            "reactionKey"@ != "eventId"@,
            "reactionKey"@ != "createdAt"@,
            "eventId"@ != "createdAt"@,
    {
        reveal_strlit("senderId");
        reveal_strlit("reactionKey");
        reveal_strlit("eventId");
        reveal_strlit("createdAt");
        assert("senderId"@.len() == 8);
        assert("reactionKey"@.len() == 11);
        assert("eventId"@.len() == 7);
        assert("createdAt"@.len() == 9);
    }
}

impl Record for MessageCreateReaction {
    open spec fn read(value: JsonModel) -> Option<MessageCreateReactionModel> {
        match value {
            JsonModel::Object(entries) => if entries.len() == 4
                && text_at(entries, "senderId"@).is_some()
                && text_at(entries, "reactionKey"@).is_some()
                && text_at(entries, "eventId"@).is_some()
                && instant_at(entries, "createdAt"@).is_some()
            {
                Some(
                    MessageCreateReactionModel {
                        sender_id: text_at(entries, "senderId"@).unwrap(),
                        reaction_key: text_at(entries, "reactionKey"@).unwrap(),
                        event_id: text_at(entries, "eventId"@).unwrap(),
                        created_at: instant_at(entries, "createdAt"@).unwrap(),
                    },
                )
            } else {
                None
            },
            _ => None,
        }
    }

    open spec fn written(record: MessageCreateReactionModel) -> JsonModel {
        JsonModel::Object(
            seq![
                ("senderId"@, JsonModel::Text(record.sender_id)),
                ("reactionKey"@, JsonModel::Text(record.reaction_key)),
                ("eventId"@, JsonModel::Text(record.event_id)),
                ("createdAt"@, JsonModel::Text(date_time_iso_8601::encoded(record.created_at))),
            ],
        )
    }

    open spec fn is_writable(record: MessageCreateReactionModel) -> bool {
        &&& record.created_at.is_valid()
    }

    open spec fn is_canonical(value: JsonModel) -> bool {
        &&& value is Object
        &&& value->Object_0.len() == 4
        &&& value->Object_0[0].0 == "senderId"@
        &&& value->Object_0[1].0 == "reactionKey"@
        &&& value->Object_0[2].0 == "eventId"@
        &&& value->Object_0[3].0 == "createdAt"@
    }

    proof fn written_is_read_back(record: MessageCreateReactionModel) {
        let entries = Self::written(record)->Object_0;
        Self::lemma_keys_differ();
        lemma_lookup_at(entries, 0);
        lemma_lookup_at(entries, 1);
        lemma_lookup_at(entries, 2);
        lemma_lookup_at(entries, 3);
        date_time_iso_8601::instant_round_trip(record.created_at);
    }

    proof fn read_is_written_back(value: JsonModel) {
        let entries = value->Object_0;
        Self::lemma_keys_differ();
        lemma_lookup_at(entries, 0);
        lemma_lookup_at(entries, 1);
        lemma_lookup_at(entries, 2);
        lemma_lookup_at(entries, 3);
        date_time_iso_8601::text_round_trip(entries[3].1->Text_0);
        assert(Self::written(Self::read(value).unwrap())->Object_0 =~= entries);
    }

    fn decode(value: &Json) -> (r: Option<MessageCreateReaction>) {
        let entries = match value.as_object() {
            Some(entries) => entries,
            None => {
                return None;
            },
        };
        if entries.len() != 4 {
            return None;
        }
        let sender_id = match read_text(entries, "senderId") {
            Some(found) => found,
            None => {
                return None;
            },
        };
        let reaction_key = match read_text(entries, "reactionKey") {
            Some(found) => found,
            None => {
                return None;
            },
        };
        let event_id = match read_text(entries, "eventId") {
            Some(found) => found,
            None => {
                return None;
            },
        };
        let created_at = match read_instant(entries, "createdAt") {
            Some(found) => found,
            None => {
                return None;
            },
        };
        Some(MessageCreateReaction { sender_id, reaction_key, event_id, created_at })
    }

    fn encode(&self) -> (r: Json) {
        let mut entries: Vec<(String, Json)> = Vec::new();
        entries.push(text_entry("senderId", &self.sender_id));
        entries.push(text_entry("reactionKey", &self.reaction_key));
        entries.push(text_entry("eventId", &self.event_id));
        entries.push(instant_entry("createdAt", &self.created_at));
        proof {
            assert(entry_models(entries@) =~= Self::written(self@)->Object_0);
        }
        Json::object(entries)
    }
}

/// A link in a message: as it stands in the text, where it leads, and how it
/// is shown.
#[derive(Clone, Debug, PartialEq, Eq)]
pub struct MessageCreateUrl {
    /// The entry `url`.
    pub url: String,
    /// The entry `expanded`.
    pub expanded: String,
    /// The entry `display`.
    pub display: String,
}

/// What a value of [`MessageCreateUrl`] holds.
pub struct MessageCreateUrlModel {
    pub url: Seq<char>,
    pub expanded: Seq<char>,
    pub display: Seq<char>,
}

impl View for MessageCreateUrl {
    type V = MessageCreateUrlModel;

    open spec fn view(&self) -> MessageCreateUrlModel {
        MessageCreateUrlModel {
            url: self.url@,
            expanded: self.expanded@,
            display: self.display@,
        }
    }
}

impl MessageCreateUrl {
    /// No two of the keys are the same.
    proof fn lemma_keys_differ()
        ensures
            "url"@ != "expanded"@,
            "url"@ != "display"@,
            "expanded"@ != "display"@,
    {
        reveal_strlit("url");
        reveal_strlit("expanded");
        reveal_strlit("display");
        assert("url"@.len() == 3);
        assert("expanded"@.len() == 8);
        assert("display"@.len() == 7);
    }
}

impl Record for MessageCreateUrl {
    open spec fn read(value: JsonModel) -> Option<MessageCreateUrlModel> {
        match value {
            JsonModel::Object(entries) => if entries.len() == 3
                && text_at(entries, "url"@).is_some()
                && text_at(entries, "expanded"@).is_some()
                && text_at(entries, "display"@).is_some()
            {
                Some(
                    MessageCreateUrlModel {
                        url: text_at(entries, "url"@).unwrap(),
                        expanded: text_at(entries, "expanded"@).unwrap(),
                        display: text_at(entries, "display"@).unwrap(),
                    },
                )
            } else {
                None
            },
            _ => None,
        }
    }

    open spec fn written(record: MessageCreateUrlModel) -> JsonModel {
        JsonModel::Object(
            seq![
                ("url"@, JsonModel::Text(record.url)),
                ("expanded"@, JsonModel::Text(record.expanded)),
                ("display"@, JsonModel::Text(record.display)),
            ],
        )
    }

    open spec fn is_writable(record: MessageCreateUrlModel) -> bool {
        true
    }

    open spec fn is_canonical(value: JsonModel) -> bool {
        &&& value is Object
        &&& value->Object_0.len() == 3
        &&& value->Object_0[0].0 == "url"@
        &&& value->Object_0[1].0 == "expanded"@
        &&& value->Object_0[2].0 == "display"@
    }

    proof fn written_is_read_back(record: MessageCreateUrlModel) {
        let entries = Self::written(record)->Object_0;
        Self::lemma_keys_differ();
        lemma_lookup_at(entries, 0);
        lemma_lookup_at(entries, 1);
        lemma_lookup_at(entries, 2);
    }

    proof fn read_is_written_back(value: JsonModel) {
        let entries = value->Object_0;
        Self::lemma_keys_differ();
        lemma_lookup_at(entries, 0);
        lemma_lookup_at(entries, 1);
        lemma_lookup_at(entries, 2);
        assert(Self::written(Self::read(value).unwrap())->Object_0 =~= entries);
    }

    fn decode(value: &Json) -> (r: Option<MessageCreateUrl>) {
        let entries = match value.as_object() {
            Some(entries) => entries,
            None => {
                return None;
            },
        };
        if entries.len() != 3 {
            return None;
        }
        let url = match read_text(entries, "url") {
            Some(found) => found,
            None => {
                return None;
            },
        };
        let expanded = match read_text(entries, "expanded") {
            Some(found) => found,
            None => {
                return None;
            },
        };
        let display = match read_text(entries, "display") {
            Some(found) => found,
            None => {
                return None;
            },
        };
        Some(MessageCreateUrl { url, expanded, display })
    }

    fn encode(&self) -> (r: Json) {
        let mut entries: Vec<(String, Json)> = Vec::new();
        entries.push(text_entry("url", &self.url));
        entries.push(text_entry("expanded", &self.expanded));
        entries.push(text_entry("display", &self.display));
        proof {
            assert(entry_models(entries@) =~= Self::written(self@)->Object_0);
        }
        Json::object(entries)
    }
}

} // verus!
