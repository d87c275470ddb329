//! The records of the file `data/direct-message-group-headers.js`.

use vstd::prelude::*;
use vstd::string::*;
use crate::convert::date_time_iso_8601;
use crate::envelope;
use crate::events;
use crate::events::{event_models, EventVariants};
use crate::instant::{Civil, Instant};
use crate::json::{entry_models, lemma_lookup_at, Json, JsonModel};
use crate::record::{
    created_at, instant_at, instant_entry, read_instant, read_text, text_at, text_entry, Record,
};
use crate::structs::direct_message::{
    JoinConversation, JoinConversationModel, ParticipantsLeave, ParticipantsLeaveModel,
};

verus! {

/// An envelope: an object of the one entry `dmConversation`, which holds a
/// [`DmConversation`].
#[derive(Clone, Debug, PartialEq, Eq)]
pub struct DmConversationObject {
    /// The entry `dmConversation`.
    pub dm_conversation: DmConversation,
}

/// What a value of [`DmConversationObject`] holds.
pub struct DmConversationObjectModel {
    pub dm_conversation: DmConversationModel,
}

impl View for DmConversationObject {
    type V = DmConversationObjectModel;

    open spec fn view(&self) -> DmConversationObjectModel {
        DmConversationObjectModel {
            dm_conversation: self.dm_conversation@,
        }
    }
}

impl Record for DmConversationObject {
    open spec fn read(value: JsonModel) -> Option<DmConversationObjectModel> {
        match envelope::opened(value, "dmConversation"@) {
            Some(inner) => match DmConversation::read(inner) {
                Some(dm_conversation) => Some(DmConversationObjectModel { dm_conversation }),
                None => None,
            },
            None => None,
        }
    }

    open spec fn written(record: DmConversationObjectModel) -> JsonModel {
        envelope::sealed("dmConversation"@, DmConversation::written(record.dm_conversation))
    }

    open spec fn is_writable(record: DmConversationObjectModel) -> bool {
        DmConversation::is_writable(record.dm_conversation)
    }

    open spec fn is_canonical(value: JsonModel) -> bool {
        match envelope::opened(value, "dmConversation"@) {
            Some(inner) => DmConversation::is_canonical(inner),
            None => false,
        }
    }

    proof fn written_is_read_back(record: DmConversationObjectModel) {
        DmConversation::written_is_read_back(record.dm_conversation);
    }

    proof fn read_is_written_back(value: JsonModel) {
        DmConversation::read_is_written_back(envelope::opened(value, "dmConversation"@).unwrap());
        envelope::open_then_seal(value, "dmConversation"@);
    }

    fn decode(value: &Json) -> (r: Option<DmConversationObject>) {
        match envelope::open(value, "dmConversation") {
            Ok(inner) => match DmConversation::decode(inner) {
                Some(dm_conversation) => Some(DmConversationObject { dm_conversation }),
                None => None,
            },
            Err(_) => None,
        }
    }

    fn encode(&self) -> (r: Json) {
        envelope::seal("dmConversation", self.dm_conversation.encode())
    }
}

/// A group conversation and its events, without their content, in the order of
/// the file.
#[derive(Clone, Debug, PartialEq, Eq)]
pub struct DmConversation {
    /// The entry `conversationId`.
    pub conversation_id: String,
    /// The entry `messages`.
    pub messages: Vec<Message>,
}

/// What a value of [`DmConversation`] holds.
pub struct DmConversationModel {
    pub conversation_id: Seq<char>,
    pub messages: Seq<MessageModel>,
}

impl View for DmConversation {
    type V = DmConversationModel;

    open spec fn view(&self) -> DmConversationModel {
        DmConversationModel {
            conversation_id: self.conversation_id@,
            messages: event_models(self.messages@),
        }
    }
}

impl DmConversation {
    /// No two of the keys are the same.
    proof fn lemma_keys_differ()
        ensures
            "conversationId"@ != "messages"@,
    {
        reveal_strlit("conversationId");
        reveal_strlit("messages");
        assert("conversationId"@.len() == 14);
        assert("messages"@.len() == 8);
    }
}

impl Record for DmConversation {
    open spec fn read(value: JsonModel) -> Option<DmConversationModel> {
        match value {
            JsonModel::Object(entries) => if entries.len() == 2
                && text_at(entries, "conversationId"@).is_some()
                && events::events_at::<Message>(entries, "messages"@).is_some()
            {
                Some(
                    DmConversationModel {
                        conversation_id: text_at(entries, "conversationId"@).unwrap(),
                        messages: events::events_at::<Message>(entries, "messages"@).unwrap(),
                    },
                )
            } else {
                None
            },
            _ => None,
        }
    }

    open spec fn written(record: DmConversationModel) -> JsonModel {
        JsonModel::Object(
            seq![
                ("conversationId"@, JsonModel::Text(record.conversation_id)),
                ("messages"@, events::events_value::<Message>(record.messages)),
            ],
        )
    }

    open spec fn is_writable(record: DmConversationModel) -> bool {
        &&& events::all_writable::<Message>(record.messages)
    }

    open spec fn is_canonical(value: JsonModel) -> bool {
        &&& value is Object
        &&& value->Object_0.len() == 2
        &&& value->Object_0[0].0 == "conversationId"@
        &&& value->Object_0[1].0 == "messages"@
        &&& events::all_canonical::<Message>(value->Object_0[1].1)
    }

    proof fn written_is_read_back(record: DmConversationModel) {
        let entries = Self::written(record)->Object_0;
        Self::lemma_keys_differ();
        lemma_lookup_at(entries, 0);
        lemma_lookup_at(entries, 1);
        events::lemma_events_value::<Message>(record.messages);
    }

    proof fn read_is_written_back(value: JsonModel) {
        let entries = value->Object_0;
        Self::lemma_keys_differ();
        lemma_lookup_at(entries, 0);
        lemma_lookup_at(entries, 1);
        events::lemma_events_of::<Message>(entries[1].1);
        assert(Self::written(Self::read(value).unwrap())->Object_0 =~= entries);
    }

    fn decode(value: &Json) -> (r: Option<DmConversation>) {
        let entries = match value.as_object() {
            Some(entries) => entries,
            None => {
                return None;
            },
        };
        if entries.len() != 2 {
            return None;
        }
        let conversation_id = match read_text(entries, "conversationId") {
            Some(found) => found,
            None => {
                return None;
            },
        };
        let messages = match events::read_events::<Message>(entries, "messages") {
            Some(found) => found,
            None => {
                return None;
            },
        };
        Some(DmConversation { conversation_id, messages })
    }

    fn encode(&self) -> (r: Json) {
        let mut entries: Vec<(String, Json)> = Vec::new();
        entries.push(text_entry("conversationId", &self.conversation_id));
        entries.push(events::events_entry("messages", &self.messages));
        proof {
            assert(entry_models(entries@) =~= Self::written(self@)->Object_0);
        }
        Json::object(entries)
    }
}

/// An event of a conversation. Each is written as an object of one
/// entry, under the name of its variant. The variants are tried in the
/// order in which they stand here.
#[derive(Clone, Debug, PartialEq, Eq)]
pub enum Message {
    /// `{ "messageCreate": { .. } }`
    MessageCreate(MessageCreate),
    /// `{ "participantsLeave": { .. } }`
    ParticipantsLeave(ParticipantsLeave),
    /// `{ "joinConversation": { .. } }`
    JoinConversation(JoinConversation),
}

/// What a value of [`Message`] holds.
pub enum MessageModel {
    MessageCreate(MessageCreateModel),
    ParticipantsLeave(ParticipantsLeaveModel),
    JoinConversation(JoinConversationModel),
}

impl View for Message {
    type V = MessageModel;

    open spec fn view(&self) -> MessageModel {
        match self {
            Message::MessageCreate(record) => MessageModel::MessageCreate(record@),
            Message::ParticipantsLeave(record) => MessageModel::ParticipantsLeave(record@),
            Message::JoinConversation(record) => MessageModel::JoinConversation(record@),
        }
    }
}

impl Message {
    /// No two of the names of the variants are the same.
    proof fn lemma_names_differ()
        ensures
            "messageCreate"@ != "participantsLeave"@,
            "messageCreate"@ != "joinConversation"@,
            "participantsLeave"@ != "joinConversation"@,
    {
        reveal_strlit("messageCreate");
        reveal_strlit("participantsLeave");
        reveal_strlit("joinConversation");
        assert("messageCreate"@.len() == 13);
        assert("participantsLeave"@.len() == 17);
        assert("joinConversation"@.len() == 16);
    }
}

impl EventVariants for Message {
    open spec fn variants() -> nat {
        3
    }

    open spec fn variant_name(rank: nat) -> Seq<char> {
        if rank == 0 {
            "messageCreate"@
        } else if rank == 1 {
            "participantsLeave"@
        } else {
            "joinConversation"@
        }
    }

    open spec fn read_as(rank: nat, value: JsonModel) -> Option<MessageModel> {
        match envelope::opened(value, Self::variant_name(rank)) {
            Some(inner) => if rank == 0 {
                match MessageCreate::read(inner) {
                    Some(record) => Some(MessageModel::MessageCreate(record)),
                    None => None,
                }
            } else if rank == 1 {
                match ParticipantsLeave::read(inner) {
                    Some(record) => Some(MessageModel::ParticipantsLeave(record)),
                    None => None,
                }
            } else if rank == 2 {
                match JoinConversation::read(inner) {
                    Some(record) => Some(MessageModel::JoinConversation(record)),
                    None => None,
                }
            } else {
                None
            },
            None => None,
        }
    }

    open spec fn written(event: MessageModel) -> JsonModel {
        match event {
            MessageModel::MessageCreate(record) => envelope::sealed(
                "messageCreate"@,
                MessageCreate::written(record),
            ),
            MessageModel::ParticipantsLeave(record) => envelope::sealed(
                "participantsLeave"@,
                ParticipantsLeave::written(record),
            ),
            MessageModel::JoinConversation(record) => envelope::sealed(
                "joinConversation"@,
                JoinConversation::written(record),
            ),
        }
    }

    open spec fn is_writable(event: MessageModel) -> bool {
        match event {
            MessageModel::MessageCreate(record) => MessageCreate::is_writable(record),
            MessageModel::ParticipantsLeave(record) => ParticipantsLeave::is_writable(record),
            MessageModel::JoinConversation(record) => JoinConversation::is_writable(record),
        }
    }

    open spec fn is_canonical(rank: nat, value: JsonModel) -> bool {
        match envelope::opened(value, Self::variant_name(rank)) {
            Some(inner) => if rank == 0 {
                MessageCreate::is_canonical(inner)
            } else if rank == 1 {
                ParticipantsLeave::is_canonical(inner)
            } else {
                JoinConversation::is_canonical(inner)
            },
            None => false,
        }
    }

    open spec fn rank_of(event: MessageModel) -> nat {
        match event {
            MessageModel::MessageCreate(_) => 0,
            MessageModel::ParticipantsLeave(_) => 1,
            MessageModel::JoinConversation(_) => 2,
        }
    }

    proof fn written_is_read_back(event: MessageModel) {
        Self::lemma_names_differ();
        match event {
            MessageModel::MessageCreate(record) => {
                MessageCreate::written_is_read_back(record);
            },
            MessageModel::ParticipantsLeave(record) => {
                ParticipantsLeave::written_is_read_back(record);
            },
            MessageModel::JoinConversation(record) => {
                JoinConversation::written_is_read_back(record);
            },
        }
    }

    proof fn read_is_written_back(rank: nat, value: JsonModel) {
        let inner = envelope::opened(value, Self::variant_name(rank)).unwrap();
        envelope::open_then_seal(value, Self::variant_name(rank));
        if rank == 0 {
            MessageCreate::read_is_written_back(inner);
        } else if rank == 1 {
            ParticipantsLeave::read_is_written_back(inner);
        } else {
            JoinConversation::read_is_written_back(inner);
        }
    }

    fn variant_count() -> (n: usize) {
        3
    }

    fn variant_label(rank: usize) -> (name: String) {
        if rank == 0 {
            String::from_str("messageCreate")
        } else if rank == 1 {
            String::from_str("participantsLeave")
        } else {
            String::from_str("joinConversation")
        }
    }

    fn try_variant(rank: usize, value: &Json) -> (r: Option<Message>) {
        if rank == 0 {
            match envelope::open(value, "messageCreate") {
                Ok(inner) => match MessageCreate::decode(inner) {
                    Some(record) => Some(Message::MessageCreate(record)),
                    None => None,
                },
                Err(_) => None,
            }
        } else if rank == 1 {
            match envelope::open(value, "participantsLeave") {
                Ok(inner) => match ParticipantsLeave::decode(inner) {
                    Some(record) => Some(Message::ParticipantsLeave(record)),
                    None => None,
                },
                Err(_) => None,
            }
        } else {
            match envelope::open(value, "joinConversation") {
                Ok(inner) => match JoinConversation::decode(inner) {
                    Some(record) => Some(Message::JoinConversation(record)),
                    None => None,
                },
                Err(_) => None,
            }
        }
    }

    fn encode(&self) -> (value: Json) {
        match self {
            Message::MessageCreate(record) => envelope::seal("messageCreate", record.encode()),
            Message::ParticipantsLeave(record) => envelope::seal(
                "participantsLeave",
                record.encode(),
            ),
            Message::JoinConversation(record) => envelope::seal(
                "joinConversation",
                record.encode(),
            ),
        }
    }
}

/// A message was sent: by whom, and when.
#[derive(Clone, Debug, PartialEq, Eq)]
pub struct MessageCreate {
    /// The entry `id`.
    pub id: String,
    /// The entry `senderId`.
    pub sender_id: String,
    /// The entry `createdAt`, in the encoding of
    /// `convert::date_time_iso_8601`.
    pub created_at: Instant,
}

/// What a value of [`MessageCreate`] holds.
pub struct MessageCreateModel {
    pub id: Seq<char>,
    pub sender_id: Seq<char>,
    pub created_at: Civil,
}

impl View for MessageCreate {
    type V = MessageCreateModel;

    open spec fn view(&self) -> MessageCreateModel {
        MessageCreateModel {
            id: self.id@,
            sender_id: self.sender_id@,
            created_at: self.created_at@,
        }
    }
}

impl MessageCreate {
    /// No two of the keys are the same.
    proof fn lemma_keys_differ()
        ensures
            "id"@ != "senderId"@,
            "id"@ != "createdAt"@,
            "senderId"@ != "createdAt"@,
    {
        reveal_strlit("id");
        reveal_strlit("senderId");
        reveal_strlit("createdAt");
        assert("id"@.len() == 2);
        assert("senderId"@.len() == 8);
        assert("createdAt"@.len() == 9);
    }
}

impl Record for MessageCreate {
    open spec fn read(value: JsonModel) -> Option<MessageCreateModel> {
        match value {
            JsonModel::Object(entries) => if entries.len() == 3
                && text_at(entries, "id"@).is_some()
                && text_at(entries, "senderId"@).is_some()
                && instant_at(entries, "createdAt"@).is_some()
            {
                Some(
                    MessageCreateModel {
                        id: text_at(entries, "id"@).unwrap(),
                        sender_id: text_at(entries, "senderId"@).unwrap(),
                        created_at: instant_at(entries, "createdAt"@).unwrap(),
                    },
                )
            } else {
                None
            },
            _ => None,
        }
    }

    open spec fn written(record: MessageCreateModel) -> JsonModel {
        JsonModel::Object(
            seq![
                ("id"@, JsonModel::Text(record.id)),
                ("senderId"@, JsonModel::Text(record.sender_id)),
                ("createdAt"@, JsonModel::Text(date_time_iso_8601::encoded(record.created_at))),
            ],
        )
    }

    open spec fn is_writable(record: MessageCreateModel) -> bool {
        &&& record.created_at.is_valid()
    }

    open spec fn is_canonical(value: JsonModel) -> bool {
        &&& value is Object
        &&& value->Object_0.len() == 3
        &&& value->Object_0[0].0 == "id"@
        &&& value->Object_0[1].0 == "senderId"@
        &&& value->Object_0[2].0 == "createdAt"@
    }

    proof fn written_is_read_back(record: MessageCreateModel) {
        let entries = Self::written(record)->Object_0;
        Self::lemma_keys_differ();
        lemma_lookup_at(entries, 0);
        lemma_lookup_at(entries, 1);
        lemma_lookup_at(entries, 2);
        date_time_iso_8601::instant_round_trip(record.created_at);
    }

    proof fn read_is_written_back(value: JsonModel) {
        let entries = value->Object_0;
        Self::lemma_keys_differ();
        lemma_lookup_at(entries, 0);
        lemma_lookup_at(entries, 1);
        lemma_lookup_at(entries, 2);
        date_time_iso_8601::text_round_trip(entries[2].1->Text_0);
        assert(Self::written(Self::read(value).unwrap())->Object_0 =~= entries);
    }

    fn decode(value: &Json) -> (r: Option<MessageCreate>) {
        let entries = match value.as_object() {
            Some(entries) => entries,
            None => {
                return None;
            },
        };
        if entries.len() != 3 {
            return None;
        }
        let id = match read_text(entries, "id") {
            Some(found) => found,
            None => {
                return None;
            },
        };
        let sender_id = match read_text(entries, "senderId") {
            Some(found) => found,
            None => {
                return None;
            },
        };
        let created_at = match read_instant(entries, "createdAt") {
            Some(found) => found,
            None => {
                return None;
            },
        };
        Some(MessageCreate { id, sender_id, created_at })
    }

    fn encode(&self) -> (r: Json) {
        let mut entries: Vec<(String, Json)> = Vec::new();
        entries.push(text_entry("id", &self.id));
        entries.push(text_entry("senderId", &self.sender_id));
        entries.push(instant_entry("createdAt", &self.created_at));
        proof {
            assert(entry_models(entries@) =~= Self::written(self@)->Object_0);
        }
        Json::object(entries)
    }
}

} // verus!
