//! The records of the file `data/direct-message-headers.js`.

use vstd::prelude::*;
use vstd::string::*;
use crate::convert::date_time_iso_8601;
use crate::envelope;
use crate::instant::{Civil, Instant};
use crate::json::{entry_models, lemma_lookup_at, Json, JsonModel};
use crate::record;
use crate::record::{
    created_at, instant_at, instant_entry, read_instant, read_records, read_text, record_models,
    records_entry, text_at, text_entry, Record,
};

verus! {

/// An envelope: an object of the one entry `dmConversation`, which holds a
/// [`DmConversation`].
#[derive(Clone, Debug, PartialEq, Eq)]
pub struct DmConversationObject {
    /// The entry `dmConversation`.
    pub dm_conversation: DmConversation,
}

/// What a value of [`DmConversationObject`] holds.
pub struct DmConversationObjectModel {
    pub dm_conversation: DmConversationModel,
}

impl View for DmConversationObject {
    type V = DmConversationObjectModel;

    open spec fn view(&self) -> DmConversationObjectModel {
        DmConversationObjectModel {
            dm_conversation: self.dm_conversation@,
        }
    }
}

impl Record for DmConversationObject {
    open spec fn read(value: JsonModel) -> Option<DmConversationObjectModel> {
        match envelope::opened(value, "dmConversation"@) {
            Some(inner) => match DmConversation::read(inner) {
                Some(dm_conversation) => Some(DmConversationObjectModel { dm_conversation }),
                None => None,
            },
            None => None,
        }
    }

    open spec fn written(record: DmConversationObjectModel) -> JsonModel {
        envelope::sealed("dmConversation"@, DmConversation::written(record.dm_conversation))
    }

    open spec fn is_writable(record: DmConversationObjectModel) -> bool {
        DmConversation::is_writable(record.dm_conversation)
    }

    open spec fn is_canonical(value: JsonModel) -> bool {
        match envelope::opened(value, "dmConversation"@) {
            Some(inner) => DmConversation::is_canonical(inner),
            None => false,
        }
    }

    proof fn written_is_read_back(record: DmConversationObjectModel) {
        DmConversation::written_is_read_back(record.dm_conversation);
    }

    proof fn read_is_written_back(value: JsonModel) {
        DmConversation::read_is_written_back(envelope::opened(value, "dmConversation"@).unwrap());
        envelope::open_then_seal(value, "dmConversation"@);
    }

    fn decode(value: &Json) -> (r: Option<DmConversationObject>) {
        match envelope::open(value, "dmConversation") {
            Ok(inner) => match DmConversation::decode(inner) {
                Some(dm_conversation) => Some(DmConversationObject { dm_conversation }),
                None => None,
            },
            Err(_) => None,
        }
    }

    fn encode(&self) -> (r: Json) {
        envelope::seal("dmConversation", self.dm_conversation.encode())
    }
}

/// A conversation between two accounts and its messages, without their
/// content, in the order of the file.
#[derive(Clone, Debug, PartialEq, Eq)]
pub struct DmConversation {
    /// The entry `conversationId`.
    pub conversation_id: String,
    /// The entry `messages`.
    pub messages: Vec<MessageCreateObject>,
}

/// What a value of [`DmConversation`] holds.
pub struct DmConversationModel {
    pub conversation_id: Seq<char>,
    pub messages: Seq<MessageCreateObjectModel>,
}

impl View for DmConversation {
    type V = DmConversationModel;

    open spec fn view(&self) -> DmConversationModel {
        DmConversationModel {
            conversation_id: self.conversation_id@,
            messages: record_models(self.messages@),
        }
    }
}

impl DmConversation {
    /// No two of the keys are the same.
    proof fn lemma_keys_differ()
        ensures
            "conversationId"@ != "messages"@,
    {
        reveal_strlit("conversationId");
        reveal_strlit("messages");
        assert("conversationId"@.len() == 14);
        assert("messages"@.len() == 8);
    }
}

impl Record for DmConversation {
    open spec fn read(value: JsonModel) -> Option<DmConversationModel> {
        match value {
            JsonModel::Object(entries) => if entries.len() == 2
                && text_at(entries, "conversationId"@).is_some()
                && record::records_at::<MessageCreateObject>(entries, "messages"@).is_some()
            {
                Some(
                    DmConversationModel {
                        conversation_id: text_at(entries, "conversationId"@).unwrap(),
                        messages: record::records_at::<MessageCreateObject>(
                            entries,
                            "messages"@,
                        ).unwrap(),
                    },
                )
            } else {
                None
            },
            _ => None,
        }
    }

    open spec fn written(record: DmConversationModel) -> JsonModel {
        JsonModel::Object(
            seq![
                ("conversationId"@, JsonModel::Text(record.conversation_id)),
                ("messages"@, record::records_value::<MessageCreateObject>(record.messages)),
            ],
        )
    }

    open spec fn is_writable(record: DmConversationModel) -> bool {
        &&& record::all_writable::<MessageCreateObject>(record.messages)
    }

    open spec fn is_canonical(value: JsonModel) -> bool {
        &&& value is Object
        &&& value->Object_0.len() == 2
        &&& value->Object_0[0].0 == "conversationId"@
        &&& value->Object_0[1].0 == "messages"@
        &&& record::all_canonical::<MessageCreateObject>(value->Object_0[1].1)
    }

    proof fn written_is_read_back(record: DmConversationModel) {
        let entries = Self::written(record)->Object_0;
        Self::lemma_keys_differ();
        lemma_lookup_at(entries, 0);
        lemma_lookup_at(entries, 1);
        record::lemma_records_value::<MessageCreateObject>(record.messages);
    }

    proof fn read_is_written_back(value: JsonModel) {
        let entries = value->Object_0;
        Self::lemma_keys_differ();
        lemma_lookup_at(entries, 0);
        lemma_lookup_at(entries, 1);
        record::lemma_records_of::<MessageCreateObject>(entries[1].1);
        assert(Self::written(Self::read(value).unwrap())->Object_0 =~= entries);
    }

    fn decode(value: &Json) -> (r: Option<DmConversation>) {
        let entries = match value.as_object() {
            Some(entries) => entries,
            None => {
                return None;
            },
        };
        if entries.len() != 2 {
            return None;
        }
        let conversation_id = match read_text(entries, "conversationId") {
            Some(found) => found,
            None => {
                return None;
            },
        };
        let messages = match read_records::<MessageCreateObject>(entries, "messages") {
            Some(found) => found,
            None => {
                return None;
            },
        };
        Some(DmConversation { conversation_id, messages })
    }

    fn encode(&self) -> (r: Json) {
        let mut entries: Vec<(String, Json)> = Vec::new();
        entries.push(text_entry("conversationId", &self.conversation_id));
        entries.push(records_entry("messages", &self.messages));
        proof {
            assert(entry_models(entries@) =~= Self::written(self@)->Object_0);
        }
        Json::object(entries)
    }
}

/// An envelope: an object of the one entry `messageCreate`, which holds a
/// [`MessageCreate`].
#[derive(Clone, Debug, PartialEq, Eq)]
pub struct MessageCreateObject {
    /// The entry `messageCreate`.
    pub message_create: MessageCreate,
}

/// What a value of [`MessageCreateObject`] holds.
pub struct MessageCreateObjectModel {
    pub message_create: MessageCreateModel,
}

impl View for MessageCreateObject {
    type V = MessageCreateObjectModel;

    open spec fn view(&self) -> MessageCreateObjectModel {
        MessageCreateObjectModel {
            message_create: self.message_create@,
        }
    }
}

impl Record for MessageCreateObject {
    open spec fn read(value: JsonModel) -> Option<MessageCreateObjectModel> {
        match envelope::opened(value, "messageCreate"@) {
            Some(inner) => match MessageCreate::read(inner) {
                Some(message_create) => Some(MessageCreateObjectModel { message_create }),
                None => None,
            },
            None => None,
        }
    }

    open spec fn written(record: MessageCreateObjectModel) -> JsonModel {
        envelope::sealed("messageCreate"@, MessageCreate::written(record.message_create))
    }

    open spec fn is_writable(record: MessageCreateObjectModel) -> bool {
        MessageCreate::is_writable(record.message_create)
    }

    open spec fn is_canonical(value: JsonModel) -> bool {
        match envelope::opened(value, "messageCreate"@) {
            Some(inner) => MessageCreate::is_canonical(inner),
            None => false,
        }
    }

    proof fn written_is_read_back(record: MessageCreateObjectModel) {
        MessageCreate::written_is_read_back(record.message_create);
    }

    proof fn read_is_written_back(value: JsonModel) {
        MessageCreate::read_is_written_back(envelope::opened(value, "messageCreate"@).unwrap());
        envelope::open_then_seal(value, "messageCreate"@);
    }

    fn decode(value: &Json) -> (r: Option<MessageCreateObject>) {
        match envelope::open(value, "messageCreate") {
            Ok(inner) => match MessageCreate::decode(inner) {
                Some(message_create) => Some(MessageCreateObject { message_create }),
                None => None,
            },
            Err(_) => None,
        }
    }

    fn encode(&self) -> (r: Json) {
        envelope::seal("messageCreate", self.message_create.encode())
    }
}

/// A message was sent: by whom, to whom, and when.
#[derive(Clone, Debug, PartialEq, Eq)]
pub struct MessageCreate {
    /// The entry `id`.
    pub id: String,
    /// The entry `senderId`.
    pub sender_id: String,
    /// The entry `recipientId`.
    pub recipient_id: String,
    /// The entry `createdAt`, in the encoding of
    /// `convert::date_time_iso_8601`.
    pub created_at: Instant,
}

/// What a value of [`MessageCreate`] holds.
pub struct MessageCreateModel {
    pub id: Seq<char>,
    pub sender_id: Seq<char>,
    pub recipient_id: Seq<char>,
    pub created_at: Civil,
}

impl View for MessageCreate {
    type V = MessageCreateModel;

    open spec fn view(&self) -> MessageCreateModel {
        MessageCreateModel {
            id: self.id@,
            sender_id: self.sender_id@,
            recipient_id: self.recipient_id@,
            created_at: self.created_at@,
        }
    }
}

impl MessageCreate {
    /// No two of the keys are the same.
    proof fn lemma_keys_differ()
        ensures
            "id"@ != "senderId"@,
            "id"@ != "recipientId"@,
            "id"@ != "createdAt"@,
            "senderId"@ != "recipientId"@,
            "senderId"@ != "createdAt"@,
            "recipientId"@ != "createdAt"@,
    {
        reveal_strlit("id");
        reveal_strlit("senderId");
        reveal_strlit("recipientId");
        reveal_strlit("createdAt");
        assert("id"@.len() == 2);
        assert("senderId"@.len() == 8);
        assert("recipientId"@.len() == 11);
        assert("createdAt"@.len() == 9);
    }
}

impl Record for MessageCreate {
    open spec fn read(value: JsonModel) -> Option<MessageCreateModel> {
        match value {
            JsonModel::Object(entries) => if entries.len() == 4
                && text_at(entries, "id"@).is_some()
                && text_at(entries, "senderId"@).is_some()
                && text_at(entries, "recipientId"@).is_some()
                && instant_at(entries, "createdAt"@).is_some()
            {
                Some(
                    MessageCreateModel {
                        id: text_at(entries, "id"@).unwrap(),
                        sender_id: text_at(entries, "senderId"@).unwrap(),
                        recipient_id: text_at(entries, "recipientId"@).unwrap(),
                        created_at: instant_at(entries, "createdAt"@).unwrap(),
                    },
                )
            } else {
                None
            },
            _ => None,
        }
    }

    open spec fn written(record: MessageCreateModel) -> JsonModel {
        JsonModel::Object(
            seq![
                ("id"@, JsonModel::Text(record.id)),
                ("senderId"@, JsonModel::Text(record.sender_id)),
                ("recipientId"@, JsonModel::Text(record.recipient_id)),
                ("createdAt"@, JsonModel::Text(date_time_iso_8601::encoded(record.created_at))),
            ],
        )
    }

    open spec fn is_writable(record: MessageCreateModel) -> bool {
        &&& record.created_at.is_valid()
    }

    open spec fn is_canonical(value: JsonModel) -> bool {
        &&& value is Object
        &&& value->Object_0.len() == 4
        &&& value->Object_0[0].0 == "id"@
        &&& value->Object_0[1].0 == "senderId"@
        &&& value->Object_0[2].0 == "recipientId"@
        &&& value->Object_0[3].0 == "createdAt"@
    }

    proof fn written_is_read_back(record: MessageCreateModel) {
        let entries = Self::written(record)->Object_0;
        Self::lemma_keys_differ();
        lemma_lookup_at(entries, 0);
        lemma_lookup_at(entries, 1);
        lemma_lookup_at(entries, 2);
        lemma_lookup_at(entries, 3);
        date_time_iso_8601::instant_round_trip(record.created_at);
    }

    proof fn read_is_written_back(value: JsonModel) {
        let entries = value->Object_0;
        Self::lemma_keys_differ();
        lemma_lookup_at(entries, 0);
        lemma_lookup_at(entries, 1);
        lemma_lookup_at(entries, 2);
        lemma_lookup_at(entries, 3);
        date_time_iso_8601::text_round_trip(entries[3].1->Text_0);
        assert(Self::written(Self::read(value).unwrap())->Object_0 =~= entries);
    }

    fn decode(value: &Json) -> (r: Option<MessageCreate>) {
        let entries = match value.as_object() {
            Some(entries) => entries,
            None => {
                return None;
            },
        };
        if entries.len() != 4 {
            return None;
        }
        let id = match read_text(entries, "id") {
            Some(found) => found,
            None => {
                return None;
            },
        };
        let sender_id = match read_text(entries, "senderId") {
            Some(found) => found,
            None => {
                return None;
            },
        };
        let recipient_id = match read_text(entries, "recipientId") {
            Some(found) => found,
            None => {
                return None;
            },
        };
        let created_at = match read_instant(entries, "createdAt") {
            Some(found) => found,
            None => {
                return None;
            },
        };
        Some(MessageCreate { id, sender_id, recipient_id, created_at })
    }

    fn encode(&self) -> (r: Json) {
        let mut entries: Vec<(String, Json)> = Vec::new();
        entries.push(text_entry("id", &self.id));
        entries.push(text_entry("senderId", &self.sender_id));
        entries.push(text_entry("recipientId", &self.recipient_id));
        entries.push(instant_entry("createdAt", &self.created_at));
        proof {
            assert(entry_models(entries@) =~= Self::written(self@)->Object_0);
        }
        Json::object(entries)
    }
}

} // verus!
