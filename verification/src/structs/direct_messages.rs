//! The records of the file `data/direct-messages.js`.

use vstd::prelude::*;
use vstd::string::*;
use crate::convert::date_time_iso_8601;
use crate::envelope;
use crate::instant::{Civil, Instant};
use crate::json::{entry_models, lemma_lookup_at, Json, JsonModel};
use crate::record;
use crate::record::{
    created_at, instant_at, instant_entry, lemma_texts_of, lemma_texts_value, read_instant,
    read_records, read_text, read_texts, record_models, records_entry, text_at, text_entry,
    texts_at, texts_entry, texts_value, Record,
};
use crate::structs::direct_message::{
    MessageCreateReaction, MessageCreateReactionModel, MessageCreateUrl, MessageCreateUrlModel,
};
use crate::text::texts;

verus! {

/// An envelope: an object of the one entry `dmConversation`, which holds a
/// [`DMConversation`].
#[derive(Clone, Debug, PartialEq, Eq)]
pub struct DmConversationObject {
    /// The entry `dmConversation`.
    pub dm_conversation: DMConversation,
}

/// What a value of [`DmConversationObject`] holds.
pub struct DmConversationObjectModel {
    pub dm_conversation: DMConversationModel,
}

impl View for DmConversationObject {
    type V = DmConversationObjectModel;

    open spec fn view(&self) -> DmConversationObjectModel {
        DmConversationObjectModel {
            dm_conversation: self.dm_conversation@,
        }
    }
}

impl Record for DmConversationObject {
    open spec fn read(value: JsonModel) -> Option<DmConversationObjectModel> {
        match envelope::opened(value, "dmConversation"@) {
            Some(inner) => match DMConversation::read(inner) {
                Some(dm_conversation) => Some(DmConversationObjectModel { dm_conversation }),
                None => None,
            },
            None => None,
        }
    }

    open spec fn written(record: DmConversationObjectModel) -> JsonModel {
        envelope::sealed("dmConversation"@, DMConversation::written(record.dm_conversation))
    }

    open spec fn is_writable(record: DmConversationObjectModel) -> bool {
        DMConversation::is_writable(record.dm_conversation)
    }

    open spec fn is_canonical(value: JsonModel) -> bool {
        match envelope::opened(value, "dmConversation"@) {
            Some(inner) => DMConversation::is_canonical(inner),
            None => false,
        }
    }

    proof fn written_is_read_back(record: DmConversationObjectModel) {
        DMConversation::written_is_read_back(record.dm_conversation);
    }

    proof fn read_is_written_back(value: JsonModel) {
        DMConversation::read_is_written_back(envelope::opened(value, "dmConversation"@).unwrap());
        envelope::open_then_seal(value, "dmConversation"@);
    }

    fn decode(value: &Json) -> (r: Option<DmConversationObject>) {
        match envelope::open(value, "dmConversation") {
            Ok(inner) => match DMConversation::decode(inner) {
                Some(dm_conversation) => Some(DmConversationObject { dm_conversation }),
                None => None,
            },
            Err(_) => None,
        }
    }

    fn encode(&self) -> (r: Json) {
        envelope::seal("dmConversation", self.dm_conversation.encode())
    }
}

/// A conversation between two accounts and its messages, in the order of the
/// file.
#[derive(Clone, Debug, PartialEq, Eq)]
pub struct DMConversation {
    /// The entry `conversationId`.
    pub conversation_id: String,
    /// The entry `messages`.
    pub messages: Vec<MessageCreateObject>,
}

/// What a value of [`DMConversation`] holds.
pub struct DMConversationModel {
    pub conversation_id: Seq<char>,
    pub messages: Seq<MessageCreateObjectModel>,
}

impl View for DMConversation {
    type V = DMConversationModel;

    open spec fn view(&self) -> DMConversationModel {
        DMConversationModel {
            conversation_id: self.conversation_id@,
            messages: record_models(self.messages@),
        }
    }
}

impl DMConversation {
    /// No two of the keys are the same.
    proof fn lemma_keys_differ()
        ensures
            "conversationId"@ != "messages"@,
    {
        reveal_strlit("conversationId");
        reveal_strlit("messages");
        assert("conversationId"@.len() == 14);
        assert("messages"@.len() == 8);
    }
}

impl Record for DMConversation {
    open spec fn read(value: JsonModel) -> Option<DMConversationModel> {
        match value {
            JsonModel::Object(entries) => if entries.len() == 2
                && text_at(entries, "conversationId"@).is_some()
                && record::records_at::<MessageCreateObject>(entries, "messages"@).is_some()
            {
                Some(
                    DMConversationModel {
                        conversation_id: text_at(entries, "conversationId"@).unwrap(),
                        messages: record::records_at::<MessageCreateObject>(
                            entries,
                            "messages"@,
                        ).unwrap(),
                    },
                )
            } else {
                None
            },
            _ => None,
        }
    }

    open spec fn written(record: DMConversationModel) -> JsonModel {
        JsonModel::Object(
            seq![
                ("conversationId"@, JsonModel::Text(record.conversation_id)),
                ("messages"@, record::records_value::<MessageCreateObject>(record.messages)),
            ],
        )
    }

    open spec fn is_writable(record: DMConversationModel) -> bool {
        &&& record::all_writable::<MessageCreateObject>(record.messages)
    }

    open spec fn is_canonical(value: JsonModel) -> bool {
        &&& value is Object
        &&& value->Object_0.len() == 2
        &&& value->Object_0[0].0 == "conversationId"@
        &&& value->Object_0[1].0 == "messages"@
        &&& record::all_canonical::<MessageCreateObject>(value->Object_0[1].1)
    }

    proof fn written_is_read_back(record: DMConversationModel) {
        let entries = Self::written(record)->Object_0;
        Self::lemma_keys_differ();
        lemma_lookup_at(entries, 0);
        lemma_lookup_at(entries, 1);
        record::lemma_records_value::<MessageCreateObject>(record.messages);
    }

    proof fn read_is_written_back(value: JsonModel) {
        let entries = value->Object_0;
        Self::lemma_keys_differ();
        lemma_lookup_at(entries, 0);
        lemma_lookup_at(entries, 1);
        record::lemma_records_of::<MessageCreateObject>(entries[1].1);
        assert(Self::written(Self::read(value).unwrap())->Object_0 =~= entries);
    }

    fn decode(value: &Json) -> (r: Option<DMConversation>) {
        let entries = match value.as_object() {
            Some(entries) => entries,
            None => {
                return None;
            },
        };
        if entries.len() != 2 {
            return None;
        }
        let conversation_id = match read_text(entries, "conversationId") {
            Some(found) => found,
            None => {
                return None;
            },
        };
        let messages = match read_records::<MessageCreateObject>(entries, "messages") {
            Some(found) => found,
            None => {
                return None;
            },
        };
        Some(DMConversation { conversation_id, messages })
    }

    fn encode(&self) -> (r: Json) {
        let mut entries: Vec<(String, Json)> = Vec::new();
        entries.push(text_entry("conversationId", &self.conversation_id));
        entries.push(records_entry("messages", &self.messages));
        proof {
            assert(entry_models(entries@) =~= Self::written(self@)->Object_0);
        }
        Json::object(entries)
    }
}

/// An envelope: an object of the one entry `messageCreate`, which holds a
/// [`MessageCreate`].
#[derive(Clone, Debug, PartialEq, Eq)]
pub struct MessageCreateObject {
    /// The entry `messageCreate`.
    pub message_create: MessageCreate,
}

/// What a value of [`MessageCreateObject`] holds.
pub struct MessageCreateObjectModel {
    pub message_create: MessageCreateModel,
}

impl View for MessageCreateObject {
    type V = MessageCreateObjectModel;

    open spec fn view(&self) -> MessageCreateObjectModel {
        MessageCreateObjectModel {
            message_create: self.message_create@,
        }
    }
}

impl Record for MessageCreateObject {
    open spec fn read(value: JsonModel) -> Option<MessageCreateObjectModel> {
        match envelope::opened(value, "messageCreate"@) {
            Some(inner) => match MessageCreate::read(inner) {
                Some(message_create) => Some(MessageCreateObjectModel { message_create }),
                None => None,
            },
            None => None,
        }
    }

    open spec fn written(record: MessageCreateObjectModel) -> JsonModel {
        envelope::sealed("messageCreate"@, MessageCreate::written(record.message_create))
    }

    open spec fn is_writable(record: MessageCreateObjectModel) -> bool {
        MessageCreate::is_writable(record.message_create)
    }

    open spec fn is_canonical(value: JsonModel) -> bool {
        match envelope::opened(value, "messageCreate"@) {
            Some(inner) => MessageCreate::is_canonical(inner),
            None => false,
        }
    }

    proof fn written_is_read_back(record: MessageCreateObjectModel) {
        MessageCreate::written_is_read_back(record.message_create);
    }

    proof fn read_is_written_back(value: JsonModel) {
        MessageCreate::read_is_written_back(envelope::opened(value, "messageCreate"@).unwrap());
        envelope::open_then_seal(value, "messageCreate"@);
    }

    fn decode(value: &Json) -> (r: Option<MessageCreateObject>) {
        match envelope::open(value, "messageCreate") {
            Ok(inner) => match MessageCreate::decode(inner) {
                Some(message_create) => Some(MessageCreateObject { message_create }),
                None => None,
            },
            Err(_) => None,
        }
    }

    fn encode(&self) -> (r: Json) {
        envelope::seal("messageCreate", self.message_create.encode())
    }
}

/// A message with its content, and what was done with it.
#[derive(Clone, Debug, PartialEq, Eq)]
pub struct MessageCreate {
    /// The entry `recipientId`.
    pub recipient_id: String,
    /// The entry `reactions`.
    pub reactions: Vec<MessageCreateReaction>,
    /// The entry `urls`.
    pub urls: Vec<MessageCreateUrl>,
    /// The entry `text`.
    pub text: String,
    /// The entry `mediaUrls`.
    pub media_urls: Vec<String>,
    /// The entry `senderId`.
    pub sender_id: String,
    /// The entry `id`.
    pub id: String,
    /// The entry `createdAt`, in the encoding of
    /// `convert::date_time_iso_8601`.
    pub created_at: Instant,
}

/// What a value of [`MessageCreate`] holds.
pub struct MessageCreateModel {
    pub recipient_id: Seq<char>,
    pub reactions: Seq<MessageCreateReactionModel>,
    pub urls: Seq<MessageCreateUrlModel>,
    pub text: Seq<char>,
    pub media_urls: Seq<Seq<char>>,
    pub sender_id: Seq<char>,
    pub id: Seq<char>,
    pub created_at: Civil,
}

impl View for MessageCreate {
    type V = MessageCreateModel;

    open spec fn view(&self) -> MessageCreateModel {
        MessageCreateModel {
            recipient_id: self.recipient_id@,
            reactions: record_models(self.reactions@),
            urls: record_models(self.urls@),
            text: self.text@,
            media_urls: texts(self.media_urls@),
            sender_id: self.sender_id@,
            id: self.id@,
            created_at: self.created_at@,
        }
    }
}

impl MessageCreate {
    /// No two of the keys are the same.
    proof fn lemma_keys_differ()
        ensures
            "recipientId"@ != "reactions"@,
            "recipientId"@ != "urls"@,
            "recipientId"@ != "text"@,
            "recipientId"@ != "mediaUrls"@,
            "recipientId"@ != "senderId"@,
            "recipientId"@ != "id"@,
            "recipientId"@ != "createdAt"@,
            "reactions"@ != "urls"@,
            "reactions"@ != "text"@,
            "reactions"@ != "mediaUrls"@,
            "reactions"@ != "senderId"@,
            "reactions"@ != "id"@,
            "reactions"@ != "createdAt"@,
            "urls"@ != "text"@,
            "urls"@ != "mediaUrls"@,
            "urls"@ != "senderId"@,
            "urls"@ != "id"@,
            "urls"@ != "createdAt"@,
            "text"@ != "mediaUrls"@,
            "text"@ != "senderId"@,
            "text"@ != "id"@,
            "text"@ != "createdAt"@,
            "mediaUrls"@ != "senderId"@,
            "mediaUrls"@ != "id"@,
            "mediaUrls"@ != "createdAt"@,
            "senderId"@ != "id"@,
            "senderId"@ != "createdAt"@,
            "id"@ != "createdAt"@,
    {
        reveal_strlit("recipientId");
        reveal_strlit("reactions");
        reveal_strlit("urls");
        reveal_strlit("text");
        reveal_strlit("mediaUrls");
        reveal_strlit("senderId");
        reveal_strlit("id");
        reveal_strlit("createdAt");
        assert("recipientId"@.len() == 11);
        assert("reactions"@.len() == 9);
        assert("urls"@.len() == 4);
        assert("text"@.len() == 4);
        assert("mediaUrls"@.len() == 9);
        assert("senderId"@.len() == 8);
        assert("id"@.len() == 2);
        assert("createdAt"@.len() == 9);
        assert("reactions"@[0] != "mediaUrls"@[0]);
        assert("reactions"@[0] != "createdAt"@[0]);
        assert("urls"@[0] != "text"@[0]);
        assert("mediaUrls"@[0] != "createdAt"@[0]);
    }
}

impl Record for MessageCreate {
    open spec fn read(value: JsonModel) -> Option<MessageCreateModel> {
        match value {
            JsonModel::Object(entries) => if entries.len() == 8
                && text_at(entries, "recipientId"@).is_some()
                && record::records_at::<MessageCreateReaction>(entries, "reactions"@).is_some()
                && record::records_at::<MessageCreateUrl>(entries, "urls"@).is_some()
                && text_at(entries, "text"@).is_some()
                && texts_at(entries, "mediaUrls"@).is_some()
                && text_at(entries, "senderId"@).is_some()
                && text_at(entries, "id"@).is_some()
                && instant_at(entries, "createdAt"@).is_some()
            {
                Some(
                    MessageCreateModel {
                        recipient_id: text_at(entries, "recipientId"@).unwrap(),
                        reactions: record::records_at::<MessageCreateReaction>(
                            entries,
                            "reactions"@,
                        ).unwrap(),
                        urls: record::records_at::<MessageCreateUrl>(entries, "urls"@).unwrap(),
                        text: text_at(entries, "text"@).unwrap(),
                        media_urls: texts_at(entries, "mediaUrls"@).unwrap(),
                        sender_id: text_at(entries, "senderId"@).unwrap(),
                        id: text_at(entries, "id"@).unwrap(),
                        created_at: instant_at(entries, "createdAt"@).unwrap(),
                    },
                )
            } else {
                None
            },
            _ => None,
        }
    }

    open spec fn written(record: MessageCreateModel) -> JsonModel {
        JsonModel::Object(
            seq![
                ("recipientId"@, JsonModel::Text(record.recipient_id)),
                ("reactions"@, record::records_value::<MessageCreateReaction>(record.reactions)),
                ("urls"@, record::records_value::<MessageCreateUrl>(record.urls)),
                ("text"@, JsonModel::Text(record.text)),
                ("mediaUrls"@, texts_value(record.media_urls)),
                ("senderId"@, JsonModel::Text(record.sender_id)),
                ("id"@, JsonModel::Text(record.id)),
                ("createdAt"@, JsonModel::Text(date_time_iso_8601::encoded(record.created_at))),
            ],
        )
    }

    open spec fn is_writable(record: MessageCreateModel) -> bool {
        &&& record::all_writable::<MessageCreateReaction>(record.reactions)
        &&& record::all_writable::<MessageCreateUrl>(record.urls)
        &&& record.created_at.is_valid()
    }

    open spec fn is_canonical(value: JsonModel) -> bool {
        &&& value is Object
        &&& value->Object_0.len() == 8
        &&& value->Object_0[0].0 == "recipientId"@
        &&& value->Object_0[1].0 == "reactions"@
        &&& value->Object_0[2].0 == "urls"@
        &&& value->Object_0[3].0 == "text"@
        &&& value->Object_0[4].0 == "mediaUrls"@
        &&& value->Object_0[5].0 == "senderId"@
        &&& value->Object_0[6].0 == "id"@
        &&& value->Object_0[7].0 == "createdAt"@
        &&& record::all_canonical::<MessageCreateReaction>(value->Object_0[1].1)
        &&& record::all_canonical::<MessageCreateUrl>(value->Object_0[2].1)
    }

    proof fn written_is_read_back(record: MessageCreateModel) {
        let entries = Self::written(record)->Object_0;
        Self::lemma_keys_differ();
        lemma_lookup_at(entries, 0);
        lemma_lookup_at(entries, 1);
        lemma_lookup_at(entries, 2);
        lemma_lookup_at(entries, 3);
        lemma_lookup_at(entries, 4);
        lemma_lookup_at(entries, 5);
        lemma_lookup_at(entries, 6);
        lemma_lookup_at(entries, 7);
        record::lemma_records_value::<MessageCreateReaction>(record.reactions);
        record::lemma_records_value::<MessageCreateUrl>(record.urls);
        lemma_texts_value(record.media_urls);
        date_time_iso_8601::instant_round_trip(record.created_at);
    }

    proof fn read_is_written_back(value: JsonModel) {
        let entries = value->Object_0;
        Self::lemma_keys_differ();
        lemma_lookup_at(entries, 0);
        lemma_lookup_at(entries, 1);
        lemma_lookup_at(entries, 2);
        lemma_lookup_at(entries, 3);
        lemma_lookup_at(entries, 4);
        lemma_lookup_at(entries, 5);
        lemma_lookup_at(entries, 6);
        lemma_lookup_at(entries, 7);
        record::lemma_records_of::<MessageCreateReaction>(entries[1].1);
        record::lemma_records_of::<MessageCreateUrl>(entries[2].1);
        lemma_texts_of(entries[4].1);
        date_time_iso_8601::text_round_trip(entries[7].1->Text_0);
        assert(Self::written(Self::read(value).unwrap())->Object_0 =~= entries);
    }

    fn decode(value: &Json) -> (r: Option<MessageCreate>) {
        let entries = match value.as_object() {
            Some(entries) => entries,
            None => {
                return None;
            },
        };
        if entries.len() != 8 {
            return None;
        }
        let recipient_id = match read_text(entries, "recipientId") {
            Some(found) => found,
            None => {
                return None;
            },
        };
        let reactions = match read_records::<MessageCreateReaction>(entries, "reactions") {
            Some(found) => found,
            None => {
                return None;
            },
        };
        let urls = match read_records::<MessageCreateUrl>(entries, "urls") {
            Some(found) => found,
            None => {
                return None;
            },
        };
        let text = match read_text(entries, "text") {
            Some(found) => found,
            None => {
                return None;
            },
        };
        let media_urls = match read_texts(entries, "mediaUrls") {
            Some(found) => found,
            None => {
                return None;
            },
        };
        let sender_id = match read_text(entries, "senderId") {
            Some(found) => found,
            None => {
                return None;
            },
        };
        let id = match read_text(entries, "id") {
            Some(found) => found,
            None => {
                return None;
            },
        };
        let created_at = match read_instant(entries, "createdAt") {
            Some(found) => found,
            None => {
                return None;
            },
        };
        Some(
            MessageCreate {
                recipient_id,
                reactions,
                urls,
                text,
                media_urls,
                sender_id,
                id,
                created_at,
            },
        )
    }

    fn encode(&self) -> (r: Json) {
        let mut entries: Vec<(String, Json)> = Vec::new();
        entries.push(text_entry("recipientId", &self.recipient_id));
        entries.push(records_entry("reactions", &self.reactions));
        entries.push(records_entry("urls", &self.urls));
        entries.push(text_entry("text", &self.text));
        entries.push(texts_entry("mediaUrls", &self.media_urls));
        entries.push(text_entry("senderId", &self.sender_id));
        entries.push(text_entry("id", &self.id));
        entries.push(instant_entry("createdAt", &self.created_at));
        proof {
            assert(entry_models(entries@) =~= Self::written(self@)->Object_0);
        }
        Json::object(entries)
    }
}

} // verus!
