use twitter_archive::envelope;
use twitter_archive::error::FormatError;
use twitter_archive::events::{decode_event, decode_events, encode_events, variant_labels, EventVariants};
use twitter_archive::instant::Instant;
use twitter_archive::json::Json;
use twitter_archive::record::{decode_record, Record};
use twitter_archive::structs::direct_message::{JoinConversation, ParticipantsLeave};
use twitter_archive::structs::direct_message_group_headers::{
    DmConversation, DmConversationObject, Message, MessageCreate,
};

fn text(value: &str) -> Json {
    Json::Text(value.to_string())
}

fn number(value: &str) -> Json {
    Json::Number(value.to_string())
}

fn object(entries: Vec<(&str, Json)>) -> Json {
    Json::Object(entries.into_iter().map(|(key, value)| (key.to_string(), value)).collect())
}

fn texts(values: &[&str]) -> Json {
    Json::Array(values.iter().map(|value| text(value)).collect())
}

fn strings(values: &[&str]) -> Vec<String> {
    values.iter().map(|s| s.to_string()).collect()
}

fn message_create_value() -> Json {
    object(vec![(
        "messageCreate",
        object(vec![
            ("id", text("1111")),
            ("senderId", text("2222")),
            ("createdAt", text("2023-08-12T17:10:37.000Z")),
        ]),
    )])
}

fn participants_leave_value() -> Json {
    object(vec![(
        "participantsLeave",
        object(vec![("userIds", texts(&["3333", "4444"])), ("createdAt", text("2023-08-13T01:02:03.456Z"))]),
    )])
}

fn join_conversation_value() -> Json {
    object(vec![(
        "joinConversation",
        object(vec![
            ("initiatingUserId", text("5555")),
            ("participantsSnapshot", texts(&["6666"])),
            ("createdAt", text("2023-08-14T00:00:00.000Z")),
        ]),
    )])
}

fn message_create() -> Message {
    Message::MessageCreate(MessageCreate {
        id: "1111".to_string(),
        sender_id: "2222".to_string(),
        created_at: Instant::new(2023, 8, 12, 17, 10, 37, 0).unwrap(),
    })
}

fn participants_leave() -> Message {
    Message::ParticipantsLeave(ParticipantsLeave {
        user_ids: strings(&["3333", "4444"]),
        created_at: Instant::new(2023, 8, 13, 1, 2, 3, 456).unwrap(),
    })
}

fn join_conversation() -> Message {
    Message::JoinConversation(JoinConversation {
        initiating_user_id: "5555".to_string(),
        participants_snapshot: strings(&["6666"]),
        created_at: Instant::new(2023, 8, 14, 0, 0, 0, 0).unwrap(),
    })
}

fn all_names() -> Vec<String> {
    strings(&["messageCreate", "participantsLeave", "joinConversation"])
}

#[test]
fn envelope_takes_out_what_stands_under_the_key() {
    let value = object(vec![("a", number("1"))]);
    assert_eq!(envelope::open(&value, "a"), Ok(&number("1")));
}

#[test]
fn envelope_refuses_an_extra_key() {
    let value = object(vec![("a", number("1")), ("b", number("2"))]);
    assert_eq!(
        envelope::open(&value, "a"),
        Err(FormatError::LengthMismatch { name: "a".to_string(), wanted: 1, found: 2 })
    );
}

#[test]
fn envelope_refuses_an_object_without_entries() {
    assert_eq!(
        envelope::open(&object(vec![]), "a"),
        Err(FormatError::LengthMismatch { name: "a".to_string(), wanted: 1, found: 0 })
    );
}

#[test]
fn envelope_refuses_another_key() {
    let value = object(vec![("b", number("1"))]);
    assert_eq!(envelope::open(&value, "a"), Err(FormatError::ShapeMismatch { expected: "a".to_string() }));
    let value = object(vec![("A", number("1"))]);
    assert_eq!(envelope::open(&value, "a"), Err(FormatError::ShapeMismatch { expected: "a".to_string() }));
}

#[test]
fn envelope_refuses_what_is_no_object() {
    for value in [Json::Null, Json::Bool(true), number("1"), text("a"), Json::Array(vec![object(vec![("a", Json::Null)])])] {
        assert_eq!(envelope::open(&value, "a"), Err(FormatError::ShapeMismatch { expected: "a".to_string() }));
    }
}

#[test]
fn envelope_seals_and_opens() {
    let sealed = envelope::seal("blocking", text("inner"));
    assert_eq!(sealed, object(vec![("blocking", text("inner"))]));
    assert_eq!(envelope::open(&sealed, "blocking"), Ok(&text("inner")));
}

#[test]
fn events_are_read_in_the_order_of_the_list() {
    let items = vec![join_conversation_value(), message_create_value(), participants_leave_value(), message_create_value()];
    let events: Vec<Message> = decode_events(&items).unwrap();
    assert_eq!(events, vec![join_conversation(), message_create(), participants_leave(), message_create()]);
}

#[test]
fn events_are_written_as_they_were_read() {
    let items = vec![message_create_value(), participants_leave_value(), join_conversation_value()];
    let events: Vec<Message> = decode_events(&items).unwrap();
    assert_eq!(encode_events(&events), items);
}

#[test]
fn events_are_read_back_as_they_were_written() {
    let events = vec![participants_leave(), join_conversation(), message_create()];
    assert_eq!(decode_events::<Message>(&encode_events(&events)), Ok(events));
}

#[test]
fn an_empty_list_has_no_events() {
    assert_eq!(decode_events::<Message>(&vec![]), Ok(vec![]));
    assert_eq!(encode_events::<Message>(&vec![]), vec![]);
}

#[test]
fn one_element_of_no_variant_fails_the_whole_list() {
    let unknown = object(vec![("somethingElse", object(vec![]))]);
    let items = vec![message_create_value(), unknown, join_conversation_value()];
    assert_eq!(
        decode_events::<Message>(&items),
        Err(FormatError::NoVariantMatched { index: 1, attempted: all_names() })
    );
}

#[test]
fn the_first_element_of_no_variant_is_the_one_that_is_named() {
    let items = vec![message_create_value(), Json::Null, text("x"), join_conversation_value()];
    assert_eq!(
        decode_events::<Message>(&items),
        Err(FormatError::NoVariantMatched { index: 1, attempted: all_names() })
    );
    let items = vec![number("0")];
    assert_eq!(
        decode_events::<Message>(&items),
        Err(FormatError::NoVariantMatched { index: 0, attempted: all_names() })
    );
}

#[test]
fn a_variant_takes_its_own_fields_and_no_others() {
    let missing = object(vec![("messageCreate", object(vec![("id", text("1111")), ("senderId", text("2222"))]))]);
    assert_eq!(decode_event::<Message>(&missing), None);
    let extra = object(vec![(
        "messageCreate",
        object(vec![
            ("id", text("1111")),
            ("senderId", text("2222")),
            ("createdAt", text("2023-08-12T17:10:37.000Z")),
            ("text", text("hello")),
        ]),
    )]);
    assert_eq!(decode_event::<Message>(&extra), None);
    let twice = object(vec![(
        "messageCreate",
        object(vec![("id", text("1111")), ("id", text("2222")), ("createdAt", text("2023-08-12T17:10:37.000Z"))]),
    )]);
    assert_eq!(decode_event::<Message>(&twice), None);
    let wrong_kind = object(vec![(
        "messageCreate",
        object(vec![("id", number("1111")), ("senderId", text("2222")), ("createdAt", text("2023-08-12T17:10:37.000Z"))]),
    )]);
    assert_eq!(decode_event::<Message>(&wrong_kind), None);
    let wrong_date = object(vec![(
        "messageCreate",
        object(vec![("id", text("1111")), ("senderId", text("2222")), ("createdAt", text("2023-08-12 17:10:37"))]),
    )]);
    assert_eq!(decode_event::<Message>(&wrong_date), None);
    let fields_of_another = object(vec![(
        "participantsLeave",
        object(vec![
            ("id", text("1111")),
            ("senderId", text("2222")),
            ("createdAt", text("2023-08-12T17:10:37.000Z")),
        ]),
    )]);
    assert_eq!(decode_event::<Message>(&fields_of_another), None);
}

#[test]
fn a_variant_finds_its_fields_in_any_order_and_writes_them_in_its_own() {
    let shuffled = object(vec![(
        "messageCreate",
        object(vec![
            ("createdAt", text("2023-08-12T17:10:37.000Z")),
            ("id", text("1111")),
            ("senderId", text("2222")),
        ]),
    )]);
    let event = decode_event::<Message>(&shuffled).unwrap();
    assert_eq!(event, message_create());
    assert_eq!(event.encode(), message_create_value());
}

#[test]
fn the_variants_are_tried_in_their_order() {
    assert_eq!(variant_labels::<Message>(), all_names());
    assert_eq!(Message::variant_count(), 3);
    assert_eq!(Message::try_variant(0, &message_create_value()), Some(message_create()));
    assert_eq!(Message::try_variant(1, &message_create_value()), None);
    assert_eq!(Message::try_variant(2, &message_create_value()), None);
    assert_eq!(Message::try_variant(1, &participants_leave_value()), Some(participants_leave()));
    assert_eq!(Message::try_variant(2, &join_conversation_value()), Some(join_conversation()));
}

#[test]
fn a_conversation_is_read_out_of_its_envelope() {
    let value = object(vec![(
        "dmConversation",
        object(vec![
            ("conversationId", text("7777")),
            ("messages", Json::Array(vec![message_create_value(), participants_leave_value()])),
        ]),
    )]);
    let read = DmConversationObject::decode(&value).unwrap();
    assert_eq!(
        read,
        DmConversationObject {
            dm_conversation: DmConversation {
                conversation_id: "7777".to_string(),
                messages: vec![message_create(), participants_leave()],
            },
        }
    );
    assert_eq!(read.encode(), value);
    assert_eq!(decode_record::<DmConversationObject>(&value, "dmConversation"), Ok(read));
}

#[test]
fn a_conversation_with_an_unknown_event_is_no_conversation() {
    let messages = vec![message_create_value(), text("?"), participants_leave_value()];
    assert_eq!(
        decode_events::<Message>(&messages),
        Err(FormatError::NoVariantMatched { index: 1, attempted: all_names() })
    );
    let value = object(vec![(
        "dmConversation",
        object(vec![("conversationId", text("7777")), ("messages", Json::Array(messages))]),
    )]);
    assert_eq!(DmConversationObject::decode(&value), None);
    assert_eq!(
        decode_record::<DmConversationObject>(&value, "dmConversation"),
        Err(FormatError::ShapeMismatch { expected: "dmConversation".to_string() })
    );
}

#[test]
fn a_conversation_without_its_shape_is_refused() {
    let no_messages = object(vec![("conversationId", text("7777")), ("other", Json::Array(vec![]))]);
    assert_eq!(DmConversation::decode(&no_messages), None);
    let not_an_array = object(vec![("conversationId", text("7777")), ("messages", text("none"))]);
    assert_eq!(DmConversation::decode(&not_an_array), None);
    assert_eq!(DmConversation::decode(&Json::Null), None);
    let two_keys = object(vec![
        ("dmConversation", object(vec![("conversationId", text("7777")), ("messages", Json::Array(vec![]))])),
        ("extra", Json::Null),
    ]);
    assert_eq!(DmConversationObject::decode(&two_keys), None);
    let one_key = object(vec![(
        "dmConversation",
        object(vec![("conversationId", text("7777")), ("messages", Json::Array(vec![]))]),
    )]);
    assert_eq!(
        DmConversationObject::decode(&one_key),
        Some(DmConversationObject {
            dm_conversation: DmConversation { conversation_id: "7777".to_string(), messages: vec![] },
        })
    );
}
