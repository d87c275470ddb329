use twitter_archive::events::{decode_events, encode_events};
use twitter_archive::instant::Instant;
use twitter_archive::json::{find, Json};
use twitter_archive::record::{
    decode_record, read_flag, read_indices, read_instant, read_number, read_text, read_texts, Record,
};
use twitter_archive::error::FormatError;
use twitter_archive::structs::block::{Blocking, BlockingObject};
use twitter_archive::structs::deleted_tweet_headers;
use twitter_archive::structs::direct_message::{MessageCreateReaction, MessageCreateUrl, ParticipantsLeave};
use twitter_archive::structs::direct_messages_group;
use twitter_archive::structs::follow::Follow;
use twitter_archive::structs::follower::FollowerObject;
use twitter_archive::structs::ni_devices::{MessagingDevice, NiDeviceResponse, NiDeviceResponseObject};
use twitter_archive::structs::tweets::{TweetEditInfo, TweetEditInfoInitial, TweetEntitiesEntry};
use twitter_archive::structs::verified::{Verified, VerifiedObject};

fn text(value: &str) -> Json {
    Json::Text(value.to_string())
}

fn object(entries: Vec<(&str, Json)>) -> Json {
    Json::Object(entries.into_iter().map(|(key, value)| (key.to_string(), value)).collect())
}

fn texts(values: &[&str]) -> Json {
    Json::Array(values.iter().map(|value| text(value)).collect())
}

fn strings(values: &[&str]) -> Vec<String> {
    values.iter().map(|s| s.to_string()).collect()
}

fn entries(value: Json) -> Vec<(String, Json)> {
    match value {
        Json::Object(entries) => entries,
        _ => panic!("no object"),
    }
}

#[test]
fn the_first_entry_under_a_key_is_the_one_that_is_found() {
    let all = entries(object(vec![("a", text("1")), ("b", text("2")), ("a", text("3"))]));
    assert_eq!(find(&all, "a"), Some(&text("1")));
    assert_eq!(find(&all, "b"), Some(&text("2")));
    assert_eq!(find(&all, "c"), None);
    assert_eq!(find(&all, "A"), None);
    assert_eq!(find(&vec![], "a"), None);
}

#[test]
fn fields_are_read_by_their_kind() {
    let all = entries(object(vec![
        ("name", text("x")),
        ("ids", texts(&["1", "2"])),
        ("at", text("2023-08-12T17:10:37.000Z")),
        ("count", text("0042")),
        ("range", texts(&["68", "419"])),
        ("yes", Json::Bool(true)),
        ("nothing", Json::Null),
        ("mixed", Json::Array(vec![text("1"), Json::Null])),
    ]));
    assert_eq!(read_text(&all, "name"), Some("x".to_string()));
    assert_eq!(read_text(&all, "ids"), None);
    assert_eq!(read_text(&all, "missing"), None);
    assert_eq!(read_texts(&all, "ids"), Some(strings(&["1", "2"])));
    assert_eq!(read_texts(&all, "mixed"), None);
    assert_eq!(read_texts(&all, "name"), None);
    assert_eq!(read_instant(&all, "at"), Instant::new(2023, 8, 12, 17, 10, 37, 0));
    assert_eq!(read_instant(&all, "name"), None);
    assert_eq!(read_number(&all, "count"), Some(42));
    assert_eq!(read_number(&all, "name"), None);
    assert_eq!(read_indices(&all, "range"), Some([68, 419]));
    assert_eq!(read_indices(&all, "ids"), Some([1, 2]));
    assert_eq!(read_indices(&all, "mixed"), None);
    assert_eq!(read_flag(&all, "yes"), Some(true));
    assert_eq!(read_flag(&all, "nothing"), None);
}

#[test]
fn a_blocking_is_read_out_of_its_envelope_and_written_into_it() {
    let value = object(vec![(
        "blocking",
        object(vec![
            ("accountId", text("3333333333333333333")),
            ("userLink", text("https://twitter.com/intent/user?user_id=3333333333333333333")),
        ]),
    )]);
    let read = BlockingObject::decode(&value).unwrap();
    assert_eq!(
        read,
        BlockingObject {
            blocking: Blocking {
                account_id: "3333333333333333333".to_string(),
                user_link: "https://twitter.com/intent/user?user_id=3333333333333333333".to_string(),
            },
        }
    );
    assert_eq!(read.encode(), value);
}

#[test]
fn an_envelope_with_an_extra_key_is_no_record() {
    let inner = object(vec![("accountId", text("1")), ("userLink", text("l"))]);
    let value = object(vec![("blocking", inner), ("b", Json::Number("2".to_string()))]);
    assert_eq!(BlockingObject::decode(&value), None);
    assert_eq!(
        decode_record::<BlockingObject>(&value, "blocking"),
        Err(FormatError::ShapeMismatch { expected: "blocking".to_string() })
    );
}

#[test]
fn a_follower_holds_a_follow() {
    let value = object(vec![(
        "follower",
        object(vec![
            ("accountId", text("2222222222222222222")),
            ("userLink", text("https://twitter.com/intent/user?user_id=2222222222222222222")),
        ]),
    )]);
    let read = FollowerObject::decode(&value).unwrap();
    assert_eq!(
        read.follower,
        Follow {
            account_id: "2222222222222222222".to_string(),
            user_link: "https://twitter.com/intent/user?user_id=2222222222222222222".to_string(),
        }
    );
    assert_eq!(read.encode(), value);
    let following = object(vec![("following", object(vec![("accountId", text("1")), ("userLink", text("l"))]))]);
    assert_eq!(FollowerObject::decode(&following), None);
}

#[test]
fn a_record_takes_exactly_its_entries() {
    let good = object(vec![("accountId", text("1")), ("userLink", text("l"))]);
    assert!(Blocking::decode(&good).is_some());
    let shuffled = object(vec![("userLink", text("l")), ("accountId", text("1"))]);
    assert_eq!(Blocking::decode(&shuffled), Blocking::decode(&good));
    assert_eq!(Blocking::decode(&shuffled).unwrap().encode(), good);
    for bad in [
        object(vec![("accountId", text("1"))]),
        object(vec![("accountId", text("1")), ("userLink", text("l")), ("more", text("m"))]),
        object(vec![("accountId", text("1")), ("accountId", text("1"))]),
        object(vec![("accountId", text("1")), ("userlink", text("l"))]),
        object(vec![("accountId", Json::Null), ("userLink", text("l"))]),
        object(vec![]),
        Json::Array(vec![]),
        text("blocking"),
    ] {
        assert_eq!(Blocking::decode(&bad), None);
    }
}

#[test]
fn a_deleted_tweet_keeps_its_two_dates() {
    let value = object(vec![(
        "tweet",
        object(vec![
            ("tweet_id", text("1111")),
            ("user_id", text("2222")),
            ("created_at", text("Sat Aug 12 16:10:37 +0000 2023")),
            ("deleted_at", text("Sun Aug 13 01:02:03 +0000 2023")),
        ]),
    )]);
    let read = deleted_tweet_headers::TweetObject::decode(&value).unwrap();
    assert_eq!(read.tweet.created_at, Instant::new(2023, 8, 12, 16, 10, 37, 0).unwrap());
    assert_eq!(read.tweet.deleted_at, Instant::new(2023, 8, 13, 1, 2, 3, 0).unwrap());
    assert_eq!(read.encode(), value);
}

#[test]
fn a_date_at_another_offset_is_written_at_the_offset_zero() {
    let value = object(vec![
        ("tweet_id", text("1111")),
        ("user_id", text("2222")),
        ("created_at", text("Sat Aug 12 12:10:37 -0400 2023")),
        ("deleted_at", text("Sun Aug 13 01:02:03 +0000 2023")),
    ]);
    let read = deleted_tweet_headers::Tweet::decode(&value).unwrap();
    let written = read.encode();
    assert_ne!(written, value);
    assert_eq!(find(&entries(written), "created_at"), Some(&text("Sat Aug 12 16:10:37 +0000 2023")));
}

#[test]
fn a_messaging_device_keeps_its_days() {
    let value = object(vec![(
        "niDeviceResponse",
        object(vec![(
            "messagingDevice",
            object(vec![
                ("phoneNumber", text("+15555555555")),
                ("carrier", text("none")),
                ("deviceType", text("Auth")),
                ("updatedDate", text("2021.10.20")),
                ("createdDate", text("2020.02.01")),
            ]),
        )]),
    )]);
    let read = NiDeviceResponseObject::decode(&value).unwrap();
    assert_eq!(
        read,
        NiDeviceResponseObject {
            ni_device_response: NiDeviceResponse {
                messaging_device: MessagingDevice {
                    phone_number: "+15555555555".to_string(),
                    carrier: "none".to_string(),
                    device_type: "Auth".to_string(),
                    updated_date: Instant::new(2021, 10, 20, 0, 0, 0, 0).unwrap(),
                    created_date: Instant::new(2020, 2, 1, 0, 0, 0, 0).unwrap(),
                },
            },
        }
    );
    assert_eq!(read.encode(), value);
}

#[test]
fn the_edit_information_of_a_tweet() {
    let value = object(vec![(
        "initial",
        object(vec![
            ("editTweetIds", texts(&["1111"])),
            ("editableUntil", text("2023-08-30T23:20:03.000Z")),
            ("editsRemaining", text("5")),
            ("isEditEligible", Json::Bool(true)),
        ]),
    )]);
    let read = TweetEditInfo::decode(&value).unwrap();
    assert_eq!(
        read,
        TweetEditInfo {
            initial: TweetEditInfoInitial {
                edit_tweet_ids: strings(&["1111"]),
                editable_until: Instant::new(2023, 8, 30, 23, 20, 3, 0).unwrap(),
                edits_remaining: 5,
                is_edit_eligible: true,
            },
        }
    );
    assert_eq!(read.encode(), value);
}

#[test]
fn an_entity_of_a_tweet_has_its_range() {
    let value = object(vec![("text", text("rust")), ("indices", texts(&["68", "419"]))]);
    let read = TweetEntitiesEntry::decode(&value).unwrap();
    assert_eq!(read, TweetEntitiesEntry { text: "rust".to_string(), indices: [68, 419] });
    assert_eq!(read.encode(), value);
    let one = object(vec![("text", text("rust")), ("indices", texts(&["68"]))]);
    assert_eq!(TweetEntitiesEntry::decode(&one), None);
    let three = object(vec![("text", text("rust")), ("indices", texts(&["1", "2", "3"]))]);
    assert_eq!(TweetEntitiesEntry::decode(&three), None);
}

#[test]
fn a_number_with_leading_zeros_is_read_and_written_without_them() {
    let value = object(vec![
        ("editTweetIds", texts(&[])),
        ("editableUntil", text("2023-08-30T23:20:03.000Z")),
        ("editsRemaining", text("005")),
        ("isEditEligible", Json::Bool(false)),
    ]);
    let read = TweetEditInfoInitial::decode(&value).unwrap();
    assert_eq!(read.edits_remaining, 5);
    assert_eq!(find(&entries(read.encode()), "editsRemaining"), Some(&text("5")));
}

#[test]
fn a_verified_flag() {
    let value = object(vec![(
        "verified",
        object(vec![("accountId", text("1111")), ("verified", Json::Bool(false))]),
    )]);
    let read = VerifiedObject::decode(&value).unwrap();
    assert_eq!(read, VerifiedObject { verified: Verified { account_id: "1111".to_string(), verified: false } });
    assert_eq!(read.encode(), value);
    let word = object(vec![("accountId", text("1111")), ("verified", text("false"))]);
    assert_eq!(Verified::decode(&word), None);
}

fn group_message_value() -> Json {
    object(vec![(
        "messageCreate",
        object(vec![
            (
                "reactions",
                Json::Array(vec![object(vec![
                    ("senderId", text("1111")),
                    ("reactionKey", text("like")),
                    ("eventId", text("2222")),
                    ("createdAt", text("2023-08-12T17:10:37.001Z")),
                ])]),
            ),
            (
                "urls",
                Json::Array(vec![object(vec![
                    ("url", text("https://t.co/x")),
                    ("expanded", text("https://example.com/")),
                    ("display", text("example.com")),
                ])]),
            ),
            ("text", text("hello https://t.co/x")),
            ("mediaUrls", texts(&[])),
            ("senderId", text("3333")),
            ("id", text("4444")),
            ("createdAt", text("2023-08-12T17:10:37.000Z")),
        ]),
    )])
}

fn group_message() -> direct_messages_group::Message {
    direct_messages_group::Message::MessageCreate(direct_messages_group::MessageCreate {
        reactions: vec![MessageCreateReaction {
            sender_id: "1111".to_string(),
            reaction_key: "like".to_string(),
            event_id: "2222".to_string(),
            created_at: Instant::new(2023, 8, 12, 17, 10, 37, 1).unwrap(),
        }],
        urls: vec![MessageCreateUrl {
            url: "https://t.co/x".to_string(),
            expanded: "https://example.com/".to_string(),
            display: "example.com".to_string(),
        }],
        text: "hello https://t.co/x".to_string(),
        media_urls: vec![],
        sender_id: "3333".to_string(),
        id: "4444".to_string(),
        created_at: Instant::new(2023, 8, 12, 17, 10, 37, 0).unwrap(),
    })
}

#[test]
fn the_events_of_a_group_conversation_with_their_content() {
    let leave = object(vec![(
        "participantsLeave",
        object(vec![("userIds", texts(&["5555"])), ("createdAt", text("2023-08-12T18:00:00.000Z"))]),
    )]);
    let items = vec![group_message_value(), leave];
    let events: Vec<direct_messages_group::Message> = decode_events(&items).unwrap();
    assert_eq!(
        events,
        vec![
            group_message(),
            direct_messages_group::Message::ParticipantsLeave(ParticipantsLeave {
                user_ids: strings(&["5555"]),
                created_at: Instant::new(2023, 8, 12, 18, 0, 0, 0).unwrap(),
            }),
        ]
    );
    assert_eq!(encode_events(&events), items);
}

#[test]
fn a_message_without_content_is_no_event_of_the_file_with_content() {
    let header = object(vec![(
        "messageCreate",
        object(vec![("id", text("1111")), ("senderId", text("2222")), ("createdAt", text("2023-08-12T17:10:37.000Z"))]),
    )]);
    let items = vec![group_message_value(), group_message_value(), header];
    assert_eq!(
        decode_events::<direct_messages_group::Message>(&items),
        Err(FormatError::NoVariantMatched {
            index: 2,
            attempted: strings(&["messageCreate", "participantsLeave", "joinConversation"]),
        })
    );
}

#[test]
fn a_group_conversation_in_its_envelope() {
    let value = object(vec![(
        "dmConversation",
        object(vec![("conversationId", text("7777")), ("messages", Json::Array(vec![group_message_value()]))]),
    )]);
    let read = direct_messages_group::DmConversationObject::decode(&value).unwrap();
    assert_eq!(read.dm_conversation.conversation_id, "7777");
    assert_eq!(read.dm_conversation.messages, vec![group_message()]);
    assert_eq!(read.encode(), value);
}
