use twitter_archive::convert::created_at::instant_of_utc;
use twitter_archive::envelope;
use twitter_archive::error::FormatError;
use twitter_archive::instant::Instant;
use twitter_archive::json::Json;
use twitter_archive::record::{push_slot, Record};
use twitter_archive::structs::ad::{AdvertiserInfo, Impression, TargetingCriteria};
use twitter_archive::structs::block::Blocking;
use twitter_archive::structs::like::{Like, LikeObject};
use twitter_archive::structs::tweets::{
    Tweet, TweetEditInfo, TweetEditInfoInitial, TweetEntities, TweetEntitiesEntry, TweetEntitiesUserMention,
    TweetEntitiesUserUrl, TweetObject,
};

fn text(value: &str) -> Json {
    Json::Text(value.to_string())
}

fn number(value: &str) -> Json {
    Json::Number(value.to_string())
}

fn object(entries: Vec<(&str, Json)>) -> Json {
    Json::Object(entries.into_iter().map(|(key, value)| (key.to_string(), value)).collect())
}

fn texts(values: &[&str]) -> Json {
    Json::Array(values.iter().map(|value| text(value)).collect())
}

fn blocking_value() -> Json {
    object(vec![("accountId", text("1")), ("userLink", text("https://twitter.com/intent/user?user_id=1"))])
}

fn blocking() -> Blocking {
    Blocking { account_id: "1".to_string(), user_link: "https://twitter.com/intent/user?user_id=1".to_string() }
}

#[test]
fn a_record_is_read_out_of_its_envelope() {
    let value = object(vec![("blocking", blocking_value())]);
    assert_eq!(envelope::decode::<Blocking>(&value, "blocking"), Ok(blocking()));
    assert_eq!(envelope::encode("blocking", &blocking()), value);
}

#[test]
fn an_envelope_with_two_keys_is_refused_for_its_length() {
    let value = object(vec![("a", number("1")), ("b", number("2"))]);
    assert_eq!(
        envelope::decode::<Blocking>(&value, "a"),
        Err(FormatError::LengthMismatch { name: "a".to_string(), wanted: 1, found: 2 })
    );
    let value = object(vec![("blocking", blocking_value()), ("b", number("2"))]);
    assert_eq!(
        envelope::decode::<Blocking>(&value, "blocking"),
        Err(FormatError::LengthMismatch { name: "blocking".to_string(), wanted: 1, found: 2 })
    );
}

#[test]
fn an_envelope_under_another_key_or_with_another_record_is_refused_for_its_shape() {
    let other_key = object(vec![("muting", blocking_value())]);
    assert_eq!(
        envelope::decode::<Blocking>(&other_key, "blocking"),
        Err(FormatError::ShapeMismatch { expected: "blocking".to_string() })
    );
    let other_record = object(vec![("blocking", object(vec![("accountId", text("1"))]))]);
    assert_eq!(
        envelope::decode::<Blocking>(&other_record, "blocking"),
        Err(FormatError::ShapeMismatch { expected: "blocking".to_string() })
    );
    assert_eq!(
        envelope::decode::<Blocking>(&texts(&["blocking"]), "blocking"),
        Err(FormatError::ShapeMismatch { expected: "blocking".to_string() })
    );
}

#[test]
fn what_chrono_gave_is_an_instant_only_in_a_year_of_four_digits() {
    assert_eq!(instant_of_utc((2023, 8, 12, 16, 10, 37)), Instant::new(2023, 8, 12, 16, 10, 37, 0));
    assert_eq!(instant_of_utc((0, 1, 1, 0, 0, 0)), Instant::new(0, 1, 1, 0, 0, 0, 0));
    assert!(instant_of_utc((0, 1, 1, 0, 0, 0)).is_some());
    assert_eq!(instant_of_utc((-1, 12, 31, 23, 0, 0)), None);
    assert_eq!(instant_of_utc((10000, 1, 1, 0, 0, 0)), None);
    assert_eq!(instant_of_utc((2023, 2, 29, 0, 0, 0)), None);
    assert_eq!(instant_of_utc((2023, 8, 12, 23, 59, 60)), None);
}

#[test]
fn an_entry_is_put_behind_the_others_where_there_is_one() {
    let mut entries = vec![("a".to_string(), Json::Null)];
    push_slot(&mut entries, None);
    assert_eq!(entries, vec![("a".to_string(), Json::Null)]);
    push_slot(&mut entries, Some(("b".to_string(), Json::Bool(true))));
    assert_eq!(entries, vec![("a".to_string(), Json::Null), ("b".to_string(), Json::Bool(true))]);
}

#[test]
fn a_like_with_and_without_its_text() {
    let with = object(vec![(
        "like",
        object(vec![
            ("tweetId", text("1111")),
            ("fullText", text("hello")),
            ("expandedUrl", text("https://twitter.com/i/web/status/1111")),
        ]),
    )]);
    let read = LikeObject::decode(&with).unwrap();
    assert_eq!(
        read.like,
        Like {
            tweet_id: "1111".to_string(),
            full_text: Some("hello".to_string()),
            expanded_url: "https://twitter.com/i/web/status/1111".to_string(),
        }
    );
    assert_eq!(read.encode(), with);
    let without = object(vec![(
        "like",
        object(vec![("tweetId", text("1111")), ("expandedUrl", text("https://twitter.com/i/web/status/1111"))]),
    )]);
    let read = LikeObject::decode(&without).unwrap();
    assert_eq!(read.like.full_text, None);
    assert_eq!(read.encode(), without);
}

#[test]
fn an_entry_that_may_be_left_out_is_of_its_kind_where_it_stands() {
    let null = object(vec![("tweetId", text("1111")), ("fullText", Json::Null), ("expandedUrl", text("u"))]);
    assert_eq!(Like::decode(&null), None);
    let other = object(vec![("tweetId", text("1111")), ("more", text("m")), ("expandedUrl", text("u"))]);
    assert_eq!(Like::decode(&other), None);
    let twice = object(vec![("tweetId", text("1111")), ("tweetId", text("1111")), ("expandedUrl", text("u"))]);
    assert_eq!(Like::decode(&twice), None);
    let missing = object(vec![("tweetId", text("1111")), ("fullText", text("hello"))]);
    assert_eq!(Like::decode(&missing), None);
    let shuffled = object(vec![("expandedUrl", text("u")), ("fullText", text("hello")), ("tweetId", text("1111"))]);
    let read = Like::decode(&shuffled).unwrap();
    assert_eq!(
        read.encode(),
        object(vec![("tweetId", text("1111")), ("fullText", text("hello")), ("expandedUrl", text("u"))])
    );
}

#[test]
fn an_impression_with_records_that_may_be_left_out() {
    let device = object(vec![("osType", text("Desktop"))]);
    let advertiser = object(vec![("advertiserName", text("Example")), ("screenName", text("@example"))]);
    let criteria = Json::Array(vec![
        object(vec![("targetingType", text("Locations")), ("targetingValue", text("Earth"))]),
        object(vec![("targetingType", text("Retargeting"))]),
    ]);
    let full = object(vec![
        ("deviceInfo", device),
        ("displayLocation", text("TimelineHome")),
        (
            "promotedTweetInfo",
            object(vec![
                ("tweetId", text("1111")),
                ("tweetText", text("buy")),
                ("urls", texts(&[])),
                ("mediaUrls", texts(&["https://t.co/m"])),
            ]),
        ),
        ("advertiserInfo", advertiser),
        ("matchedTargetingCriteria", criteria),
        ("impressionTime", text("2023-06-05 17:00:52")),
    ]);
    let read = Impression::decode(&full).unwrap();
    assert_eq!(read.impression_time, Instant::new(2023, 6, 5, 17, 0, 52, 0).unwrap());
    assert_eq!(
        read.advertiser_info,
        AdvertiserInfo { advertiser_name: Some("Example".to_string()), screen_name: Some("@example".to_string()) }
    );
    assert_eq!(
        read.matched_targeting_criteria,
        Some(vec![
            TargetingCriteria { targeting_type: "Locations".to_string(), targeting_value: Some("Earth".to_string()) },
            TargetingCriteria { targeting_type: "Retargeting".to_string(), targeting_value: None },
        ])
    );
    assert!(read.promoted_tweet_info.is_some());
    assert_eq!(read.encode(), full);
    let bare = object(vec![
        ("deviceInfo", object(vec![("osType", text("Desktop"))])),
        ("displayLocation", text("TimelineHome")),
        ("advertiserInfo", object(vec![])),
        ("impressionTime", text("2023-06-05 17:00:52")),
    ]);
    let read = Impression::decode(&bare).unwrap();
    assert_eq!(read.promoted_tweet_info, None);
    assert_eq!(read.matched_targeting_criteria, None);
    assert_eq!(read.advertiser_info, AdvertiserInfo { advertiser_name: None, screen_name: None });
    assert_eq!(read.encode(), bare);
}

fn tweet_value(reply: bool) -> Json {
    let mut entries = vec![
        (
            "edit_info",
            object(vec![(
                "initial",
                object(vec![
                    ("editTweetIds", texts(&["1111"])),
                    ("editableUntil", text("2023-08-12T17:10:37.000Z")),
                    ("editsRemaining", text("5")),
                    ("isEditEligible", Json::Bool(true)),
                ]),
            )]),
        ),
        ("retweeted", Json::Bool(false)),
        ("source", text("<a href=\"https://example.com\">Example</a>")),
        (
            "entities",
            object(vec![
                ("hashtags", Json::Array(vec![object(vec![("text", text("rust")), ("indices", texts(&["0", "5"]))])])),
                ("symbols", Json::Array(vec![])),
                (
                    "user_mentions",
                    Json::Array(vec![object(vec![
                        ("name", text("Example")),
                        ("screen_name", text("example")),
                        ("indices", texts(&["6", "14"])),
                        ("id_str", text("2222")),
                        ("id", text("2222")),
                    ])]),
                ),
                (
                    "urls",
                    Json::Array(vec![object(vec![
                        ("url", text("https://t.co/x")),
                        ("expanded_url", text("https://example.com/")),
                        ("display_url", text("example.com")),
                        ("indices", texts(&["15", "38"])),
                    ])]),
                ),
            ]),
        ),
        ("display_text_range", texts(&["0", "38"])),
        ("favorite_count", text("68419")),
    ];
    if reply {
        entries.push(("in_reply_to_status_id_str", text("3333")));
    }
    entries.push(("id_str", text("1111")));
    if reply {
        entries.push(("in_reply_to_user_id", text("4444")));
    }
    entries.push(("truncated", Json::Bool(false)));
    entries.push(("retweet_count", text("0")));
    entries.push(("id", text("1111")));
    if reply {
        entries.push(("in_reply_to_status_id", text("3333")));
        entries.push(("possibly_sensitive", Json::Bool(false)));
    }
    entries.push(("created_at", text("Sat Aug 12 16:10:37 +0000 2023")));
    entries.push(("favorited", Json::Bool(true)));
    entries.push(("full_text", text("#rust @example https://t.co/x")));
    entries.push(("lang", text("en")));
    if reply {
        entries.push(("in_reply_to_screen_name", text("other")));
        entries.push(("in_reply_to_user_id_str", text("4444")));
    }
    object(vec![("tweet", object(entries))])
}

fn tweet(reply: bool) -> Tweet {
    let some = |value: &str| if reply { Some(value.to_string()) } else { None };
    Tweet {
        edit_info: TweetEditInfo {
            initial: TweetEditInfoInitial {
                edit_tweet_ids: vec!["1111".to_string()],
                editable_until: Instant::new(2023, 8, 12, 17, 10, 37, 0).unwrap(),
                edits_remaining: 5,
                is_edit_eligible: true,
            },
        },
        retweeted: false,
        source: "<a href=\"https://example.com\">Example</a>".to_string(),
        entities: TweetEntities {
            hashtags: vec![TweetEntitiesEntry { text: "rust".to_string(), indices: [0, 5] }],
            symbols: vec![],
            user_mentions: vec![TweetEntitiesUserMention {
                name: "Example".to_string(),
                screen_name: "example".to_string(),
                indices: [6, 14],
                id_str: "2222".to_string(),
                id: "2222".to_string(),
            }],
            urls: vec![TweetEntitiesUserUrl {
                url: "https://t.co/x".to_string(),
                expanded_url: "https://example.com/".to_string(),
                display_url: "example.com".to_string(),
                indices: [15, 38],
            }],
        },
        display_text_range: [0, 38],
        favorite_count: 68419,
        in_reply_to_status_id_str: some("3333"),
        id_str: "1111".to_string(),
        in_reply_to_user_id: some("4444"),
        truncated: false,
        retweet_count: 0,
        id: "1111".to_string(),
        in_reply_to_status_id: some("3333"),
        possibly_sensitive: if reply { Some(false) } else { None },
        created_at: Instant::new(2023, 8, 12, 16, 10, 37, 0).unwrap(),
        favorited: true,
        full_text: "#rust @example https://t.co/x".to_string(),
        lang: "en".to_string(),
        in_reply_to_screen_name: some("other"),
        in_reply_to_user_id_str: some("4444"),
    }
}

#[test]
fn a_tweet_that_is_no_reply() {
    let value = tweet_value(false);
    let read = TweetObject::decode(&value).unwrap();
    assert_eq!(read, TweetObject { tweet: tweet(false) });
    assert_eq!(read.encode(), value);
}

#[test]
fn a_tweet_that_is_a_reply() {
    let value = tweet_value(true);
    let read = TweetObject::decode(&value).unwrap();
    assert_eq!(read, TweetObject { tweet: tweet(true) });
    assert_eq!(read.encode(), value);
}

#[test]
fn a_tweet_with_an_entry_that_it_does_not_know_is_no_tweet() {
    let mut entries = match tweet_value(false) {
        Json::Object(mut outer) => match outer.remove(0).1 {
            Json::Object(entries) => entries,
            _ => unreachable!(),
        },
        _ => unreachable!(),
    };
    entries.push(("place".to_string(), Json::Null));
    assert_eq!(Tweet::decode(&Json::Object(entries)), None);
}
