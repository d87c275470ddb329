use twitter_archive::error::FormatError;
use twitter_archive::events::{decode_event, decode_events, encode_events, variant_labels, Either, EventVariants};
use twitter_archive::json::Json;
use twitter_archive::structs::block::Blocking;
use twitter_archive::structs::mute::Muting;
use twitter_archive::structs::verified::Verified;

fn text(value: &str) -> Json {
    Json::Text(value.to_string())
}

fn object(entries: Vec<(&str, Json)>) -> Json {
    Json::Object(entries.into_iter().map(|(key, value)| (key.to_string(), value)).collect())
}

fn account_value() -> Json {
    object(vec![("accountId", text("1")), ("userLink", text("https://twitter.com/intent/user?user_id=1"))])
}

fn verified_value() -> Json {
    object(vec![("accountId", text("1")), ("verified", Json::Bool(true))])
}

fn blocking() -> Blocking {
    Blocking { account_id: "1".to_string(), user_link: "https://twitter.com/intent/user?user_id=1".to_string() }
}

fn muting() -> Muting {
    Muting { account_id: "1".to_string(), user_link: "https://twitter.com/intent/user?user_id=1".to_string() }
}

#[test]
fn where_two_variants_read_a_value_the_earlier_one_has_it() {
    let value = account_value();
    assert_eq!(Either::<Blocking, Muting>::try_variant(0, &value), Some(Either::First(blocking())));
    assert_eq!(Either::<Blocking, Muting>::try_variant(1, &value), Some(Either::Second(muting())));
    assert_eq!(decode_event::<Either<Blocking, Muting>>(&value), Some(Either::First(blocking())));
}

#[test]
fn the_order_of_the_variants_decides() {
    let value = account_value();
    assert_eq!(decode_event::<Either<Muting, Blocking>>(&value), Some(Either::First(muting())));
    assert_eq!(decode_event::<Either<Blocking, Muting>>(&value), Some(Either::First(blocking())));
}

#[test]
fn a_later_variant_has_what_no_earlier_one_reads() {
    let verified = Verified { account_id: "1".to_string(), verified: true };
    assert_eq!(
        decode_event::<Either<Blocking, Verified>>(&verified_value()),
        Some(Either::Second(verified.clone()))
    );
    assert_eq!(decode_event::<Either<Verified, Blocking>>(&verified_value()), Some(Either::First(verified)));
    assert_eq!(decode_event::<Either<Blocking, Verified>>(&account_value()), Some(Either::First(blocking())));
    assert_eq!(decode_event::<Either<Blocking, Verified>>(&Json::Null), None);
}

#[test]
fn a_list_of_records_of_two_shapes() {
    let items = vec![verified_value(), account_value(), verified_value()];
    let events: Vec<Either<Blocking, Verified>> = decode_events(&items).unwrap();
    assert_eq!(
        events,
        vec![
            Either::Second(Verified { account_id: "1".to_string(), verified: true }),
            Either::First(blocking()),
            Either::Second(Verified { account_id: "1".to_string(), verified: true }),
        ]
    );
    assert_eq!(encode_events(&events), items);
}

#[test]
fn a_list_of_three_with_its_second_element_of_no_shape_fails_as_a_whole() {
    let items = vec![account_value(), object(vec![("accountId", text("1"))]), verified_value()];
    assert_eq!(
        decode_events::<Either<Blocking, Verified>>(&items),
        Err(FormatError::NoVariantMatched { index: 1, attempted: vec!["first".to_string(), "second".to_string()] })
    );
    assert_eq!(variant_labels::<Either<Blocking, Verified>>(), vec!["first".to_string(), "second".to_string()]);
}

#[test]
fn what_the_later_variant_writes_comes_back_as_the_earlier_where_both_read_it() {
    let written = Either::<Blocking, Muting>::Second(muting()).encode();
    assert_eq!(written, account_value());
    assert_eq!(decode_event::<Either<Blocking, Muting>>(&written), Some(Either::First(blocking())));
}
