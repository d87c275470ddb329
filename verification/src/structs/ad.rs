//! Records that the files `data/ad-engagements.js` and
//! `data/ad-impressions.js` share.

use vstd::prelude::*;
use vstd::string::*;
use crate::instant::{Civil, Instant};
use crate::json::{entry_models, lemma_lookup_at, lookup, Json, JsonModel};
use crate::record;
use crate::record::{
    count, distinct_keys, entry_of, filled, lemma_filled_lookup, lemma_filled_push,
    lemma_second_at, lemma_second_value, lemma_texts_of, lemma_texts_value, optional_model,
    optional_models, optional_record_at, optional_record_value, optional_records_at,
    optional_records_value, optional_text, optional_text_at, optional_text_value, push_slot,
    read_optional_record, read_optional_records, read_optional_text, read_record, read_second,
    read_text, read_texts, record_at, record_entry, records_entry, second_at, second_canonical,
    second_entry, second_value, second_writable, text_at, text_entry, texts_at, texts_entry,
    texts_value, Record,
};
use crate::text::texts;

verus! {

/// One showing of an advertisement: where and when it was shown, on what
/// device, whose it was, and why this account was shown it.
#[derive(Clone, Debug, PartialEq, Eq)]
pub struct Impression {
    /// The entry `deviceInfo`.
    pub device_info: DeviceInfo,
    /// The entry `displayLocation`.
    pub display_location: String,
    /// The entry `promotedTweetInfo`, left out where there is none.
    pub promoted_tweet_info: Option<PromotedTweetInfo>,
    /// The entry `advertiserInfo`.
    pub advertiser_info: AdvertiserInfo,
    /// The entry `matchedTargetingCriteria`, left out where there is none.
    pub matched_targeting_criteria: Option<Vec<TargetingCriteria>>,
    /// The entry `impressionTime`, in the encoding of
    /// `convert::date_year_month_day_hour_minute_second`.
    pub impression_time: Instant,
}

/// What a value of [`Impression`] holds.
pub struct ImpressionModel {
    pub device_info: DeviceInfoModel,
    pub display_location: Seq<char>,
    pub promoted_tweet_info: Option<PromotedTweetInfoModel>,
    pub advertiser_info: AdvertiserInfoModel,
    pub matched_targeting_criteria: Option<Seq<TargetingCriteriaModel>>,
    pub impression_time: Civil,
}

impl View for Impression {
    type V = ImpressionModel;

    open spec fn view(&self) -> ImpressionModel {
        ImpressionModel {
            device_info: self.device_info@,
            display_location: self.display_location@,
            promoted_tweet_info: optional_model(self.promoted_tweet_info),
            advertiser_info: self.advertiser_info@,
            matched_targeting_criteria: optional_models(self.matched_targeting_criteria),
            impression_time: self.impression_time@,
        }
    }
}

impl Impression {
    /// The places of the entries of a record, in the order in which they
    /// are written, each with the value that writes its field.
    pub open spec fn slots(record: ImpressionModel) -> Seq<(Seq<char>, Option<JsonModel>)> {
        seq![
            ("deviceInfo"@, Some(DeviceInfo::written(record.device_info))),
            ("displayLocation"@, Some(JsonModel::Text(record.display_location))),
            (
                "promotedTweetInfo"@,
                optional_record_value::<PromotedTweetInfo>(record.promoted_tweet_info),
            ),
            ("advertiserInfo"@, Some(AdvertiserInfo::written(record.advertiser_info))),
            (
                "matchedTargetingCriteria"@,
                optional_records_value::<TargetingCriteria>(record.matched_targeting_criteria),
            ),
            ("impressionTime"@, Some(second_value(record.impression_time))),
        ]
    }

    /// The places of the entries of a record, each with the value that
    /// `entries` has under its key.
    pub open spec fn slots_of(entries: Seq<(Seq<char>, JsonModel)>) -> Seq<
        (Seq<char>, Option<JsonModel>),
    > {
        seq![
            ("deviceInfo"@, lookup(entries, "deviceInfo"@)),
            ("displayLocation"@, lookup(entries, "displayLocation"@)),
            ("promotedTweetInfo"@, lookup(entries, "promotedTweetInfo"@)),
            ("advertiserInfo"@, lookup(entries, "advertiserInfo"@)),
            ("matchedTargetingCriteria"@, lookup(entries, "matchedTargetingCriteria"@)),
            ("impressionTime"@, lookup(entries, "impressionTime"@)),
        ]
    }

    /// No two of the keys are the same.
    proof fn lemma_keys_differ()
        ensures
            "deviceInfo"@ != "displayLocation"@,
            "deviceInfo"@ != "promotedTweetInfo"@,
            "deviceInfo"@ != "advertiserInfo"@,
            "deviceInfo"@ != "matchedTargetingCriteria"@,
            "deviceInfo"@ != "impressionTime"@,
            "displayLocation"@ != "promotedTweetInfo"@,
            "displayLocation"@ != "advertiserInfo"@,
            "displayLocation"@ != "matchedTargetingCriteria"@,
            "displayLocation"@ != "impressionTime"@,
            "promotedTweetInfo"@ != "advertiserInfo"@,
            "promotedTweetInfo"@ != "matchedTargetingCriteria"@,
            "promotedTweetInfo"@ != "impressionTime"@,
            "advertiserInfo"@ != "matchedTargetingCriteria"@,
            "advertiserInfo"@ != "impressionTime"@,
            "matchedTargetingCriteria"@ != "impressionTime"@,
    {
        reveal_strlit("deviceInfo");
        reveal_strlit("displayLocation");
        reveal_strlit("promotedTweetInfo");
        reveal_strlit("advertiserInfo");
        reveal_strlit("matchedTargetingCriteria");
        reveal_strlit("impressionTime");
        assert("deviceInfo"@.len() == 10);
        assert("displayLocation"@.len() == 15);
        assert("promotedTweetInfo"@.len() == 17);
        assert("advertiserInfo"@.len() == 14);
        assert("matchedTargetingCriteria"@.len() == 24);
        assert("impressionTime"@.len() == 14);
        assert("advertiserInfo"@[0] != "impressionTime"@[0]);
    }

    /// The entries that write a record are as many as its fields that
    /// have a value, and each is found under its key.
    proof fn lemma_written(record: ImpressionModel)
        ensures
            filled(Self::slots(record)).len() == 4
                + count(optional_record_value::<PromotedTweetInfo>(record.promoted_tweet_info))
                + count(
                    optional_records_value::<TargetingCriteria>(record.matched_targeting_criteria),
                ),
            lookup(filled(Self::slots(record)), "deviceInfo"@)
                == Some(DeviceInfo::written(record.device_info)),
            lookup(filled(Self::slots(record)), "displayLocation"@)
                == Some(JsonModel::Text(record.display_location)),
            lookup(filled(Self::slots(record)), "promotedTweetInfo"@)
                == optional_record_value::<PromotedTweetInfo>(record.promoted_tweet_info),
            lookup(filled(Self::slots(record)), "advertiserInfo"@)
                == Some(AdvertiserInfo::written(record.advertiser_info)),
            lookup(filled(Self::slots(record)), "matchedTargetingCriteria"@)
                == optional_records_value::<TargetingCriteria>(record.matched_targeting_criteria),
            lookup(filled(Self::slots(record)), "impressionTime"@)
                == Some(second_value(record.impression_time)),
            filled(Self::slots(record)) == Seq::<(Seq<char>, JsonModel)>::empty()
                + entry_of("deviceInfo"@, Some(DeviceInfo::written(record.device_info)))
                + entry_of("displayLocation"@, Some(JsonModel::Text(record.display_location)))
                + entry_of(
                    "promotedTweetInfo"@,
                    optional_record_value::<PromotedTweetInfo>(record.promoted_tweet_info),
                )
                + entry_of("advertiserInfo"@, Some(AdvertiserInfo::written(record.advertiser_info)))
                + entry_of(
                    "matchedTargetingCriteria"@,
                    optional_records_value::<TargetingCriteria>(record.matched_targeting_criteria),
                )
                + entry_of("impressionTime"@, Some(second_value(record.impression_time))),
    {
        let slots = Self::slots(record);
        Self::lemma_keys_differ();
        let s0 = Seq::<(Seq<char>, Option<JsonModel>)>::empty();
        let s1 = s0.push(slots[0]);
        lemma_filled_push(s0, slots[0].0, slots[0].1);
        let s2 = s1.push(slots[1]);
        lemma_filled_push(s1, slots[1].0, slots[1].1);
        let s3 = s2.push(slots[2]);
        lemma_filled_push(s2, slots[2].0, slots[2].1);
        let s4 = s3.push(slots[3]);
        lemma_filled_push(s3, slots[3].0, slots[3].1);
        let s5 = s4.push(slots[4]);
        lemma_filled_push(s4, slots[4].0, slots[4].1);
        let s6 = s5.push(slots[5]);
        lemma_filled_push(s5, slots[5].0, slots[5].1);
        assert(s6 =~= slots);
        assert(distinct_keys(slots));
        lemma_filled_lookup(slots, 0);
        lemma_filled_lookup(slots, 1);
        lemma_filled_lookup(slots, 2);
        lemma_filled_lookup(slots, 3);
        lemma_filled_lookup(slots, 4);
        lemma_filled_lookup(slots, 5);
    }
}

impl Record for Impression {
    open spec fn read(value: JsonModel) -> Option<ImpressionModel> {
        match value {
            JsonModel::Object(entries) => if entries.len() == 4
                + count(lookup(entries, "promotedTweetInfo"@))
                + count(lookup(entries, "matchedTargetingCriteria"@))
                && record_at::<DeviceInfo>(entries, "deviceInfo"@).is_some()
                && text_at(entries, "displayLocation"@).is_some()
                && optional_record_at::<PromotedTweetInfo>(entries, "promotedTweetInfo"@).is_some()
                && record_at::<AdvertiserInfo>(entries, "advertiserInfo"@).is_some()
                && optional_records_at::<TargetingCriteria>(
                    entries,
                    "matchedTargetingCriteria"@,
                ).is_some()
                && second_at(entries, "impressionTime"@).is_some()
            {
                Some(
                    ImpressionModel {
                        device_info: record_at::<DeviceInfo>(entries, "deviceInfo"@).unwrap(),
                        display_location: text_at(entries, "displayLocation"@).unwrap(),
                        promoted_tweet_info: optional_record_at::<PromotedTweetInfo>(
                            entries,
                            "promotedTweetInfo"@,
                        ).unwrap(),
                        advertiser_info: record_at::<AdvertiserInfo>(
                            entries,
                            "advertiserInfo"@,
                        ).unwrap(),
                        matched_targeting_criteria: optional_records_at::<TargetingCriteria>(
                            entries,
                            "matchedTargetingCriteria"@,
                        ).unwrap(),
                        impression_time: second_at(entries, "impressionTime"@).unwrap(),
                    },
                )
            } else {
                None
            },
            _ => None,
        }
    }

    open spec fn written(record: ImpressionModel) -> JsonModel {
        JsonModel::Object(filled(Self::slots(record)))
    }

    open spec fn is_writable(record: ImpressionModel) -> bool {
        &&& DeviceInfo::is_writable(record.device_info)
        &&& (record.promoted_tweet_info matches Some(held) ==> PromotedTweetInfo::is_writable(held))
        &&& AdvertiserInfo::is_writable(record.advertiser_info)
        &&& (
            record.matched_targeting_criteria matches Some(
                held,
            ) ==> record::all_writable::<TargetingCriteria>(held)
        )
        &&& second_writable(record.impression_time)
    }

    open spec fn is_canonical(value: JsonModel) -> bool {
        &&& value is Object
        &&& value->Object_0 == filled(Self::slots_of(value->Object_0))
        &&& (
            lookup(
                value->Object_0,
                "deviceInfo"@,
            ) matches Some(held) && DeviceInfo::is_canonical(held)
        )
        &&& (
            lookup(
                value->Object_0,
                "promotedTweetInfo"@,
            ) matches Some(held) ==> PromotedTweetInfo::is_canonical(held)
        )
        &&& (
            lookup(
                value->Object_0,
                "advertiserInfo"@,
            ) matches Some(held) && AdvertiserInfo::is_canonical(held)
        )
        &&& (
            lookup(
                value->Object_0,
                "matchedTargetingCriteria"@,
            ) matches Some(held) ==> record::all_canonical::<TargetingCriteria>(held)
        )
        &&& (
            lookup(value->Object_0, "impressionTime"@) matches Some(held) && second_canonical(held)
        )
    }

    proof fn written_is_read_back(record: ImpressionModel) {
        let entries = filled(Self::slots(record));
        Self::lemma_written(record);
        DeviceInfo::written_is_read_back(record.device_info);
        if record.promoted_tweet_info.is_some() {
            PromotedTweetInfo::written_is_read_back(record.promoted_tweet_info.unwrap());
        }
        AdvertiserInfo::written_is_read_back(record.advertiser_info);
        if record.matched_targeting_criteria.is_some() {
            record::lemma_records_value::<TargetingCriteria>(
                record.matched_targeting_criteria.unwrap(),
            );
        }
        lemma_second_value(entries, "impressionTime"@, record.impression_time);
        assert(Self::slots_of(entries) =~= Self::slots(record));
    }

    proof fn read_is_written_back(value: JsonModel) {
        let entries = value->Object_0;
        DeviceInfo::read_is_written_back(lookup(entries, "deviceInfo"@).unwrap());
        if lookup(entries, "promotedTweetInfo"@).is_some() {
            PromotedTweetInfo::read_is_written_back(lookup(entries, "promotedTweetInfo"@).unwrap());
        }
        AdvertiserInfo::read_is_written_back(lookup(entries, "advertiserInfo"@).unwrap());
        if lookup(entries, "matchedTargetingCriteria"@).is_some() {
            record::lemma_records_of::<TargetingCriteria>(
                lookup(entries, "matchedTargetingCriteria"@).unwrap(),
            );
        }
        lemma_second_at(entries, "impressionTime"@);
        assert(Self::slots(Self::read(value).unwrap()) =~= Self::slots_of(entries));
    }

    fn decode(value: &Json) -> (r: Option<Impression>) {
        let entries = match value.as_object() {
            Some(entries) => entries,
            None => {
                return None;
            },
        };
        let device_info = read_record::<DeviceInfo>(entries, "deviceInfo");
        let display_location = read_text(entries, "displayLocation");
        let promoted_tweet_info = read_optional_record::<PromotedTweetInfo>(
            entries,
            "promotedTweetInfo",
        );
        let advertiser_info = read_record::<AdvertiserInfo>(entries, "advertiserInfo");
        let matched_targeting_criteria = read_optional_records::<TargetingCriteria>(
            entries,
            "matchedTargetingCriteria",
        );
        let impression_time = read_second(entries, "impressionTime");
        if device_info.is_none() || display_location.is_none() ||
            promoted_tweet_info.is_none() || advertiser_info.is_none() ||
            matched_targeting_criteria.is_none() || impression_time.is_none() {
            return None;
        }
        let device_info = device_info.unwrap();
        let display_location = display_location.unwrap();
        let promoted_tweet_info = promoted_tweet_info.unwrap();
        let advertiser_info = advertiser_info.unwrap();
        let matched_targeting_criteria = matched_targeting_criteria.unwrap();
        let impression_time = impression_time.unwrap();
        let mut wanted: usize = 4;
        if promoted_tweet_info.is_some() {
            wanted += 1;
        }
        if matched_targeting_criteria.is_some() {
            wanted += 1;
        }
        if entries.len() != wanted {
            return None;
        }
        Some(
            Impression {
                device_info,
                display_location,
                promoted_tweet_info,
                advertiser_info,
                matched_targeting_criteria,
                impression_time,
            },
        )
    }

    fn encode(&self) -> (r: Json) {
        let mut entries: Vec<(String, Json)> = Vec::new();
        proof {
            assert(entry_models(entries@) =~= Seq::empty());
        }
        push_slot(&mut entries, Some(record_entry("deviceInfo", &self.device_info)));
        push_slot(&mut entries, Some(text_entry("displayLocation", &self.display_location)));
        push_slot(
            &mut entries,
            match &self.promoted_tweet_info {
                Some(held) => Some(record_entry("promotedTweetInfo", held)),
                None => None,
            },
        );
        push_slot(&mut entries, Some(record_entry("advertiserInfo", &self.advertiser_info)));
        push_slot(
            &mut entries,
            match &self.matched_targeting_criteria {
                Some(held) => Some(records_entry("matchedTargetingCriteria", held)),
                None => None,
            },
        );
        push_slot(&mut entries, Some(second_entry("impressionTime", &self.impression_time)));
        proof {
            Self::lemma_written(self@);
        }
        Json::object(entries)
    }
}

/// The device on which an advertisement was shown.
#[derive(Clone, Debug, PartialEq, Eq)]
pub struct DeviceInfo {
    /// The entry `osType`.
    pub os_type: String,
}

/// What a value of [`DeviceInfo`] holds.
pub struct DeviceInfoModel {
    pub os_type: Seq<char>,
}

impl View for DeviceInfo {
    type V = DeviceInfoModel;

    open spec fn view(&self) -> DeviceInfoModel {
        DeviceInfoModel {
            os_type: self.os_type@,
        }
    }
}

impl Record for DeviceInfo {
    open spec fn read(value: JsonModel) -> Option<DeviceInfoModel> {
        match value {
            JsonModel::Object(entries) => if entries.len() == 1
                && text_at(entries, "osType"@).is_some()
            {
                Some(
                    DeviceInfoModel {
                        os_type: text_at(entries, "osType"@).unwrap(),
                    },
                )
            } else {
                None
            },
            _ => None,
        }
    }

    open spec fn written(record: DeviceInfoModel) -> JsonModel {
        JsonModel::Object(
            seq![
                ("osType"@, JsonModel::Text(record.os_type)),
            ],
        )
    }

    open spec fn is_writable(record: DeviceInfoModel) -> bool {
        true
    }

    open spec fn is_canonical(value: JsonModel) -> bool {
        &&& value is Object
        &&& value->Object_0.len() == 1
        &&& value->Object_0[0].0 == "osType"@
    }

    proof fn written_is_read_back(record: DeviceInfoModel) {
        let entries = Self::written(record)->Object_0;
        lemma_lookup_at(entries, 0);
    }

    proof fn read_is_written_back(value: JsonModel) {
        let entries = value->Object_0;
        lemma_lookup_at(entries, 0);
        assert(Self::written(Self::read(value).unwrap())->Object_0 =~= entries);
    }

    fn decode(value: &Json) -> (r: Option<DeviceInfo>) {
        let entries = match value.as_object() {
            Some(entries) => entries,
            None => {
                return None;
            },
        };
        if entries.len() != 1 {
            return None;
        }
        let os_type = match read_text(entries, "osType") {
            Some(found) => found,
            None => {
                return None;
            },
        };
        Some(DeviceInfo { os_type })
    }

    fn encode(&self) -> (r: Json) {
        let mut entries: Vec<(String, Json)> = Vec::new();
        entries.push(text_entry("osType", &self.os_type));
        proof {
            assert(entry_models(entries@) =~= Self::written(self@)->Object_0);
        }
        Json::object(entries)
    }
}

/// The tweet that an advertisement promoted.
#[derive(Clone, Debug, PartialEq, Eq)]
pub struct PromotedTweetInfo {
    /// The entry `tweetId`.
    pub tweet_id: String,
    /// The entry `tweetText`.
    pub tweet_text: String,
    /// The entry `urls`.
    pub urls: Vec<String>,
    /// The entry `mediaUrls`.
    pub media_urls: Vec<String>,
}

/// What a value of [`PromotedTweetInfo`] holds.
pub struct PromotedTweetInfoModel {
    pub tweet_id: Seq<char>,
    pub tweet_text: Seq<char>,
    pub urls: Seq<Seq<char>>,
    pub media_urls: Seq<Seq<char>>,
}

impl View for PromotedTweetInfo {
    type V = PromotedTweetInfoModel;

    open spec fn view(&self) -> PromotedTweetInfoModel {
        PromotedTweetInfoModel {
            tweet_id: self.tweet_id@,
            tweet_text: self.tweet_text@,
            urls: texts(self.urls@),
            media_urls: texts(self.media_urls@),
        }
    }
}

impl PromotedTweetInfo {
    /// No two of the keys are the same.
    proof fn lemma_keys_differ()
        ensures
            "tweetId"@ != "tweetText"@,
            "tweetId"@ != "urls"@,
            "tweetId"@ != "mediaUrls"@,
            "tweetText"@ != "urls"@,
            "tweetText"@ != "mediaUrls"@,
            "urls"@ != "mediaUrls"@,
    {
        reveal_strlit("tweetId");
        reveal_strlit("tweetText");
        reveal_strlit("urls");
        reveal_strlit("mediaUrls");
        assert("tweetId"@.len() == 7);
        assert("tweetText"@.len() == 9);
        assert("urls"@.len() == 4);
        assert("mediaUrls"@.len() == 9);
        assert("tweetText"@[0] != "mediaUrls"@[0]);
    }
}

impl Record for PromotedTweetInfo {
    open spec fn read(value: JsonModel) -> Option<PromotedTweetInfoModel> {
        match value {
            JsonModel::Object(entries) => if entries.len() == 4
                && text_at(entries, "tweetId"@).is_some()
                && text_at(entries, "tweetText"@).is_some()
                && texts_at(entries, "urls"@).is_some()
                && texts_at(entries, "mediaUrls"@).is_some()
            {
                Some(
                    PromotedTweetInfoModel {
                        tweet_id: text_at(entries, "tweetId"@).unwrap(),
                        tweet_text: text_at(entries, "tweetText"@).unwrap(),
                        urls: texts_at(entries, "urls"@).unwrap(),
                        media_urls: texts_at(entries, "mediaUrls"@).unwrap(),
                    },
                )
            } else {
                None
            },
            _ => None,
        }
    }

    open spec fn written(record: PromotedTweetInfoModel) -> JsonModel {
        JsonModel::Object(
            seq![
                ("tweetId"@, JsonModel::Text(record.tweet_id)),
                ("tweetText"@, JsonModel::Text(record.tweet_text)),
                ("urls"@, texts_value(record.urls)),
                ("mediaUrls"@, texts_value(record.media_urls)),
            ],
        )
    }

    open spec fn is_writable(record: PromotedTweetInfoModel) -> bool {
        true
    }

    open spec fn is_canonical(value: JsonModel) -> bool {
        &&& value is Object
        &&& value->Object_0.len() == 4
        &&& value->Object_0[0].0 == "tweetId"@
        &&& value->Object_0[1].0 == "tweetText"@
        &&& value->Object_0[2].0 == "urls"@
        &&& value->Object_0[3].0 == "mediaUrls"@
    }

    proof fn written_is_read_back(record: PromotedTweetInfoModel) {
        let entries = Self::written(record)->Object_0;
        Self::lemma_keys_differ();
        lemma_lookup_at(entries, 0);
        lemma_lookup_at(entries, 1);
        lemma_lookup_at(entries, 2);
        lemma_lookup_at(entries, 3);
        lemma_texts_value(record.urls);
        lemma_texts_value(record.media_urls);
    }

    proof fn read_is_written_back(value: JsonModel) {
        let entries = value->Object_0;
        Self::lemma_keys_differ();
        lemma_lookup_at(entries, 0);
        lemma_lookup_at(entries, 1);
        lemma_lookup_at(entries, 2);
        lemma_lookup_at(entries, 3);
        lemma_texts_of(entries[2].1);
        lemma_texts_of(entries[3].1);
        assert(Self::written(Self::read(value).unwrap())->Object_0 =~= entries);
    }

    fn decode(value: &Json) -> (r: Option<PromotedTweetInfo>) {
        let entries = match value.as_object() {
            Some(entries) => entries,
            None => {
                return None;
            },
        };
        if entries.len() != 4 {
            return None;
        }
        let tweet_id = match read_text(entries, "tweetId") {
            Some(found) => found,
            None => {
                return None;
            },
        };
        let tweet_text = match read_text(entries, "tweetText") {
            Some(found) => found,
            None => {
                return None;
            },
        };
        let urls = match read_texts(entries, "urls") {
            Some(found) => found,
            None => {
                return None;
            },
        };
        let media_urls = match read_texts(entries, "mediaUrls") {
            Some(found) => found,
            None => {
                return None;
            },
        };
        Some(PromotedTweetInfo { tweet_id, tweet_text, urls, media_urls })
    }

    fn encode(&self) -> (r: Json) {
        let mut entries: Vec<(String, Json)> = Vec::new();
        entries.push(text_entry("tweetId", &self.tweet_id));
        entries.push(text_entry("tweetText", &self.tweet_text));
        entries.push(texts_entry("urls", &self.urls));
        entries.push(texts_entry("mediaUrls", &self.media_urls));
        proof {
            assert(entry_models(entries@) =~= Self::written(self@)->Object_0);
        }
        Json::object(entries)
    }
}

/// The advertiser, as far as the export names it.
#[derive(Clone, Debug, PartialEq, Eq)]
pub struct AdvertiserInfo {
    /// The entry `advertiserName`, left out where there is none.
    pub advertiser_name: Option<String>,
    /// The entry `screenName`, left out where there is none.
    pub screen_name: Option<String>,
}

/// What a value of [`AdvertiserInfo`] holds.
pub struct AdvertiserInfoModel {
    pub advertiser_name: Option<Seq<char>>,
    pub screen_name: Option<Seq<char>>,
}

impl View for AdvertiserInfo {
    type V = AdvertiserInfoModel;

    open spec fn view(&self) -> AdvertiserInfoModel {
        AdvertiserInfoModel {
            advertiser_name: optional_text(self.advertiser_name),
            screen_name: optional_text(self.screen_name),
        }
    }
}

impl AdvertiserInfo {
    /// The places of the entries of a record, in the order in which they
    /// are written, each with the value that writes its field.
    pub open spec fn slots(record: AdvertiserInfoModel) -> Seq<(Seq<char>, Option<JsonModel>)> {
        seq![
            ("advertiserName"@, optional_text_value(record.advertiser_name)),
            ("screenName"@, optional_text_value(record.screen_name)),
        ]
    }

    /// The places of the entries of a record, each with the value that
    /// `entries` has under its key.
    pub open spec fn slots_of(entries: Seq<(Seq<char>, JsonModel)>) -> Seq<
        (Seq<char>, Option<JsonModel>),
    > {
        seq![
            ("advertiserName"@, lookup(entries, "advertiserName"@)),
            ("screenName"@, lookup(entries, "screenName"@)),
        ]
    }

    /// No two of the keys are the same.
    proof fn lemma_keys_differ()
        ensures
            "advertiserName"@ != "screenName"@,
    {
        reveal_strlit("advertiserName");
        reveal_strlit("screenName");
        assert("advertiserName"@.len() == 14);
        assert("screenName"@.len() == 10);
    }

    /// The entries that write a record are as many as its fields that
    /// have a value, and each is found under its key.
    proof fn lemma_written(record: AdvertiserInfoModel)
        ensures
            filled(Self::slots(record)).len() == 0
                + count(optional_text_value(record.advertiser_name))
                + count(optional_text_value(record.screen_name)),
            lookup(filled(Self::slots(record)), "advertiserName"@)
                == optional_text_value(record.advertiser_name),
            lookup(filled(Self::slots(record)), "screenName"@)
                == optional_text_value(record.screen_name),
            filled(Self::slots(record)) == Seq::<(Seq<char>, JsonModel)>::empty()
                + entry_of("advertiserName"@, optional_text_value(record.advertiser_name))
                + entry_of("screenName"@, optional_text_value(record.screen_name)),
    {
        let slots = Self::slots(record);
        Self::lemma_keys_differ();
        let s0 = Seq::<(Seq<char>, Option<JsonModel>)>::empty();
        let s1 = s0.push(slots[0]);
        lemma_filled_push(s0, slots[0].0, slots[0].1);
        let s2 = s1.push(slots[1]);
        lemma_filled_push(s1, slots[1].0, slots[1].1);
        assert(s2 =~= slots);
        assert(distinct_keys(slots));
        lemma_filled_lookup(slots, 0);
        lemma_filled_lookup(slots, 1);
    }
}

impl Record for AdvertiserInfo {
    open spec fn read(value: JsonModel) -> Option<AdvertiserInfoModel> {
        match value {
            JsonModel::Object(entries) => if entries.len() == 0
                + count(lookup(entries, "advertiserName"@))
                + count(lookup(entries, "screenName"@))
                && optional_text_at(entries, "advertiserName"@).is_some()
                && optional_text_at(entries, "screenName"@).is_some()
            {
                Some(
                    AdvertiserInfoModel {
                        advertiser_name: optional_text_at(entries, "advertiserName"@).unwrap(),
                        screen_name: optional_text_at(entries, "screenName"@).unwrap(),
                    },
                )
            } else {
                None
            },
            _ => None,
        }
    }

    open spec fn written(record: AdvertiserInfoModel) -> JsonModel {
        JsonModel::Object(filled(Self::slots(record)))
    }

    open spec fn is_writable(record: AdvertiserInfoModel) -> bool {
        true
    }

    open spec fn is_canonical(value: JsonModel) -> bool {
        &&& value is Object
        &&& value->Object_0 == filled(Self::slots_of(value->Object_0))
    }

    proof fn written_is_read_back(record: AdvertiserInfoModel) {
        let entries = filled(Self::slots(record));
        Self::lemma_written(record);
        assert(Self::slots_of(entries) =~= Self::slots(record));
    }

    proof fn read_is_written_back(value: JsonModel) {
        let entries = value->Object_0;
        assert(Self::slots(Self::read(value).unwrap()) =~= Self::slots_of(entries));
    }

    fn decode(value: &Json) -> (r: Option<AdvertiserInfo>) {
        let entries = match value.as_object() {
            Some(entries) => entries,
            None => {
                return None;
            },
        };
        let advertiser_name = read_optional_text(entries, "advertiserName");
        let screen_name = read_optional_text(entries, "screenName");
        if advertiser_name.is_none() || screen_name.is_none() {
            return None;
        }
        let advertiser_name = advertiser_name.unwrap();
        let screen_name = screen_name.unwrap();
        let mut wanted: usize = 0;
        if advertiser_name.is_some() {
            wanted += 1;
        }
        if screen_name.is_some() {
            wanted += 1;
        }
        if entries.len() != wanted {
            return None;
        }
        Some(AdvertiserInfo { advertiser_name, screen_name })
    }

    fn encode(&self) -> (r: Json) {
        let mut entries: Vec<(String, Json)> = Vec::new();
        proof {
            assert(entry_models(entries@) =~= Seq::empty());
        }
        push_slot(
            &mut entries,
            match &self.advertiser_name {
                Some(held) => Some(text_entry("advertiserName", held)),
                None => None,
            },
        );
        push_slot(
            &mut entries,
            match &self.screen_name {
                Some(held) => Some(text_entry("screenName", held)),
                None => None,
            },
        );
        proof {
            Self::lemma_written(self@);
        }
        Json::object(entries)
    }
}

/// One reason for which an advertisement was shown to this account.
#[derive(Clone, Debug, PartialEq, Eq)]
pub struct TargetingCriteria {
    /// The entry `targetingType`.
    pub targeting_type: String,
    /// The entry `targetingValue`, left out where there is none.
    pub targeting_value: Option<String>,
}

/// What a value of [`TargetingCriteria`] holds.
pub struct TargetingCriteriaModel {
    pub targeting_type: Seq<char>,
    pub targeting_value: Option<Seq<char>>,
}

impl View for TargetingCriteria {
    type V = TargetingCriteriaModel;

    open spec fn view(&self) -> TargetingCriteriaModel {
        TargetingCriteriaModel {
            targeting_type: self.targeting_type@,
            targeting_value: optional_text(self.targeting_value),
        }
    }
}

impl TargetingCriteria {
    /// The places of the entries of a record, in the order in which they
    /// are written, each with the value that writes its field.
    pub open spec fn slots(record: TargetingCriteriaModel) -> Seq<(Seq<char>, Option<JsonModel>)> {
        seq![
            ("targetingType"@, Some(JsonModel::Text(record.targeting_type))),
            ("targetingValue"@, optional_text_value(record.targeting_value)),
        ]
    }

    /// The places of the entries of a record, each with the value that
    /// `entries` has under its key.
    pub open spec fn slots_of(entries: Seq<(Seq<char>, JsonModel)>) -> Seq<
        (Seq<char>, Option<JsonModel>),
    > {
        seq![
            ("targetingType"@, lookup(entries, "targetingType"@)),
            ("targetingValue"@, lookup(entries, "targetingValue"@)),
        ]
    }

    /// No two of the keys are the same.
    proof fn lemma_keys_differ()
        ensures
            "targetingType"@ != "targetingValue"@,
    {
        reveal_strlit("targetingType");
        reveal_strlit("targetingValue");
        assert("targetingType"@.len() == 13);
        assert("targetingValue"@.len() == 14);
    }

    /// The entries that write a record are as many as its fields that
    /// have a value, and each is found under its key.
    proof fn lemma_written(record: TargetingCriteriaModel)
        ensures
            filled(Self::slots(record)).len() == 1
                + count(optional_text_value(record.targeting_value)),
            lookup(filled(Self::slots(record)), "targetingType"@)
                == Some(JsonModel::Text(record.targeting_type)),
            lookup(filled(Self::slots(record)), "targetingValue"@)
                == optional_text_value(record.targeting_value),
            filled(Self::slots(record)) == Seq::<(Seq<char>, JsonModel)>::empty()
                + entry_of("targetingType"@, Some(JsonModel::Text(record.targeting_type)))
                + entry_of("targetingValue"@, optional_text_value(record.targeting_value)),
    {
        let slots = Self::slots(record);
        Self::lemma_keys_differ();
        let s0 = Seq::<(Seq<char>, Option<JsonModel>)>::empty();
        let s1 = s0.push(slots[0]);
        lemma_filled_push(s0, slots[0].0, slots[0].1);
        let s2 = s1.push(slots[1]);
        lemma_filled_push(s1, slots[1].0, slots[1].1);
        assert(s2 =~= slots);
        assert(distinct_keys(slots));
        lemma_filled_lookup(slots, 0);
        lemma_filled_lookup(slots, 1);
    }
}

impl Record for TargetingCriteria {
    open spec fn read(value: JsonModel) -> Option<TargetingCriteriaModel> {
        match value {
            JsonModel::Object(entries) => if entries.len() == 1
                + count(lookup(entries, "targetingValue"@))
                && text_at(entries, "targetingType"@).is_some()
                && optional_text_at(entries, "targetingValue"@).is_some()
            {
                Some(
                    TargetingCriteriaModel {
                        targeting_type: text_at(entries, "targetingType"@).unwrap(),
                        targeting_value: optional_text_at(entries, "targetingValue"@).unwrap(),
                    },
                )
            } else {
                None
            },
            _ => None,
        }
    }

    open spec fn written(record: TargetingCriteriaModel) -> JsonModel {
        JsonModel::Object(filled(Self::slots(record)))
    }

    open spec fn is_writable(record: TargetingCriteriaModel) -> bool {
        true
    }

    open spec fn is_canonical(value: JsonModel) -> bool {
        &&& value is Object
        &&& value->Object_0 == filled(Self::slots_of(value->Object_0))
    }

    proof fn written_is_read_back(record: TargetingCriteriaModel) {
        let entries = filled(Self::slots(record));
        Self::lemma_written(record);
        assert(Self::slots_of(entries) =~= Self::slots(record));
    }

    proof fn read_is_written_back(value: JsonModel) {
        let entries = value->Object_0;
        assert(Self::slots(Self::read(value).unwrap()) =~= Self::slots_of(entries));
    }

    fn decode(value: &Json) -> (r: Option<TargetingCriteria>) {
        let entries = match value.as_object() {
            Some(entries) => entries,
            None => {
                return None;
            },
        };
        let targeting_type = read_text(entries, "targetingType");
        let targeting_value = read_optional_text(entries, "targetingValue");
        if targeting_type.is_none() || targeting_value.is_none() {
            return None;
        }
        let targeting_type = targeting_type.unwrap();
        let targeting_value = targeting_value.unwrap();
        let mut wanted: usize = 1;
        if targeting_value.is_some() {
            wanted += 1;
        }
        if entries.len() != wanted {
            return None;
        }
        Some(TargetingCriteria { targeting_type, targeting_value })
    }

    fn encode(&self) -> (r: Json) {
        let mut entries: Vec<(String, Json)> = Vec::new();
        proof {
            assert(entry_models(entries@) =~= Seq::empty());
        }
        push_slot(&mut entries, Some(text_entry("targetingType", &self.targeting_type)));
        push_slot(
            &mut entries,
            match &self.targeting_value {
                Some(held) => Some(text_entry("targetingValue", held)),
                None => None,
            },
        );
        proof {
            Self::lemma_written(self@);
        }
        Json::object(entries)
    }
}

} // verus!
