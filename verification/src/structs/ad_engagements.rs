//! The records of the file `data/ad-engagements.js`.

use vstd::prelude::*;
use vstd::string::*;
use crate::envelope;
use crate::instant::{Civil, Instant};
use crate::json::{entry_models, lemma_lookup_at, Json, JsonModel};
use crate::record;
use crate::record::{
    lemma_second_at, lemma_second_value, read_record, read_records, read_second, read_text,
    record_at, record_entry, record_models, records_entry, second_at, second_canonical,
    second_entry, second_value, second_writable, text_at, text_entry, Record,
};
use crate::structs::ad::{Impression, ImpressionModel};

verus! {

/// An envelope: an object of the one entry `ad`, which holds a [`Ad`].
#[derive(Clone, Debug, PartialEq, Eq)]
pub struct AdObject {
    /// The entry `ad`.
    pub ad: Ad,
}

/// What a value of [`AdObject`] holds.
pub struct AdObjectModel {
    pub ad: AdModel,
}

impl View for AdObject {
    type V = AdObjectModel;

    open spec fn view(&self) -> AdObjectModel {
        AdObjectModel {
            ad: self.ad@,
        }
    }
}

impl Record for AdObject {
    open spec fn read(value: JsonModel) -> Option<AdObjectModel> {
        match envelope::opened(value, "ad"@) {
            Some(inner) => match Ad::read(inner) {
                Some(ad) => Some(AdObjectModel { ad }),
                None => None,
            },
            None => None,
        }
    }

    open spec fn written(record: AdObjectModel) -> JsonModel {
        envelope::sealed("ad"@, Ad::written(record.ad))
    }

    open spec fn is_writable(record: AdObjectModel) -> bool {
        Ad::is_writable(record.ad)
    }

    open spec fn is_canonical(value: JsonModel) -> bool {
        match envelope::opened(value, "ad"@) {
            Some(inner) => Ad::is_canonical(inner),
            None => false,
        }
    }

    proof fn written_is_read_back(record: AdObjectModel) {
        Ad::written_is_read_back(record.ad);
    }

    proof fn read_is_written_back(value: JsonModel) {
        Ad::read_is_written_back(envelope::opened(value, "ad"@).unwrap());
        envelope::open_then_seal(value, "ad"@);
    }

    fn decode(value: &Json) -> (r: Option<AdObject>) {
        match envelope::open(value, "ad") {
            Ok(inner) => match Ad::decode(inner) {
                Some(ad) => Some(AdObject { ad }),
                None => None,
            },
            Err(_) => None,
        }
    }

    fn encode(&self) -> (r: Json) {
        envelope::seal("ad", self.ad.encode())
    }
}

/// The advertisements that this account engaged with.
#[derive(Clone, Debug, PartialEq, Eq)]
pub struct Ad {
    /// The entry `adsUserData`.
    pub ads_user_data: AdsUserData,
}

/// What a value of [`Ad`] holds.
pub struct AdModel {
    pub ads_user_data: AdsUserDataModel,
}

impl View for Ad {
    type V = AdModel;

    open spec fn view(&self) -> AdModel {
        AdModel {
            ads_user_data: self.ads_user_data@,
        }
    }
}

impl Record for Ad {
    open spec fn read(value: JsonModel) -> Option<AdModel> {
        match envelope::opened(value, "adsUserData"@) {
            Some(inner) => match AdsUserData::read(inner) {
                Some(ads_user_data) => Some(AdModel { ads_user_data }),
                None => None,
            },
            None => None,
        }
    }

    open spec fn written(record: AdModel) -> JsonModel {
        envelope::sealed("adsUserData"@, AdsUserData::written(record.ads_user_data))
    }

    open spec fn is_writable(record: AdModel) -> bool {
        AdsUserData::is_writable(record.ads_user_data)
    }

    open spec fn is_canonical(value: JsonModel) -> bool {
        match envelope::opened(value, "adsUserData"@) {
            Some(inner) => AdsUserData::is_canonical(inner),
            None => false,
        }
    }

    proof fn written_is_read_back(record: AdModel) {
        AdsUserData::written_is_read_back(record.ads_user_data);
    }

    proof fn read_is_written_back(value: JsonModel) {
        AdsUserData::read_is_written_back(envelope::opened(value, "adsUserData"@).unwrap());
        envelope::open_then_seal(value, "adsUserData"@);
    }

    fn decode(value: &Json) -> (r: Option<Ad>) {
        match envelope::open(value, "adsUserData") {
            Ok(inner) => match AdsUserData::decode(inner) {
                Some(ads_user_data) => Some(Ad { ads_user_data }),
                None => None,
            },
            Err(_) => None,
        }
    }

    fn encode(&self) -> (r: Json) {
        envelope::seal("adsUserData", self.ads_user_data.encode())
    }
}

/// The advertisements that this account engaged with.
#[derive(Clone, Debug, PartialEq, Eq)]
pub struct AdsUserData {
    /// The entry `adEngagements`.
    pub ad_engagements: AdEngagements,
}

/// What a value of [`AdsUserData`] holds.
pub struct AdsUserDataModel {
    pub ad_engagements: AdEngagementsModel,
}

impl View for AdsUserData {
    type V = AdsUserDataModel;

    open spec fn view(&self) -> AdsUserDataModel {
        AdsUserDataModel {
            ad_engagements: self.ad_engagements@,
        }
    }
}

impl Record for AdsUserData {
    open spec fn read(value: JsonModel) -> Option<AdsUserDataModel> {
        match envelope::opened(value, "adEngagements"@) {
            Some(inner) => match AdEngagements::read(inner) {
                Some(ad_engagements) => Some(AdsUserDataModel { ad_engagements }),
                None => None,
            },
            None => None,
        }
    }

    open spec fn written(record: AdsUserDataModel) -> JsonModel {
        envelope::sealed("adEngagements"@, AdEngagements::written(record.ad_engagements))
    }

    open spec fn is_writable(record: AdsUserDataModel) -> bool {
        AdEngagements::is_writable(record.ad_engagements)
    }

    open spec fn is_canonical(value: JsonModel) -> bool {
        match envelope::opened(value, "adEngagements"@) {
            Some(inner) => AdEngagements::is_canonical(inner),
            None => false,
        }
    }

    proof fn written_is_read_back(record: AdsUserDataModel) {
        AdEngagements::written_is_read_back(record.ad_engagements);
    }

    proof fn read_is_written_back(value: JsonModel) {
        AdEngagements::read_is_written_back(envelope::opened(value, "adEngagements"@).unwrap());
        envelope::open_then_seal(value, "adEngagements"@);
    }

    fn decode(value: &Json) -> (r: Option<AdsUserData>) {
        match envelope::open(value, "adEngagements") {
            Ok(inner) => match AdEngagements::decode(inner) {
                Some(ad_engagements) => Some(AdsUserData { ad_engagements }),
                None => None,
            },
            Err(_) => None,
        }
    }

    fn encode(&self) -> (r: Json) {
        envelope::seal("adEngagements", self.ad_engagements.encode())
    }
}

/// The engagements with advertisements, one after the other.
#[derive(Clone, Debug, PartialEq, Eq)]
pub struct AdEngagements {
    /// The entry `engagements`.
    pub engagements: Vec<Engagement>,
}

/// What a value of [`AdEngagements`] holds.
pub struct AdEngagementsModel {
    pub engagements: Seq<EngagementModel>,
}

impl View for AdEngagements {
    type V = AdEngagementsModel;

    open spec fn view(&self) -> AdEngagementsModel {
        AdEngagementsModel {
            engagements: record_models(self.engagements@),
        }
    }
}

impl Record for AdEngagements {
    open spec fn read(value: JsonModel) -> Option<AdEngagementsModel> {
        match value {
            JsonModel::Object(entries) => if entries.len() == 1
                && record::records_at::<Engagement>(entries, "engagements"@).is_some()
            {
                Some(
                    AdEngagementsModel {
                        engagements: record::records_at::<Engagement>(
                            entries,
                            "engagements"@,
                        ).unwrap(),
                    },
                )
            } else {
                None
            },
            _ => None,
        }
    }

    open spec fn written(record: AdEngagementsModel) -> JsonModel {
        JsonModel::Object(
            seq![
                ("engagements"@, record::records_value::<Engagement>(record.engagements)),
            ],
        )
    }

    open spec fn is_writable(record: AdEngagementsModel) -> bool {
        &&& record::all_writable::<Engagement>(record.engagements)
    }

    open spec fn is_canonical(value: JsonModel) -> bool {
        &&& value is Object
        &&& value->Object_0.len() == 1
        &&& value->Object_0[0].0 == "engagements"@
        &&& record::all_canonical::<Engagement>(value->Object_0[0].1)
    }

    proof fn written_is_read_back(record: AdEngagementsModel) {
        let entries = Self::written(record)->Object_0;
        lemma_lookup_at(entries, 0);
        record::lemma_records_value::<Engagement>(record.engagements);
    }

    proof fn read_is_written_back(value: JsonModel) {
        let entries = value->Object_0;
        lemma_lookup_at(entries, 0);
        record::lemma_records_of::<Engagement>(entries[0].1);
        assert(Self::written(Self::read(value).unwrap())->Object_0 =~= entries);
    }

    fn decode(value: &Json) -> (r: Option<AdEngagements>) {
        let entries = match value.as_object() {
            Some(entries) => entries,
            None => {
                return None;
            },
        };
        if entries.len() != 1 {
            return None;
        }
        let engagements = match read_records::<Engagement>(entries, "engagements") {
            Some(found) => found,
            None => {
                return None;
            },
        };
        Some(AdEngagements { engagements })
    }

    fn encode(&self) -> (r: Json) {
        let mut entries: Vec<(String, Json)> = Vec::new();
        entries.push(records_entry("engagements", &self.engagements));
        proof {
            assert(entry_models(entries@) =~= Self::written(self@)->Object_0);
        }
        Json::object(entries)
    }
}

/// The engagements with one showing of an advertisement.
#[derive(Clone, Debug, PartialEq, Eq)]
pub struct Engagement {
    /// The entry `impressionAttributes`.
    pub impression_attributes: Impression,
    /// The entry `engagementAttributes`.
    pub engagement_attributes: Vec<EngagementAttributes>,
}

/// What a value of [`Engagement`] holds.
pub struct EngagementModel {
    pub impression_attributes: ImpressionModel,
    pub engagement_attributes: Seq<EngagementAttributesModel>,
}

impl View for Engagement {
    type V = EngagementModel;

    open spec fn view(&self) -> EngagementModel {
        EngagementModel {
            impression_attributes: self.impression_attributes@,
            engagement_attributes: record_models(self.engagement_attributes@),
        }
    }
}

impl Engagement {
    /// No two of the keys are the same.
    proof fn lemma_keys_differ()
        ensures
            "impressionAttributes"@ != "engagementAttributes"@,
    {
        reveal_strlit("impressionAttributes");
        reveal_strlit("engagementAttributes");
        assert("impressionAttributes"@.len() == 20);
        assert("engagementAttributes"@.len() == 20);
        assert("impressionAttributes"@[0] != "engagementAttributes"@[0]);
    }
}

impl Record for Engagement {
    open spec fn read(value: JsonModel) -> Option<EngagementModel> {
        match value {
            JsonModel::Object(entries) => if entries.len() == 2
                && record_at::<Impression>(entries, "impressionAttributes"@).is_some()
                && record::records_at::<EngagementAttributes>(
                    entries,
                    "engagementAttributes"@,
                ).is_some()
            {
                Some(
                    EngagementModel {
                        impression_attributes: record_at::<Impression>(
                            entries,
                            "impressionAttributes"@,
                        ).unwrap(),
                        engagement_attributes: record::records_at::<EngagementAttributes>(
                            entries,
                            "engagementAttributes"@,
                        ).unwrap(),
                    },
                )
            } else {
                None
            },
            _ => None,
        }
    }

    open spec fn written(record: EngagementModel) -> JsonModel {
        JsonModel::Object(
            seq![
                ("impressionAttributes"@, Impression::written(record.impression_attributes)),
                (
                    "engagementAttributes"@,
                    record::records_value::<EngagementAttributes>(record.engagement_attributes),
                ),
            ],
        )
    }

    open spec fn is_writable(record: EngagementModel) -> bool {
        &&& Impression::is_writable(record.impression_attributes)
        &&& record::all_writable::<EngagementAttributes>(record.engagement_attributes)
    }

    open spec fn is_canonical(value: JsonModel) -> bool {
        &&& value is Object
        &&& value->Object_0.len() == 2
        &&& value->Object_0[0].0 == "impressionAttributes"@
        &&& value->Object_0[1].0 == "engagementAttributes"@
        &&& Impression::is_canonical(value->Object_0[0].1)
        &&& record::all_canonical::<EngagementAttributes>(value->Object_0[1].1)
    }

    proof fn written_is_read_back(record: EngagementModel) {
        let entries = Self::written(record)->Object_0;
        Self::lemma_keys_differ();
        lemma_lookup_at(entries, 0);
        lemma_lookup_at(entries, 1);
        Impression::written_is_read_back(record.impression_attributes);
        record::lemma_records_value::<EngagementAttributes>(record.engagement_attributes);
    }

    proof fn read_is_written_back(value: JsonModel) {
        let entries = value->Object_0;
        Self::lemma_keys_differ();
        lemma_lookup_at(entries, 0);
        lemma_lookup_at(entries, 1);
        Impression::read_is_written_back(entries[0].1);
        record::lemma_records_of::<EngagementAttributes>(entries[1].1);
        assert(Self::written(Self::read(value).unwrap())->Object_0 =~= entries);
    }

    fn decode(value: &Json) -> (r: Option<Engagement>) {
        let entries = match value.as_object() {
            Some(entries) => entries,
            None => {
                return None;
            },
        };
        if entries.len() != 2 {
            return None;
        }
        let impression_attributes = match read_record::<Impression>(
            entries,
            "impressionAttributes",
        ) {
            Some(found) => found,
            None => {
                return None;
            },
        };
        let engagement_attributes = match read_records::<EngagementAttributes>(
            entries,
            "engagementAttributes",
        ) {
            Some(found) => found,
            None => {
                return None;
            },
        };
        Some(Engagement { impression_attributes, engagement_attributes })
    }

    fn encode(&self) -> (r: Json) {
        let mut entries: Vec<(String, Json)> = Vec::new();
        entries.push(record_entry("impressionAttributes", &self.impression_attributes));
        entries.push(records_entry("engagementAttributes", &self.engagement_attributes));
        proof {
            assert(entry_models(entries@) =~= Self::written(self@)->Object_0);
        }
        Json::object(entries)
    }
}

/// What this account did with an advertisement, and when.
#[derive(Clone, Debug, PartialEq, Eq)]
pub struct EngagementAttributes {
    /// The entry `engagementTime`, in the encoding of
    /// `convert::date_year_month_day_hour_minute_second`.
    pub engagement_time: Instant,
    /// The entry `engagementType`.
    pub engagement_type: String,
}

/// What a value of [`EngagementAttributes`] holds.
pub struct EngagementAttributesModel {
    pub engagement_time: Civil,
    pub engagement_type: Seq<char>,
}

impl View for EngagementAttributes {
    type V = EngagementAttributesModel;

    open spec fn view(&self) -> EngagementAttributesModel {
        EngagementAttributesModel {
            engagement_time: self.engagement_time@,
            engagement_type: self.engagement_type@,
        }
    }
}

impl EngagementAttributes {
    /// No two of the keys are the same.
    proof fn lemma_keys_differ()
        ensures
            "engagementTime"@ != "engagementType"@,
    {
        reveal_strlit("engagementTime");
        reveal_strlit("engagementType");
        assert("engagementTime"@.len() == 14);
        assert("engagementType"@.len() == 14);
        assert("engagementTime"@[11] != "engagementType"@[11]);
    }
}

impl Record for EngagementAttributes {
    open spec fn read(value: JsonModel) -> Option<EngagementAttributesModel> {
        match value {
            JsonModel::Object(entries) => if entries.len() == 2
                && second_at(entries, "engagementTime"@).is_some()
                && text_at(entries, "engagementType"@).is_some()
            {
                Some(
                    EngagementAttributesModel {
                        engagement_time: second_at(entries, "engagementTime"@).unwrap(),
                        engagement_type: text_at(entries, "engagementType"@).unwrap(),
                    },
                )
            } else {
                None
            },
            _ => None,
        }
    }

    open spec fn written(record: EngagementAttributesModel) -> JsonModel {
        JsonModel::Object(
            seq![
                ("engagementTime"@, second_value(record.engagement_time)),
                ("engagementType"@, JsonModel::Text(record.engagement_type)),
            ],
        )
    }

    open spec fn is_writable(record: EngagementAttributesModel) -> bool {
        &&& second_writable(record.engagement_time)
    }

    open spec fn is_canonical(value: JsonModel) -> bool {
        &&& value is Object
        &&& value->Object_0.len() == 2
        &&& value->Object_0[0].0 == "engagementTime"@
        &&& value->Object_0[1].0 == "engagementType"@
        &&& second_canonical(value->Object_0[0].1)
    }

    proof fn written_is_read_back(record: EngagementAttributesModel) {
        let entries = Self::written(record)->Object_0;
        Self::lemma_keys_differ();
        lemma_lookup_at(entries, 0);
        lemma_lookup_at(entries, 1);
        lemma_second_value(entries, "engagementTime"@, record.engagement_time);
    }

    proof fn read_is_written_back(value: JsonModel) {
        let entries = value->Object_0;
        Self::lemma_keys_differ();
        lemma_lookup_at(entries, 0);
        lemma_lookup_at(entries, 1);
        lemma_second_at(entries, "engagementTime"@);
        assert(Self::written(Self::read(value).unwrap())->Object_0 =~= entries);
    }

    fn decode(value: &Json) -> (r: Option<EngagementAttributes>) {
        let entries = match value.as_object() {
            Some(entries) => entries,
            None => {
                return None;
            },
        };
        if entries.len() != 2 {
            return None;
        }
        let engagement_time = match read_second(entries, "engagementTime") {
            Some(found) => found,
            None => {
                return None;
            },
        };
        let engagement_type = match read_text(entries, "engagementType") {
            Some(found) => found,
            None => {
                return None;
            },
        };
        Some(EngagementAttributes { engagement_time, engagement_type })
    }

    fn encode(&self) -> (r: Json) {
        let mut entries: Vec<(String, Json)> = Vec::new();
        entries.push(second_entry("engagementTime", &self.engagement_time));
        entries.push(text_entry("engagementType", &self.engagement_type));
        proof {
            assert(entry_models(entries@) =~= Self::written(self@)->Object_0);
        }
        Json::object(entries)
    }
}

} // verus!
