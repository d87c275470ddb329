//! The records of the file `data/ad-impressions.js`.

use vstd::prelude::*;
use crate::envelope;
use crate::json::{entry_models, lemma_lookup_at, Json, JsonModel};
use crate::record;
use crate::record::{read_records, record_models, records_entry, Record};
use crate::structs::ad::{Impression, ImpressionModel};

verus! {

/// An envelope: an object of the one entry `ad`, which holds a [`Ad`].
#[derive(Clone, Debug, PartialEq, Eq)]
pub struct AdObject {
    /// The entry `ad`.
    pub ad: Ad,
}

/// What a value of [`AdObject`] holds.
pub struct AdObjectModel {
    pub ad: AdModel,
}

impl View for AdObject {
    type V = AdObjectModel;

    open spec fn view(&self) -> AdObjectModel {
        AdObjectModel {
            ad: self.ad@,
        }
    }
}

impl Record for AdObject {
    open spec fn read(value: JsonModel) -> Option<AdObjectModel> {
        match envelope::opened(value, "ad"@) {
            Some(inner) => match Ad::read(inner) {
                Some(ad) => Some(AdObjectModel { ad }),
                None => None,
            },
            None => None,
        }
    }

    open spec fn written(record: AdObjectModel) -> JsonModel {
        envelope::sealed("ad"@, Ad::written(record.ad))
    }

    open spec fn is_writable(record: AdObjectModel) -> bool {
        Ad::is_writable(record.ad)
    }

    open spec fn is_canonical(value: JsonModel) -> bool {
        match envelope::opened(value, "ad"@) {
            Some(inner) => Ad::is_canonical(inner),
            None => false,
        }
    }

    proof fn written_is_read_back(record: AdObjectModel) {
        Ad::written_is_read_back(record.ad);
    }

    proof fn read_is_written_back(value: JsonModel) {
        Ad::read_is_written_back(envelope::opened(value, "ad"@).unwrap());
        envelope::open_then_seal(value, "ad"@);
    }

    fn decode(value: &Json) -> (r: Option<AdObject>) {
        match envelope::open(value, "ad") {
            Ok(inner) => match Ad::decode(inner) {
                Some(ad) => Some(AdObject { ad }),
                None => None,
            },
            Err(_) => None,
        }
    }

    fn encode(&self) -> (r: Json) {
        envelope::seal("ad", self.ad.encode())
    }
}

/// The advertisements that this account was shown.
#[derive(Clone, Debug, PartialEq, Eq)]
pub struct Ad {
    /// The entry `adsUserData`.
    pub ads_user_data: AdsUserData,
}

/// What a value of [`Ad`] holds.
pub struct AdModel {
    pub ads_user_data: AdsUserDataModel,
}

impl View for Ad {
    type V = AdModel;

    open spec fn view(&self) -> AdModel {
        AdModel {
            ads_user_data: self.ads_user_data@,
        }
    }
}

impl Record for Ad {
    open spec fn read(value: JsonModel) -> Option<AdModel> {
        match envelope::opened(value, "adsUserData"@) {
            Some(inner) => match AdsUserData::read(inner) {
                Some(ads_user_data) => Some(AdModel { ads_user_data }),
                None => None,
            },
            None => None,
        }
    }

    open spec fn written(record: AdModel) -> JsonModel {
        envelope::sealed("adsUserData"@, AdsUserData::written(record.ads_user_data))
    }

    open spec fn is_writable(record: AdModel) -> bool {
        AdsUserData::is_writable(record.ads_user_data)
    }

    open spec fn is_canonical(value: JsonModel) -> bool {
        match envelope::opened(value, "adsUserData"@) {
            Some(inner) => AdsUserData::is_canonical(inner),
            None => false,
        }
    }

    proof fn written_is_read_back(record: AdModel) {
        AdsUserData::written_is_read_back(record.ads_user_data);
    }

    proof fn read_is_written_back(value: JsonModel) {
        AdsUserData::read_is_written_back(envelope::opened(value, "adsUserData"@).unwrap());
        envelope::open_then_seal(value, "adsUserData"@);
    }

    fn decode(value: &Json) -> (r: Option<Ad>) {
        match envelope::open(value, "adsUserData") {
            Ok(inner) => match AdsUserData::decode(inner) {
                Some(ads_user_data) => Some(Ad { ads_user_data }),
                None => None,
            },
            Err(_) => None,
        }
    }

    fn encode(&self) -> (r: Json) {
        envelope::seal("adsUserData", self.ads_user_data.encode())
    }
}

/// The advertisements that this account was shown.
#[derive(Clone, Debug, PartialEq, Eq)]
pub struct AdsUserData {
    /// The entry `adImpressions`.
    pub ad_impressions: AdImpressions,
}

/// What a value of [`AdsUserData`] holds.
pub struct AdsUserDataModel {
    pub ad_impressions: AdImpressionsModel,
}

impl View for AdsUserData {
    type V = AdsUserDataModel;

    open spec fn view(&self) -> AdsUserDataModel {
        AdsUserDataModel {
            ad_impressions: self.ad_impressions@,
        }
    }
}

impl Record for AdsUserData {
    open spec fn read(value: JsonModel) -> Option<AdsUserDataModel> {
        match envelope::opened(value, "adImpressions"@) {
            Some(inner) => match AdImpressions::read(inner) {
                Some(ad_impressions) => Some(AdsUserDataModel { ad_impressions }),
                None => None,
            },
            None => None,
        }
    }

    open spec fn written(record: AdsUserDataModel) -> JsonModel {
        envelope::sealed("adImpressions"@, AdImpressions::written(record.ad_impressions))
    }

    open spec fn is_writable(record: AdsUserDataModel) -> bool {
        AdImpressions::is_writable(record.ad_impressions)
    }

    open spec fn is_canonical(value: JsonModel) -> bool {
        match envelope::opened(value, "adImpressions"@) {
            Some(inner) => AdImpressions::is_canonical(inner),
            None => false,
        }
    }

    proof fn written_is_read_back(record: AdsUserDataModel) {
        AdImpressions::written_is_read_back(record.ad_impressions);
    }

    proof fn read_is_written_back(value: JsonModel) {
        AdImpressions::read_is_written_back(envelope::opened(value, "adImpressions"@).unwrap());
        envelope::open_then_seal(value, "adImpressions"@);
    }

    fn decode(value: &Json) -> (r: Option<AdsUserData>) {
        match envelope::open(value, "adImpressions") {
            Ok(inner) => match AdImpressions::decode(inner) {
                Some(ad_impressions) => Some(AdsUserData { ad_impressions }),
                None => None,
            },
            Err(_) => None,
        }
    }

    fn encode(&self) -> (r: Json) {
        envelope::seal("adImpressions", self.ad_impressions.encode())
    }
}

/// The showings of advertisements, one after the other.
#[derive(Clone, Debug, PartialEq, Eq)]
pub struct AdImpressions {
    /// The entry `impressions`.
    pub impressions: Vec<Impression>,
}

/// What a value of [`AdImpressions`] holds.
pub struct AdImpressionsModel {
    pub impressions: Seq<ImpressionModel>,
}

impl View for AdImpressions {
    type V = AdImpressionsModel;

    open spec fn view(&self) -> AdImpressionsModel {
        AdImpressionsModel {
            impressions: record_models(self.impressions@),
        }
    }
}

impl Record for AdImpressions {
    open spec fn read(value: JsonModel) -> Option<AdImpressionsModel> {
        match value {
            JsonModel::Object(entries) => if entries.len() == 1
                && record::records_at::<Impression>(entries, "impressions"@).is_some()
            {
                Some(
                    AdImpressionsModel {
                        impressions: record::records_at::<Impression>(
                            entries,
                            "impressions"@,
                        ).unwrap(),
                    },
                )
            } else {
                None
            },
            _ => None,
        }
    }

    open spec fn written(record: AdImpressionsModel) -> JsonModel {
        JsonModel::Object(
            seq![
                ("impressions"@, record::records_value::<Impression>(record.impressions)),
            ],
        )
    }

    open spec fn is_writable(record: AdImpressionsModel) -> bool {
        &&& record::all_writable::<Impression>(record.impressions)
    }

    open spec fn is_canonical(value: JsonModel) -> bool {
        &&& value is Object
        &&& value->Object_0.len() == 1
        &&& value->Object_0[0].0 == "impressions"@
        &&& record::all_canonical::<Impression>(value->Object_0[0].1)
    }

    proof fn written_is_read_back(record: AdImpressionsModel) {
        let entries = Self::written(record)->Object_0;
        lemma_lookup_at(entries, 0);
        record::lemma_records_value::<Impression>(record.impressions);
    }

    proof fn read_is_written_back(value: JsonModel) {
        let entries = value->Object_0;
        lemma_lookup_at(entries, 0);
        record::lemma_records_of::<Impression>(entries[0].1);
        assert(Self::written(Self::read(value).unwrap())->Object_0 =~= entries);
    }

    fn decode(value: &Json) -> (r: Option<AdImpressions>) {
        let entries = match value.as_object() {
            Some(entries) => entries,
            None => {
                return None;
            },
        };
        if entries.len() != 1 {
            return None;
        }
        let impressions = match read_records::<Impression>(entries, "impressions") {
            Some(found) => found,
            None => {
                return None;
            },
        };
        Some(AdImpressions { impressions })
    }

    fn encode(&self) -> (r: Json) {
        let mut entries: Vec<(String, Json)> = Vec::new();
        entries.push(records_entry("impressions", &self.impressions));
        proof {
            assert(entry_models(entries@) =~= Self::written(self@)->Object_0);
        }
        Json::object(entries)
    }
}

} // verus!
