//! The records of the file `data/personalization.js`.

use vstd::prelude::*;
use vstd::string::*;
use crate::envelope;
use crate::json::{entry_models, lemma_lookup_at, Json, JsonModel};
use crate::record;
use crate::record::{
    count, flag_at, flag_entry, lemma_number_at, lemma_number_value, lemma_texts_of,
    lemma_texts_value, number_at, number_canonical, number_entry, number_value, read_flag,
    read_number, read_record, read_records, read_text, read_texts, record_at, record_entry,
    record_models, records_entry, text_at, text_entry, texts_at, texts_entry, texts_value,
    Record,
};
use crate::text::texts;

verus! {

/// An envelope: an object of the one entry `p13nData`, which holds a
/// [`P13nData`].
#[derive(Clone, Debug, PartialEq, Eq)]
pub struct P13nDataObject {
    /// The entry `p13nData`.
    pub p13n_data: P13nData,
}

/// What a value of [`P13nDataObject`] holds.
pub struct P13nDataObjectModel {
    pub p13n_data: P13nDataModel,
}

impl View for P13nDataObject {
    type V = P13nDataObjectModel;

    open spec fn view(&self) -> P13nDataObjectModel {
        P13nDataObjectModel {
            p13n_data: self.p13n_data@,
        }
    }
}

impl Record for P13nDataObject {
    open spec fn read(value: JsonModel) -> Option<P13nDataObjectModel> {
        match envelope::opened(value, "p13nData"@) {
            Some(inner) => match P13nData::read(inner) {
                Some(p13n_data) => Some(P13nDataObjectModel { p13n_data }),
                None => None,
            },
            None => None,
        }
    }

    open spec fn written(record: P13nDataObjectModel) -> JsonModel {
        envelope::sealed("p13nData"@, P13nData::written(record.p13n_data))
    }

    open spec fn is_writable(record: P13nDataObjectModel) -> bool {
        P13nData::is_writable(record.p13n_data)
    }

    open spec fn is_canonical(value: JsonModel) -> bool {
        match envelope::opened(value, "p13nData"@) {
            Some(inner) => P13nData::is_canonical(inner),
            None => false,
        }
    }

    proof fn written_is_read_back(record: P13nDataObjectModel) {
        P13nData::written_is_read_back(record.p13n_data);
    }

    proof fn read_is_written_back(value: JsonModel) {
        P13nData::read_is_written_back(envelope::opened(value, "p13nData"@).unwrap());
        envelope::open_then_seal(value, "p13nData"@);
    }

    fn decode(value: &Json) -> (r: Option<P13nDataObject>) {
        match envelope::open(value, "p13nData") {
            Ok(inner) => match P13nData::decode(inner) {
                Some(p13n_data) => Some(P13nDataObject { p13n_data }),
                None => None,
            },
            Err(_) => None,
        }
    }

    fn encode(&self) -> (r: Json) {
        envelope::seal("p13nData", self.p13n_data.encode())
    }
}

/// What the service has gathered or guessed about the account to choose what
/// to show it.
#[derive(Clone, Debug, PartialEq, Eq)]
pub struct P13nData {
    /// The entry `demographics`.
    pub demographics: Demographics,
    /// The entry `interests`.
    pub interests: Interests,
    /// The entry `locationHistory`.
    pub location_history: Vec<String>,
    /// The entry `inferredAgeInfo`.
    pub inferred_age_info: InferredAgeInfo,
}

/// What a value of [`P13nData`] holds.
pub struct P13nDataModel {
    pub demographics: DemographicsModel,
    pub interests: InterestsModel,
    pub location_history: Seq<Seq<char>>,
    pub inferred_age_info: InferredAgeInfoModel,
}

impl View for P13nData {
    type V = P13nDataModel;

    open spec fn view(&self) -> P13nDataModel {
        P13nDataModel {
            demographics: self.demographics@,
            interests: self.interests@,
            location_history: texts(self.location_history@),
            inferred_age_info: self.inferred_age_info@,
        }
    }
}

impl P13nData {
    /// No two of the keys are the same.
    proof fn lemma_keys_differ()
        ensures
            "demographics"@ != "interests"@,
            "demographics"@ != "locationHistory"@,
            "demographics"@ != "inferredAgeInfo"@,
            "interests"@ != "locationHistory"@,
            "interests"@ != "inferredAgeInfo"@,
            "locationHistory"@ != "inferredAgeInfo"@,
    {
        reveal_strlit("demographics");
        reveal_strlit("interests");
        reveal_strlit("locationHistory");
        reveal_strlit("inferredAgeInfo");
        assert("demographics"@.len() == 12);
        assert("interests"@.len() == 9);
        assert("locationHistory"@.len() == 15);
        assert("inferredAgeInfo"@.len() == 15);
        assert("locationHistory"@[0] != "inferredAgeInfo"@[0]);
    }
}

impl Record for P13nData {
    open spec fn read(value: JsonModel) -> Option<P13nDataModel> {
        match value {
            JsonModel::Object(entries) => if entries.len() == 4
                && record_at::<Demographics>(entries, "demographics"@).is_some()
                && record_at::<Interests>(entries, "interests"@).is_some()
                && texts_at(entries, "locationHistory"@).is_some()
                && record_at::<InferredAgeInfo>(entries, "inferredAgeInfo"@).is_some()
            {
                Some(
                    P13nDataModel {
                        demographics: record_at::<Demographics>(entries, "demographics"@).unwrap(),
                        interests: record_at::<Interests>(entries, "interests"@).unwrap(),
                        location_history: texts_at(entries, "locationHistory"@).unwrap(),
                        inferred_age_info: record_at::<InferredAgeInfo>(
                            entries,
                            "inferredAgeInfo"@,
                        ).unwrap(),
                    },
                )
            } else {
                None
            },
            _ => None,
        }
    }

    open spec fn written(record: P13nDataModel) -> JsonModel {
        JsonModel::Object(
            seq![
                ("demographics"@, Demographics::written(record.demographics)),
                ("interests"@, Interests::written(record.interests)),
                ("locationHistory"@, texts_value(record.location_history)),
                ("inferredAgeInfo"@, InferredAgeInfo::written(record.inferred_age_info)),
            ],
        )
    }

    open spec fn is_writable(record: P13nDataModel) -> bool {
        &&& Demographics::is_writable(record.demographics)
        &&& Interests::is_writable(record.interests)
        &&& InferredAgeInfo::is_writable(record.inferred_age_info)
    }

    open spec fn is_canonical(value: JsonModel) -> bool {
        &&& value is Object
        &&& value->Object_0.len() == 4
        &&& value->Object_0[0].0 == "demographics"@
        &&& value->Object_0[1].0 == "interests"@
        &&& value->Object_0[2].0 == "locationHistory"@
        &&& value->Object_0[3].0 == "inferredAgeInfo"@
        &&& Demographics::is_canonical(value->Object_0[0].1)
        &&& Interests::is_canonical(value->Object_0[1].1)
        &&& InferredAgeInfo::is_canonical(value->Object_0[3].1)
    }

    proof fn written_is_read_back(record: P13nDataModel) {
        let entries = Self::written(record)->Object_0;
        Self::lemma_keys_differ();
        lemma_lookup_at(entries, 0);
        lemma_lookup_at(entries, 1);
        lemma_lookup_at(entries, 2);
        lemma_lookup_at(entries, 3);
        Demographics::written_is_read_back(record.demographics);
        Interests::written_is_read_back(record.interests);
        lemma_texts_value(record.location_history);
        InferredAgeInfo::written_is_read_back(record.inferred_age_info);
    }

    proof fn read_is_written_back(value: JsonModel) {
        let entries = value->Object_0;
        Self::lemma_keys_differ();
        lemma_lookup_at(entries, 0);
        lemma_lookup_at(entries, 1);
        lemma_lookup_at(entries, 2);
        lemma_lookup_at(entries, 3);
        Demographics::read_is_written_back(entries[0].1);
        Interests::read_is_written_back(entries[1].1);
        lemma_texts_of(entries[2].1);
        InferredAgeInfo::read_is_written_back(entries[3].1);
        assert(Self::written(Self::read(value).unwrap())->Object_0 =~= entries);
    }

    fn decode(value: &Json) -> (r: Option<P13nData>) {
        let entries = match value.as_object() {
            Some(entries) => entries,
            None => {
                return None;
            },
        };
        if entries.len() != 4 {
            return None;
        }
        let demographics = match read_record::<Demographics>(entries, "demographics") {
            Some(found) => found,
            None => {
                return None;
            },
        };
        let interests = match read_record::<Interests>(entries, "interests") {
            Some(found) => found,
            None => {
                return None;
            },
        };
        let location_history = match read_texts(entries, "locationHistory") {
            Some(found) => found,
            None => {
                return None;
            },
        };
        let inferred_age_info = match read_record::<InferredAgeInfo>(entries, "inferredAgeInfo") {
            Some(found) => found,
            None => {
                return None;
            },
        };
        Some(P13nData { demographics, interests, location_history, inferred_age_info })
    }

    fn encode(&self) -> (r: Json) {
        let mut entries: Vec<(String, Json)> = Vec::new();
        entries.push(record_entry("demographics", &self.demographics));
        entries.push(record_entry("interests", &self.interests));
        entries.push(texts_entry("locationHistory", &self.location_history));
        entries.push(record_entry("inferredAgeInfo", &self.inferred_age_info));
        proof {
            assert(entry_models(entries@) =~= Self::written(self@)->Object_0);
        }
        Json::object(entries)
    }
}

/// The languages and the gender that the service takes the account to have.
#[derive(Clone, Debug, PartialEq, Eq)]
pub struct Demographics {
    /// The entry `languages`.
    pub languages: Vec<LanguageEntry>,
    /// The entry `genderInfo`.
    pub gender_info: GenderInfo,
}

/// What a value of [`Demographics`] holds.
pub struct DemographicsModel {
    pub languages: Seq<LanguageEntryModel>,
    pub gender_info: GenderInfoModel,
}

impl View for Demographics {
    type V = DemographicsModel;

    open spec fn view(&self) -> DemographicsModel {
        DemographicsModel {
            languages: record_models(self.languages@),
            gender_info: self.gender_info@,
        }
    }
}

impl Demographics {
    /// No two of the keys are the same.
    proof fn lemma_keys_differ()
        ensures
            "languages"@ != "genderInfo"@,
    {
        reveal_strlit("languages");
        reveal_strlit("genderInfo");
        assert("languages"@.len() == 9);
        assert("genderInfo"@.len() == 10);
    }
}

impl Record for Demographics {
    open spec fn read(value: JsonModel) -> Option<DemographicsModel> {
        match value {
            JsonModel::Object(entries) => if entries.len() == 2
                && record::records_at::<LanguageEntry>(entries, "languages"@).is_some()
                && record_at::<GenderInfo>(entries, "genderInfo"@).is_some()
            {
                Some(
                    DemographicsModel {
                        languages: record::records_at::<LanguageEntry>(
                            entries,
                            "languages"@,
                        ).unwrap(),
                        gender_info: record_at::<GenderInfo>(entries, "genderInfo"@).unwrap(),
                    },
                )
            } else {
                None
            },
            _ => None,
        }
    }

    open spec fn written(record: DemographicsModel) -> JsonModel {
        JsonModel::Object(
            seq![
                ("languages"@, record::records_value::<LanguageEntry>(record.languages)),
                ("genderInfo"@, GenderInfo::written(record.gender_info)),
            ],
        )
    }

    open spec fn is_writable(record: DemographicsModel) -> bool {
        &&& record::all_writable::<LanguageEntry>(record.languages)
        &&& GenderInfo::is_writable(record.gender_info)
    }

    open spec fn is_canonical(value: JsonModel) -> bool {
        &&& value is Object
        &&& value->Object_0.len() == 2
        &&& value->Object_0[0].0 == "languages"@
        &&& value->Object_0[1].0 == "genderInfo"@
        &&& record::all_canonical::<LanguageEntry>(value->Object_0[0].1)
        &&& GenderInfo::is_canonical(value->Object_0[1].1)
    }

    proof fn written_is_read_back(record: DemographicsModel) {
        let entries = Self::written(record)->Object_0;
        Self::lemma_keys_differ();
        lemma_lookup_at(entries, 0);
        lemma_lookup_at(entries, 1);
        record::lemma_records_value::<LanguageEntry>(record.languages);
        GenderInfo::written_is_read_back(record.gender_info);
    }

    proof fn read_is_written_back(value: JsonModel) {
        let entries = value->Object_0;
        Self::lemma_keys_differ();
        lemma_lookup_at(entries, 0);
        lemma_lookup_at(entries, 1);
        record::lemma_records_of::<LanguageEntry>(entries[0].1);
        GenderInfo::read_is_written_back(entries[1].1);
        assert(Self::written(Self::read(value).unwrap())->Object_0 =~= entries);
    }

    fn decode(value: &Json) -> (r: Option<Demographics>) {
        let entries = match value.as_object() {
            Some(entries) => entries,
            None => {
                return None;
            },
        };
        if entries.len() != 2 {
            return None;
        }
        let languages = match read_records::<LanguageEntry>(entries, "languages") {
            Some(found) => found,
            None => {
                return None;
            },
        };
        let gender_info = match read_record::<GenderInfo>(entries, "genderInfo") {
            Some(found) => found,
            None => {
                return None;
            },
        };
        Some(Demographics { languages, gender_info })
    }

    fn encode(&self) -> (r: Json) {
        let mut entries: Vec<(String, Json)> = Vec::new();
        entries.push(records_entry("languages", &self.languages));
        entries.push(record_entry("genderInfo", &self.gender_info));
        proof {
            assert(entry_models(entries@) =~= Self::written(self@)->Object_0);
        }
        Json::object(entries)
    }
}

/// A language, and whether the account has switched it off.
#[derive(Clone, Debug, PartialEq, Eq)]
pub struct LanguageEntry {
    /// The entry `language`.
    pub language: String,
    /// The entry `isDisabled`.
    pub is_disabled: bool,
}

/// What a value of [`LanguageEntry`] holds.
pub struct LanguageEntryModel {
    pub language: Seq<char>,
    pub is_disabled: bool,
}

impl View for LanguageEntry {
    type V = LanguageEntryModel;

    open spec fn view(&self) -> LanguageEntryModel {
        LanguageEntryModel {
            language: self.language@,
            is_disabled: self.is_disabled,
        }
    }
}

impl LanguageEntry {
    /// No two of the keys are the same.
    proof fn lemma_keys_differ()
        ensures
            "language"@ != "isDisabled"@,
    {
        reveal_strlit("language");
        reveal_strlit("isDisabled");
        assert("language"@.len() == 8);
        assert("isDisabled"@.len() == 10);
    }
}

impl Record for LanguageEntry {
    open spec fn read(value: JsonModel) -> Option<LanguageEntryModel> {
        match value {
            JsonModel::Object(entries) => if entries.len() == 2
                && text_at(entries, "language"@).is_some()
                && flag_at(entries, "isDisabled"@).is_some()
            {
                Some(
                    LanguageEntryModel {
                        language: text_at(entries, "language"@).unwrap(),
                        is_disabled: flag_at(entries, "isDisabled"@).unwrap(),
                    },
                )
            } else {
                None
            },
            _ => None,
        }
    }

    open spec fn written(record: LanguageEntryModel) -> JsonModel {
        JsonModel::Object(
            seq![
                ("language"@, JsonModel::Text(record.language)),
                ("isDisabled"@, JsonModel::Bool(record.is_disabled)),
            ],
        )
    }

    open spec fn is_writable(record: LanguageEntryModel) -> bool {
        true
    }

    open spec fn is_canonical(value: JsonModel) -> bool {
        &&& value is Object
        &&& value->Object_0.len() == 2
        &&& value->Object_0[0].0 == "language"@
        &&& value->Object_0[1].0 == "isDisabled"@
    }

    proof fn written_is_read_back(record: LanguageEntryModel) {
        let entries = Self::written(record)->Object_0;
        Self::lemma_keys_differ();
        lemma_lookup_at(entries, 0);
        lemma_lookup_at(entries, 1);
    }

    proof fn read_is_written_back(value: JsonModel) {
        let entries = value->Object_0;
        Self::lemma_keys_differ();
        lemma_lookup_at(entries, 0);
        lemma_lookup_at(entries, 1);
        assert(Self::written(Self::read(value).unwrap())->Object_0 =~= entries);
    }

    fn decode(value: &Json) -> (r: Option<LanguageEntry>) {
        let entries = match value.as_object() {
            Some(entries) => entries,
            None => {
                return None;
            },
        };
        if entries.len() != 2 {
            return None;
        }
        let language = match read_text(entries, "language") {
            Some(found) => found,
            None => {
                return None;
            },
        };
        let is_disabled = match read_flag(entries, "isDisabled") {
            Some(found) => found,
            None => {
                return None;
            },
        };
        Some(LanguageEntry { language, is_disabled })
    }

    fn encode(&self) -> (r: Json) {
        let mut entries: Vec<(String, Json)> = Vec::new();
        entries.push(text_entry("language", &self.language));
        entries.push(flag_entry("isDisabled", &self.is_disabled));
        proof {
            assert(entry_models(entries@) =~= Self::written(self@)->Object_0);
        }
        Json::object(entries)
    }
}

/// The gender that the service guessed, and the one that the account gave.
#[derive(Clone, Debug, PartialEq, Eq)]
pub struct GenderInfo {
    /// The entry `gender`.
    pub gender: String,
    /// The entry `genderOverride`.
    pub gender_override: String,
}

/// What a value of [`GenderInfo`] holds.
pub struct GenderInfoModel {
    pub gender: Seq<char>,
    pub gender_override: Seq<char>,
}

impl View for GenderInfo {
    type V = GenderInfoModel;

    open spec fn view(&self) -> GenderInfoModel {
        GenderInfoModel {
            gender: self.gender@,
            gender_override: self.gender_override@,
        }
    }
}

impl GenderInfo {
    /// No two of the keys are the same.
    proof fn lemma_keys_differ()
        ensures
            "gender"@ != "genderOverride"@,
    {
        reveal_strlit("gender");
        reveal_strlit("genderOverride");
        assert("gender"@.len() == 6);
        assert("genderOverride"@.len() == 14);
    }
}

impl Record for GenderInfo {
    open spec fn read(value: JsonModel) -> Option<GenderInfoModel> {
        match value {
            JsonModel::Object(entries) => if entries.len() == 2
                && text_at(entries, "gender"@).is_some()
                && text_at(entries, "genderOverride"@).is_some()
            {
                Some(
                    GenderInfoModel {
                        gender: text_at(entries, "gender"@).unwrap(),
                        gender_override: text_at(entries, "genderOverride"@).unwrap(),
                    },
                )
            } else {
                None
            },
            _ => None,
        }
    }

    open spec fn written(record: GenderInfoModel) -> JsonModel {
        JsonModel::Object(
            seq![
                ("gender"@, JsonModel::Text(record.gender)),
                ("genderOverride"@, JsonModel::Text(record.gender_override)),
            ],
        )
    }

    open spec fn is_writable(record: GenderInfoModel) -> bool {
        true
    }

    open spec fn is_canonical(value: JsonModel) -> bool {
        &&& value is Object
        &&& value->Object_0.len() == 2
        &&& value->Object_0[0].0 == "gender"@
        &&& value->Object_0[1].0 == "genderOverride"@
    }

    proof fn written_is_read_back(record: GenderInfoModel) {
        let entries = Self::written(record)->Object_0;
        Self::lemma_keys_differ();
        lemma_lookup_at(entries, 0);
        lemma_lookup_at(entries, 1);
    }

    proof fn read_is_written_back(value: JsonModel) {
        let entries = value->Object_0;
        Self::lemma_keys_differ();
        lemma_lookup_at(entries, 0);
        lemma_lookup_at(entries, 1);
        assert(Self::written(Self::read(value).unwrap())->Object_0 =~= entries);
    }

    fn decode(value: &Json) -> (r: Option<GenderInfo>) {
        let entries = match value.as_object() {
            Some(entries) => entries,
            None => {
                return None;
            },
        };
        if entries.len() != 2 {
            return None;
        }
        let gender = match read_text(entries, "gender") {
            Some(found) => found,
            None => {
                return None;
            },
        };
        let gender_override = match read_text(entries, "genderOverride") {
            Some(found) => found,
            None => {
                return None;
            },
        };
        Some(GenderInfo { gender, gender_override })
    }

    fn encode(&self) -> (r: Json) {
        let mut entries: Vec<(String, Json)> = Vec::new();
        entries.push(text_entry("gender", &self.gender));
        entries.push(text_entry("genderOverride", &self.gender_override));
        proof {
            assert(entry_models(entries@) =~= Self::written(self@)->Object_0);
        }
        Json::object(entries)
    }
}

/// What the service takes the account to be interested in.
#[derive(Clone, Debug, PartialEq, Eq)]
pub struct Interests {
    /// The entry `interests`.
    pub interests: Vec<Interest>,
    /// The entry `partnerInterests`.
    pub partner_interests: Vec<String>,
    /// The entry `audienceAndAdvertisers`.
    pub audience_and_advertisers: AudienceAndAdvertisers,
    /// The entry `shows`.
    pub shows: Vec<String>,
}

/// What a value of [`Interests`] holds.
pub struct InterestsModel {
    pub interests: Seq<InterestModel>,
    pub partner_interests: Seq<Seq<char>>,
    pub audience_and_advertisers: AudienceAndAdvertisersModel,
    pub shows: Seq<Seq<char>>,
}

impl View for Interests {
    type V = InterestsModel;

    open spec fn view(&self) -> InterestsModel {
        InterestsModel {
            interests: record_models(self.interests@),
            partner_interests: texts(self.partner_interests@),
            audience_and_advertisers: self.audience_and_advertisers@,
            shows: texts(self.shows@),
        }
    }
}

impl Interests {
    /// No two of the keys are the same.
    proof fn lemma_keys_differ()
        ensures
            "interests"@ != "partnerInterests"@,
            "interests"@ != "audienceAndAdvertisers"@,
            "interests"@ != "shows"@,
            "partnerInterests"@ != "audienceAndAdvertisers"@,
            "partnerInterests"@ != "shows"@,
            "audienceAndAdvertisers"@ != "shows"@,
    {
        reveal_strlit("interests");
        reveal_strlit("partnerInterests");
        reveal_strlit("audienceAndAdvertisers");
        reveal_strlit("shows");
        assert("interests"@.len() == 9);
        assert("partnerInterests"@.len() == 16);
        assert("audienceAndAdvertisers"@.len() == 22);
        assert("shows"@.len() == 5);
    }
}

impl Record for Interests {
    open spec fn read(value: JsonModel) -> Option<InterestsModel> {
        match value {
            JsonModel::Object(entries) => if entries.len() == 4
                && record::records_at::<Interest>(entries, "interests"@).is_some()
                && texts_at(entries, "partnerInterests"@).is_some()
                && record_at::<AudienceAndAdvertisers>(entries, "audienceAndAdvertisers"@).is_some()
                && texts_at(entries, "shows"@).is_some()
            {
                Some(
                    InterestsModel {
                        interests: record::records_at::<Interest>(entries, "interests"@).unwrap(),
                        partner_interests: texts_at(entries, "partnerInterests"@).unwrap(),
                        audience_and_advertisers: record_at::<AudienceAndAdvertisers>(
                            entries,
                            "audienceAndAdvertisers"@,
                        ).unwrap(),
                        shows: texts_at(entries, "shows"@).unwrap(),
                    },
                )
            } else {
                None
            },
            _ => None,
        }
    }

    open spec fn written(record: InterestsModel) -> JsonModel {
        JsonModel::Object(
            seq![
                ("interests"@, record::records_value::<Interest>(record.interests)),
                ("partnerInterests"@, texts_value(record.partner_interests)),
                (
                    "audienceAndAdvertisers"@,
                    AudienceAndAdvertisers::written(record.audience_and_advertisers),
                ),
                ("shows"@, texts_value(record.shows)),
            ],
        )
    }

    open spec fn is_writable(record: InterestsModel) -> bool {
        &&& record::all_writable::<Interest>(record.interests)
        &&& AudienceAndAdvertisers::is_writable(record.audience_and_advertisers)
    }

    open spec fn is_canonical(value: JsonModel) -> bool {
        &&& value is Object
        &&& value->Object_0.len() == 4
        &&& value->Object_0[0].0 == "interests"@
        &&& value->Object_0[1].0 == "partnerInterests"@
        &&& value->Object_0[2].0 == "audienceAndAdvertisers"@
        &&& value->Object_0[3].0 == "shows"@
        &&& record::all_canonical::<Interest>(value->Object_0[0].1)
        &&& AudienceAndAdvertisers::is_canonical(value->Object_0[2].1)
    }

    proof fn written_is_read_back(record: InterestsModel) {
        let entries = Self::written(record)->Object_0;
        Self::lemma_keys_differ();
        lemma_lookup_at(entries, 0);
        lemma_lookup_at(entries, 1);
        lemma_lookup_at(entries, 2);
        lemma_lookup_at(entries, 3);
        record::lemma_records_value::<Interest>(record.interests);
        lemma_texts_value(record.partner_interests);
        AudienceAndAdvertisers::written_is_read_back(record.audience_and_advertisers);
        lemma_texts_value(record.shows);
    }

    proof fn read_is_written_back(value: JsonModel) {
        let entries = value->Object_0;
        Self::lemma_keys_differ();
        lemma_lookup_at(entries, 0);
        lemma_lookup_at(entries, 1);
        lemma_lookup_at(entries, 2);
        lemma_lookup_at(entries, 3);
        record::lemma_records_of::<Interest>(entries[0].1);
        lemma_texts_of(entries[1].1);
        AudienceAndAdvertisers::read_is_written_back(entries[2].1);
        lemma_texts_of(entries[3].1);
        assert(Self::written(Self::read(value).unwrap())->Object_0 =~= entries);
    }

    fn decode(value: &Json) -> (r: Option<Interests>) {
        let entries = match value.as_object() {
            Some(entries) => entries,
            None => {
                return None;
            },
        };
        if entries.len() != 4 {
            return None;
        }
        let interests = match read_records::<Interest>(entries, "interests") {
            Some(found) => found,
            None => {
                return None;
            },
        };
        let partner_interests = match read_texts(entries, "partnerInterests") {
            Some(found) => found,
            None => {
                return None;
            },
        };
        let audience_and_advertisers = match read_record::<AudienceAndAdvertisers>(
            entries,
            "audienceAndAdvertisers",
        ) {
            Some(found) => found,
            None => {
                return None;
            },
        };
        let shows = match read_texts(entries, "shows") {
            Some(found) => found,
            None => {
                return None;
            },
        };
        Some(Interests { interests, partner_interests, audience_and_advertisers, shows })
    }

    fn encode(&self) -> (r: Json) {
        let mut entries: Vec<(String, Json)> = Vec::new();
        entries.push(records_entry("interests", &self.interests));
        entries.push(texts_entry("partnerInterests", &self.partner_interests));
        entries.push(record_entry("audienceAndAdvertisers", &self.audience_and_advertisers));
        entries.push(texts_entry("shows", &self.shows));
        proof {
            assert(entry_models(entries@) =~= Self::written(self@)->Object_0);
        }
        Json::object(entries)
    }
}

/// An interest, and whether the account has switched it off.
#[derive(Clone, Debug, PartialEq, Eq)]
pub struct Interest {
    /// The entry `name`.
    pub name: String,
    /// The entry `isDisabled`.
    pub is_disabled: bool,
}

/// What a value of [`Interest`] holds.
pub struct InterestModel {
    pub name: Seq<char>,
    pub is_disabled: bool,
}

impl View for Interest {
    type V = InterestModel;

    open spec fn view(&self) -> InterestModel {
        InterestModel {
            name: self.name@,
            is_disabled: self.is_disabled,
        }
    }
}

impl Interest {
    /// No two of the keys are the same.
    proof fn lemma_keys_differ()
        ensures
            "name"@ != "isDisabled"@,
    {
        reveal_strlit("name");
        reveal_strlit("isDisabled");
        assert("name"@.len() == 4);
        assert("isDisabled"@.len() == 10);
    }
}

impl Record for Interest {
    open spec fn read(value: JsonModel) -> Option<InterestModel> {
        match value {
            JsonModel::Object(entries) => if entries.len() == 2
                && text_at(entries, "name"@).is_some()
                && flag_at(entries, "isDisabled"@).is_some()
            {
                Some(
                    InterestModel {
                        name: text_at(entries, "name"@).unwrap(),
                        is_disabled: flag_at(entries, "isDisabled"@).unwrap(),
                    },
                )
            } else {
                None
            },
            _ => None,
        }
    }

    open spec fn written(record: InterestModel) -> JsonModel {
        JsonModel::Object(
            seq![
                ("name"@, JsonModel::Text(record.name)),
                ("isDisabled"@, JsonModel::Bool(record.is_disabled)),
            ],
        )
    }

    open spec fn is_writable(record: InterestModel) -> bool {
        true
    }

    open spec fn is_canonical(value: JsonModel) -> bool {
        &&& value is Object
        &&& value->Object_0.len() == 2
        &&& value->Object_0[0].0 == "name"@
        &&& value->Object_0[1].0 == "isDisabled"@
    }

    proof fn written_is_read_back(record: InterestModel) {
        let entries = Self::written(record)->Object_0;
        Self::lemma_keys_differ();
        lemma_lookup_at(entries, 0);
        lemma_lookup_at(entries, 1);
    }

    proof fn read_is_written_back(value: JsonModel) {
        let entries = value->Object_0;
        Self::lemma_keys_differ();
        lemma_lookup_at(entries, 0);
        lemma_lookup_at(entries, 1);
        assert(Self::written(Self::read(value).unwrap())->Object_0 =~= entries);
    }

    fn decode(value: &Json) -> (r: Option<Interest>) {
        let entries = match value.as_object() {
            Some(entries) => entries,
            None => {
                return None;
            },
        };
        if entries.len() != 2 {
            return None;
        }
        let name = match read_text(entries, "name") {
            Some(found) => found,
            None => {
                return None;
            },
        };
        let is_disabled = match read_flag(entries, "isDisabled") {
            Some(found) => found,
            None => {
                return None;
            },
        };
        Some(Interest { name, is_disabled })
    }

    fn encode(&self) -> (r: Json) {
        let mut entries: Vec<(String, Json)> = Vec::new();
        entries.push(text_entry("name", &self.name));
        entries.push(flag_entry("isDisabled", &self.is_disabled));
        proof {
            assert(entry_models(entries@) =~= Self::written(self@)->Object_0);
        }
        Json::object(entries)
    }
}

/// The advertisers that count the account among their audiences.
#[derive(Clone, Debug, PartialEq, Eq)]
pub struct AudienceAndAdvertisers {
    /// The entry `lookalikeAdvertisers`.
    pub lookalike_advertisers: Vec<String>,
    /// The entry `advertisers`.
    pub advertisers: Vec<String>,
    /// The entry `doNotReachAdvertisers`.
    pub do_not_reach_advertisers: Vec<String>,
    /// The entry `catalogAudienceAdvertisers`.
    pub catalog_audience_advertisers: Vec<String>,
    /// The entry `numAudiences`, in the encoding of
    /// `convert::number_like_string`.
    pub num_audiences: u64,
}

/// What a value of [`AudienceAndAdvertisers`] holds.
pub struct AudienceAndAdvertisersModel {
    pub lookalike_advertisers: Seq<Seq<char>>,
    pub advertisers: Seq<Seq<char>>,
    pub do_not_reach_advertisers: Seq<Seq<char>>,
    pub catalog_audience_advertisers: Seq<Seq<char>>,
    pub num_audiences: u64,
}

impl View for AudienceAndAdvertisers {
    type V = AudienceAndAdvertisersModel;

    open spec fn view(&self) -> AudienceAndAdvertisersModel {
        AudienceAndAdvertisersModel {
            lookalike_advertisers: texts(self.lookalike_advertisers@),
            advertisers: texts(self.advertisers@),
            do_not_reach_advertisers: texts(self.do_not_reach_advertisers@),
            catalog_audience_advertisers: texts(self.catalog_audience_advertisers@),
            num_audiences: self.num_audiences,
        }
    }
}

impl AudienceAndAdvertisers {
    /// No two of the keys are the same.
    proof fn lemma_keys_differ()
        ensures
            "lookalikeAdvertisers"@ != "advertisers"@,
            "lookalikeAdvertisers"@ != "doNotReachAdvertisers"@,
            "lookalikeAdvertisers"@ != "catalogAudienceAdvertisers"@,
            "lookalikeAdvertisers"@ != "numAudiences"@,
            "advertisers"@ != "doNotReachAdvertisers"@,
            "advertisers"@ != "catalogAudienceAdvertisers"@,
            "advertisers"@ != "numAudiences"@,
            "doNotReachAdvertisers"@ != "catalogAudienceAdvertisers"@,
            "doNotReachAdvertisers"@ != "numAudiences"@,
            "catalogAudienceAdvertisers"@ != "numAudiences"@,
    {
        reveal_strlit("lookalikeAdvertisers");
        reveal_strlit("advertisers");
        reveal_strlit("doNotReachAdvertisers");
        reveal_strlit("catalogAudienceAdvertisers");
        reveal_strlit("numAudiences");
        assert("lookalikeAdvertisers"@.len() == 20);
        assert("advertisers"@.len() == 11);
        assert("doNotReachAdvertisers"@.len() == 21);
        assert("catalogAudienceAdvertisers"@.len() == 26);
        assert("numAudiences"@.len() == 12);
    }
}

impl Record for AudienceAndAdvertisers {
    open spec fn read(value: JsonModel) -> Option<AudienceAndAdvertisersModel> {
        match value {
            JsonModel::Object(entries) => if entries.len() == 5
                && texts_at(entries, "lookalikeAdvertisers"@).is_some()
                && texts_at(entries, "advertisers"@).is_some()
                && texts_at(entries, "doNotReachAdvertisers"@).is_some()
                && texts_at(entries, "catalogAudienceAdvertisers"@).is_some()
                && number_at(entries, "numAudiences"@).is_some()
            {
                Some(
                    AudienceAndAdvertisersModel {
                        lookalike_advertisers: texts_at(entries, "lookalikeAdvertisers"@).unwrap(),
                        advertisers: texts_at(entries, "advertisers"@).unwrap(),
                        do_not_reach_advertisers: texts_at(
                            entries,
                            "doNotReachAdvertisers"@,
                        ).unwrap(),
                        catalog_audience_advertisers: texts_at(
                            entries,
                            "catalogAudienceAdvertisers"@,
                        ).unwrap(),
                        num_audiences: number_at(entries, "numAudiences"@).unwrap(),
                    },
                )
            } else {
                None
            },
            _ => None,
        }
    }

    open spec fn written(record: AudienceAndAdvertisersModel) -> JsonModel {
        JsonModel::Object(
            seq![
                ("lookalikeAdvertisers"@, texts_value(record.lookalike_advertisers)),
                ("advertisers"@, texts_value(record.advertisers)),
                ("doNotReachAdvertisers"@, texts_value(record.do_not_reach_advertisers)),
                ("catalogAudienceAdvertisers"@, texts_value(record.catalog_audience_advertisers)),
                ("numAudiences"@, number_value(record.num_audiences)),
            ],
        )
    }

    open spec fn is_writable(record: AudienceAndAdvertisersModel) -> bool {
        true
    }

    open spec fn is_canonical(value: JsonModel) -> bool {
        &&& value is Object
        &&& value->Object_0.len() == 5
        &&& value->Object_0[0].0 == "lookalikeAdvertisers"@
        &&& value->Object_0[1].0 == "advertisers"@
        &&& value->Object_0[2].0 == "doNotReachAdvertisers"@
        &&& value->Object_0[3].0 == "catalogAudienceAdvertisers"@
        &&& value->Object_0[4].0 == "numAudiences"@
        &&& number_canonical(value->Object_0[4].1)
    }

    proof fn written_is_read_back(record: AudienceAndAdvertisersModel) {
        let entries = Self::written(record)->Object_0;
        Self::lemma_keys_differ();
        lemma_lookup_at(entries, 0);
        lemma_lookup_at(entries, 1);
        lemma_lookup_at(entries, 2);
        lemma_lookup_at(entries, 3);
        lemma_lookup_at(entries, 4);
        lemma_texts_value(record.lookalike_advertisers);
        lemma_texts_value(record.advertisers);
        lemma_texts_value(record.do_not_reach_advertisers);
        lemma_texts_value(record.catalog_audience_advertisers);
        lemma_number_value(entries, "numAudiences"@, record.num_audiences);
    }

    proof fn read_is_written_back(value: JsonModel) {
        let entries = value->Object_0;
        Self::lemma_keys_differ();
        lemma_lookup_at(entries, 0);
        lemma_lookup_at(entries, 1);
        lemma_lookup_at(entries, 2);
        lemma_lookup_at(entries, 3);
        lemma_lookup_at(entries, 4);
        lemma_texts_of(entries[0].1);
        lemma_texts_of(entries[1].1);
        lemma_texts_of(entries[2].1);
        lemma_texts_of(entries[3].1);
        lemma_number_at(entries, "numAudiences"@);
        assert(Self::written(Self::read(value).unwrap())->Object_0 =~= entries);
    }

    fn decode(value: &Json) -> (r: Option<AudienceAndAdvertisers>) {
        let entries = match value.as_object() {
            Some(entries) => entries,
            None => {
                return None;
            },
        };
        if entries.len() != 5 {
            return None;
        }
        let lookalike_advertisers = match read_texts(entries, "lookalikeAdvertisers") {
            Some(found) => found,
            None => {
                return None;
            },
        };
        let advertisers = match read_texts(entries, "advertisers") {
            Some(found) => found,
            None => {
                return None;
            },
        };
        let do_not_reach_advertisers = match read_texts(entries, "doNotReachAdvertisers") {
            Some(found) => found,
            None => {
                return None;
            },
        };
        let catalog_audience_advertisers = match read_texts(entries, "catalogAudienceAdvertisers") {
            Some(found) => found,
            None => {
                return None;
            },
        };
        let num_audiences = match read_number(entries, "numAudiences") {
            Some(found) => found,
            None => {
                return None;
            },
        };
        Some(
            AudienceAndAdvertisers {
                lookalike_advertisers,
                advertisers,
                do_not_reach_advertisers,
                catalog_audience_advertisers,
                num_audiences,
            },
        )
    }

    fn encode(&self) -> (r: Json) {
        let mut entries: Vec<(String, Json)> = Vec::new();
        entries.push(texts_entry("lookalikeAdvertisers", &self.lookalike_advertisers));
        entries.push(texts_entry("advertisers", &self.advertisers));
        entries.push(texts_entry("doNotReachAdvertisers", &self.do_not_reach_advertisers));
        entries.push(texts_entry("catalogAudienceAdvertisers", &self.catalog_audience_advertisers));
        entries.push(number_entry("numAudiences", &self.num_audiences));
        proof {
            assert(entry_models(entries@) =~= Self::written(self@)->Object_0);
        }
        Json::object(entries)
    }
}

/// The age that the service guessed, and the date of birth that the account
/// gave.
#[derive(Clone, Debug, PartialEq, Eq)]
pub struct InferredAgeInfo {
    /// The entry `age`.
    pub age: Vec<String>,
    /// The entry `birthDate`.
    pub birth_date: String,
}

/// What a value of [`InferredAgeInfo`] holds.
pub struct InferredAgeInfoModel {
    pub age: Seq<Seq<char>>,
    pub birth_date: Seq<char>,
}

impl View for InferredAgeInfo {
    type V = InferredAgeInfoModel;

    open spec fn view(&self) -> InferredAgeInfoModel {
        InferredAgeInfoModel {
            age: texts(self.age@),
            birth_date: self.birth_date@,
        }
    }
}

impl InferredAgeInfo {
    /// No two of the keys are the same.
    proof fn lemma_keys_differ()
        ensures
            "age"@ != "birthDate"@,
    {
        reveal_strlit("age");
        reveal_strlit("birthDate");
        assert("age"@.len() == 3);
        assert("birthDate"@.len() == 9);
    }
}

impl Record for InferredAgeInfo {
    open spec fn read(value: JsonModel) -> Option<InferredAgeInfoModel> {
        match value {
            JsonModel::Object(entries) => if entries.len() == 2
                && texts_at(entries, "age"@).is_some()
                && text_at(entries, "birthDate"@).is_some()
            {
                Some(
                    InferredAgeInfoModel {
                        age: texts_at(entries, "age"@).unwrap(),
                        birth_date: text_at(entries, "birthDate"@).unwrap(),
                    },
                )
            } else {
                None
            },
            _ => None,
        }
    }

    open spec fn written(record: InferredAgeInfoModel) -> JsonModel {
        JsonModel::Object(
            seq![
                ("age"@, texts_value(record.age)),
                ("birthDate"@, JsonModel::Text(record.birth_date)),
            ],
        )
    }

    open spec fn is_writable(record: InferredAgeInfoModel) -> bool {
        true
    }

    open spec fn is_canonical(value: JsonModel) -> bool {
        &&& value is Object
        &&& value->Object_0.len() == 2
        &&& value->Object_0[0].0 == "age"@
        &&& value->Object_0[1].0 == "birthDate"@
    }

    proof fn written_is_read_back(record: InferredAgeInfoModel) {
        let entries = Self::written(record)->Object_0;
        Self::lemma_keys_differ();
        lemma_lookup_at(entries, 0);
        lemma_lookup_at(entries, 1);
        lemma_texts_value(record.age);
    }

    proof fn read_is_written_back(value: JsonModel) {
        let entries = value->Object_0;
        Self::lemma_keys_differ();
        lemma_lookup_at(entries, 0);
        lemma_lookup_at(entries, 1);
        lemma_texts_of(entries[0].1);
        assert(Self::written(Self::read(value).unwrap())->Object_0 =~= entries);
    }

    fn decode(value: &Json) -> (r: Option<InferredAgeInfo>) {
        let entries = match value.as_object() {
            Some(entries) => entries,
            None => {
                return None;
            },
        };
        if entries.len() != 2 {
            return None;
        }
        let age = match read_texts(entries, "age") {
            Some(found) => found,
            None => {
                return None;
            },
        };
        let birth_date = match read_text(entries, "birthDate") {
            Some(found) => found,
            None => {
                return None;
            },
        };
        Some(InferredAgeInfo { age, birth_date })
    }

    fn encode(&self) -> (r: Json) {
        let mut entries: Vec<(String, Json)> = Vec::new();
        entries.push(texts_entry("age", &self.age));
        entries.push(text_entry("birthDate", &self.birth_date));
        proof {
            assert(entry_models(entries@) =~= Self::written(self@)->Object_0);
        }
        Json::object(entries)
    }
}

} // verus!
