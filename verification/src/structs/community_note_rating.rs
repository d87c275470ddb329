//! The records of the file `data/community-note-rating.js`.

use vstd::prelude::*;
use vstd::string::*;
use crate::convert::date_time_iso_8601;
use crate::envelope;
use crate::instant::{Civil, Instant};
use crate::json::{entry_models, lemma_lookup_at, Json, JsonModel};
use crate::record::{
    created_at, instant_at, instant_entry, lemma_texts_of, lemma_texts_value, read_instant,
    read_text, read_texts, text_at, text_entry, texts_at, texts_entry, texts_value, Record,
};
use crate::text::texts;

verus! {

/// An envelope: an object of the one entry `communityNoteRating`, which holds
/// a [`CommunityNoteRating`].
#[derive(Clone, Debug, PartialEq, Eq)]
pub struct CommunityNoteRatingObject {
    /// The entry `communityNoteRating`.
    pub community_note_rating: CommunityNoteRating,
}

/// What a value of [`CommunityNoteRatingObject`] holds.
pub struct CommunityNoteRatingObjectModel {
    pub community_note_rating: CommunityNoteRatingModel,
}

impl View for CommunityNoteRatingObject {
    type V = CommunityNoteRatingObjectModel;

    open spec fn view(&self) -> CommunityNoteRatingObjectModel {
        CommunityNoteRatingObjectModel {
            community_note_rating: self.community_note_rating@,
        }
    }
}

impl Record for CommunityNoteRatingObject {
    open spec fn read(value: JsonModel) -> Option<CommunityNoteRatingObjectModel> {
        match envelope::opened(value, "communityNoteRating"@) {
            Some(inner) => match CommunityNoteRating::read(inner) {
                Some(community_note_rating) => Some(
                    CommunityNoteRatingObjectModel { community_note_rating },
                ),
                None => None,
            },
            None => None,
        }
    }

    open spec fn written(record: CommunityNoteRatingObjectModel) -> JsonModel {
        envelope::sealed(
            "communityNoteRating"@,
            CommunityNoteRating::written(record.community_note_rating),
        )
    }

    open spec fn is_writable(record: CommunityNoteRatingObjectModel) -> bool {
        CommunityNoteRating::is_writable(record.community_note_rating)
    }

    open spec fn is_canonical(value: JsonModel) -> bool {
        match envelope::opened(value, "communityNoteRating"@) {
            Some(inner) => CommunityNoteRating::is_canonical(inner),
            None => false,
        }
    }

    proof fn written_is_read_back(record: CommunityNoteRatingObjectModel) {
        CommunityNoteRating::written_is_read_back(record.community_note_rating);
    }

    proof fn read_is_written_back(value: JsonModel) {
        CommunityNoteRating::read_is_written_back(
            envelope::opened(value, "communityNoteRating"@).unwrap(),
        );
        envelope::open_then_seal(value, "communityNoteRating"@);
    }

    fn decode(value: &Json) -> (r: Option<CommunityNoteRatingObject>) {
        match envelope::open(value, "communityNoteRating") {
            Ok(inner) => match CommunityNoteRating::decode(inner) {
                Some(community_note_rating) => Some(
                    CommunityNoteRatingObject { community_note_rating },
                ),
                None => None,
            },
            Err(_) => None,
        }
    }

    fn encode(&self) -> (r: Json) {
        envelope::seal("communityNoteRating", self.community_note_rating.encode())
    }
}

/// A rating that this account gave to a community note.
#[derive(Clone, Debug, PartialEq, Eq)]
pub struct CommunityNoteRating {
    /// The entry `notHelpfulTags`.
    pub not_helpful_tags: Vec<String>,
    /// The entry `noteId`.
    pub note_id: String,
    /// The entry `helpfulnessLevel`.
    pub helpfulness_level: String,
    /// The entry `createdAt`, in the encoding of
    /// `convert::date_time_iso_8601`.
    pub created_at: Instant,
    /// The entry `userId`.
    pub user_id: String,
}

/// What a value of [`CommunityNoteRating`] holds.
pub struct CommunityNoteRatingModel {
    pub not_helpful_tags: Seq<Seq<char>>,
    pub note_id: Seq<char>,
    pub helpfulness_level: Seq<char>,
    pub created_at: Civil,
    pub user_id: Seq<char>,
}

impl View for CommunityNoteRating {
    type V = CommunityNoteRatingModel;

    open spec fn view(&self) -> CommunityNoteRatingModel {
        CommunityNoteRatingModel {
            not_helpful_tags: texts(self.not_helpful_tags@),
            note_id: self.note_id@,
            helpfulness_level: self.helpfulness_level@,
            created_at: self.created_at@,
            user_id: self.user_id@,
        }
    }
}

impl CommunityNoteRating {
    /// No two of the keys are the same.
    proof fn lemma_keys_differ()
        ensures
            "notHelpfulTags"@ != "noteId"@,
            "notHelpfulTags"@ != "helpfulnessLevel"@,
            "notHelpfulTags"@ != "createdAt"@,
            "notHelpfulTags"@ != "userId"@,
            "noteId"@ != "helpfulnessLevel"@,
            "noteId"@ != "createdAt"@,
            "noteId"@ != "userId"@,
            "helpfulnessLevel"@ != "createdAt"@,
            "helpfulnessLevel"@ != "userId"@,
            "createdAt"@ != "userId"@,
    {
        reveal_strlit("notHelpfulTags");
        reveal_strlit("noteId");
        reveal_strlit("helpfulnessLevel");
        reveal_strlit("createdAt");
        reveal_strlit("userId");
        assert("notHelpfulTags"@.len() == 14);
        assert("noteId"@.len() == 6);
        assert("helpfulnessLevel"@.len() == 16);
        assert("createdAt"@.len() == 9);
        assert("userId"@.len() == 6);
        assert("noteId"@[0] != "userId"@[0]);
    }
}

impl Record for CommunityNoteRating {
    open spec fn read(value: JsonModel) -> Option<CommunityNoteRatingModel> {
        match value {
            JsonModel::Object(entries) => if entries.len() == 5
                && texts_at(entries, "notHelpfulTags"@).is_some()
                && text_at(entries, "noteId"@).is_some()
                && text_at(entries, "helpfulnessLevel"@).is_some()
                && instant_at(entries, "createdAt"@).is_some()
                && text_at(entries, "userId"@).is_some()
            {
                Some(
                    CommunityNoteRatingModel {
                        not_helpful_tags: texts_at(entries, "notHelpfulTags"@).unwrap(),
                        note_id: text_at(entries, "noteId"@).unwrap(),
                        helpfulness_level: text_at(entries, "helpfulnessLevel"@).unwrap(),
                        created_at: instant_at(entries, "createdAt"@).unwrap(),
                        user_id: text_at(entries, "userId"@).unwrap(),
                    },
                )
            } else {
                None
            },
            _ => None,
        }
    }

    open spec fn written(record: CommunityNoteRatingModel) -> JsonModel {
        JsonModel::Object(
            seq![
                ("notHelpfulTags"@, texts_value(record.not_helpful_tags)),
                ("noteId"@, JsonModel::Text(record.note_id)),
                ("helpfulnessLevel"@, JsonModel::Text(record.helpfulness_level)),
                ("createdAt"@, JsonModel::Text(date_time_iso_8601::encoded(record.created_at))),
                ("userId"@, JsonModel::Text(record.user_id)),
            ],
        )
    }

    open spec fn is_writable(record: CommunityNoteRatingModel) -> bool {
        &&& record.created_at.is_valid()
    }

    open spec fn is_canonical(value: JsonModel) -> bool {
        &&& value is Object
        &&& value->Object_0.len() == 5
        &&& value->Object_0[0].0 == "notHelpfulTags"@
        &&& value->Object_0[1].0 == "noteId"@
        &&& value->Object_0[2].0 == "helpfulnessLevel"@
        &&& value->Object_0[3].0 == "createdAt"@
        &&& value->Object_0[4].0 == "userId"@
    }

    proof fn written_is_read_back(record: CommunityNoteRatingModel) {
        let entries = Self::written(record)->Object_0;
        Self::lemma_keys_differ();
        lemma_lookup_at(entries, 0);
        lemma_lookup_at(entries, 1);
        lemma_lookup_at(entries, 2);
        lemma_lookup_at(entries, 3);
        lemma_lookup_at(entries, 4);
        lemma_texts_value(record.not_helpful_tags);
        date_time_iso_8601::instant_round_trip(record.created_at);
    }

    proof fn read_is_written_back(value: JsonModel) {
        let entries = value->Object_0;
        Self::lemma_keys_differ();
        lemma_lookup_at(entries, 0);
        lemma_lookup_at(entries, 1);
        lemma_lookup_at(entries, 2);
        lemma_lookup_at(entries, 3);
        lemma_lookup_at(entries, 4);
        lemma_texts_of(entries[0].1);
        date_time_iso_8601::text_round_trip(entries[3].1->Text_0);
        assert(Self::written(Self::read(value).unwrap())->Object_0 =~= entries);
    }

    fn decode(value: &Json) -> (r: Option<CommunityNoteRating>) {
        let entries = match value.as_object() {
            Some(entries) => entries,
            None => {
                return None;
            },
        };
        if entries.len() != 5 {
            return None;
        }
        let not_helpful_tags = match read_texts(entries, "notHelpfulTags") {
            Some(found) => found,
            None => {
                return None;
            },
        };
        let note_id = match read_text(entries, "noteId") {
            Some(found) => found,
            None => {
                return None;
            },
        };
        let helpfulness_level = match read_text(entries, "helpfulnessLevel") {
            Some(found) => found,
            None => {
                return None;
            },
        };
        let created_at = match read_instant(entries, "createdAt") {
            Some(found) => found,
            None => {
                return None;
            },
        };
        let user_id = match read_text(entries, "userId") {
            Some(found) => found,
            None => {
                return None;
            },
        };
        Some(
            CommunityNoteRating {
                not_helpful_tags,
                note_id,
                helpfulness_level,
                created_at,
                user_id,
            },
        )
    }

    fn encode(&self) -> (r: Json) {
        let mut entries: Vec<(String, Json)> = Vec::new();
        entries.push(texts_entry("notHelpfulTags", &self.not_helpful_tags));
        entries.push(text_entry("noteId", &self.note_id));
        entries.push(text_entry("helpfulnessLevel", &self.helpfulness_level));
        entries.push(instant_entry("createdAt", &self.created_at));
        entries.push(text_entry("userId", &self.user_id));
        proof {
            assert(entry_models(entries@) =~= Self::written(self@)->Object_0);
        }
        Json::object(entries)
    }
}

} // verus!
