//! The records of the file `data/manifest.js`.

use vstd::prelude::*;
use vstd::string::*;
use crate::convert::date_time_iso_8601;
use crate::instant::{Civil, Instant};
use crate::json::{entry_models, lemma_lookup_at, Json, JsonModel};
use crate::record;
use crate::record::{
    count, flag_at, flag_entry, instant_at, instant_entry, lemma_number_at, lemma_number_value,
    number_at, number_canonical, number_entry, number_value, read_flag, read_instant,
    read_number, read_records, read_text, record_models, records_entry, text_at, text_entry,
    Record,
};

verus! {

/// The file `data/manifest.js`: whose export this is, what it is, and which
/// files it holds.
#[derive(Clone, Debug, PartialEq, Eq)]
pub struct Manifest {
    /// The entry `userInfo`.
    pub user_info: UserInfo,
    /// The entry `archiveInfo`.
    pub archive_info: ArchiveInfo,
    /// The entry `readmeInfo`.
    pub readme_info: ReadmeInfo,
    /// The entry `dataTypes`.
    pub data_types: DataTypes,
}

/// Whose export this is.
#[derive(Clone, Debug, PartialEq, Eq)]
pub struct UserInfo {
    /// The entry `accountId`.
    pub account_id: String,
    /// The entry `userName`.
    pub user_name: String,
    /// The entry `displayName`.
    pub display_name: String,
}

/// What a value of [`UserInfo`] holds.
pub struct UserInfoModel {
    pub account_id: Seq<char>,
    pub user_name: Seq<char>,
    pub display_name: Seq<char>,
}

impl View for UserInfo {
    type V = UserInfoModel;

    open spec fn view(&self) -> UserInfoModel {
        UserInfoModel {
            account_id: self.account_id@,
            user_name: self.user_name@,
            display_name: self.display_name@,
        }
    }
}

impl UserInfo {
    /// No two of the keys are the same.
    proof fn lemma_keys_differ()
        ensures
            "accountId"@ != "userName"@,
            "accountId"@ != "displayName"@,
            "userName"@ != "displayName"@,
    {
        reveal_strlit("accountId");
        reveal_strlit("userName");
        reveal_strlit("displayName");
        assert("accountId"@.len() == 9);
        assert("userName"@.len() == 8);
        assert("displayName"@.len() == 11);
    }
}

impl Record for UserInfo {
    open spec fn read(value: JsonModel) -> Option<UserInfoModel> {
        match value {
            JsonModel::Object(entries) => if entries.len() == 3
                && text_at(entries, "accountId"@).is_some()
                && text_at(entries, "userName"@).is_some()
                && text_at(entries, "displayName"@).is_some()
            {
                Some(
                    UserInfoModel {
                        account_id: text_at(entries, "accountId"@).unwrap(),
                        user_name: text_at(entries, "userName"@).unwrap(),
                        display_name: text_at(entries, "displayName"@).unwrap(),
                    },
                )
            } else {
                None
            },
            _ => None,
        }
    }

    open spec fn written(record: UserInfoModel) -> JsonModel {
        JsonModel::Object(
            seq![
                ("accountId"@, JsonModel::Text(record.account_id)),
                ("userName"@, JsonModel::Text(record.user_name)),
                ("displayName"@, JsonModel::Text(record.display_name)),
            ],
        )
    }

    open spec fn is_writable(record: UserInfoModel) -> bool {
        true
    }

    open spec fn is_canonical(value: JsonModel) -> bool {
        &&& value is Object
        &&& value->Object_0.len() == 3
        &&& value->Object_0[0].0 == "accountId"@
        &&& value->Object_0[1].0 == "userName"@
        &&& value->Object_0[2].0 == "displayName"@
    }

    proof fn written_is_read_back(record: UserInfoModel) {
        let entries = Self::written(record)->Object_0;
        Self::lemma_keys_differ();
        lemma_lookup_at(entries, 0);
        lemma_lookup_at(entries, 1);
        lemma_lookup_at(entries, 2);
    }

    proof fn read_is_written_back(value: JsonModel) {
        let entries = value->Object_0;
        Self::lemma_keys_differ();
        lemma_lookup_at(entries, 0);
        lemma_lookup_at(entries, 1);
        lemma_lookup_at(entries, 2);
        assert(Self::written(Self::read(value).unwrap())->Object_0 =~= entries);
    }

    fn decode(value: &Json) -> (r: Option<UserInfo>) {
        let entries = match value.as_object() {
            Some(entries) => entries,
            None => {
                return None;
            },
        };
        if entries.len() != 3 {
            return None;
        }
        let account_id = match read_text(entries, "accountId") {
            Some(found) => found,
            None => {
                return None;
            },
        };
        let user_name = match read_text(entries, "userName") {
            Some(found) => found,
            None => {
                return None;
            },
        };
        let display_name = match read_text(entries, "displayName") {
            Some(found) => found,
            None => {
                return None;
            },
        };
        Some(UserInfo { account_id, user_name, display_name })
    }

    fn encode(&self) -> (r: Json) {
        let mut entries: Vec<(String, Json)> = Vec::new();
        entries.push(text_entry("accountId", &self.account_id));
        entries.push(text_entry("userName", &self.user_name));
        entries.push(text_entry("displayName", &self.display_name));
        proof {
            assert(entry_models(entries@) =~= Self::written(self@)->Object_0);
        }
        Json::object(entries)
    }
}

/// The size of the export, and when it was made.
#[derive(Clone, Debug, PartialEq, Eq)]
pub struct ArchiveInfo {
    /// The entry `sizeBytes`, in the encoding of
    /// `convert::number_like_string`.
    pub size_bytes: u64,
    /// The entry `generationDate`, in the encoding of
    /// `convert::date_time_iso_8601`.
    pub generation_date: Instant,
    /// The entry `isPartialArchive`.
    pub is_partial_archive: bool,
    /// The entry `maxPartSizeBytes`, in the encoding of
    /// `convert::number_like_string`.
    pub max_part_size_bytes: u64,
}

/// What a value of [`ArchiveInfo`] holds.
pub struct ArchiveInfoModel {
    pub size_bytes: u64,
    pub generation_date: Civil,
    pub is_partial_archive: bool,
    pub max_part_size_bytes: u64,
}

impl View for ArchiveInfo {
    type V = ArchiveInfoModel;

    open spec fn view(&self) -> ArchiveInfoModel {
        ArchiveInfoModel {
            size_bytes: self.size_bytes,
            generation_date: self.generation_date@,
            is_partial_archive: self.is_partial_archive,
            max_part_size_bytes: self.max_part_size_bytes,
        }
    }
}

impl ArchiveInfo {
    /// No two of the keys are the same.
    proof fn lemma_keys_differ()
        ensures
            "sizeBytes"@ != "generationDate"@,
            "sizeBytes"@ != "isPartialArchive"@,
            "sizeBytes"@ != "maxPartSizeBytes"@,
            "generationDate"@ != "isPartialArchive"@,
            "generationDate"@ != "maxPartSizeBytes"@,
            "isPartialArchive"@ != "maxPartSizeBytes"@,
    {
        reveal_strlit("sizeBytes");
        reveal_strlit("generationDate");
        reveal_strlit("isPartialArchive");
        reveal_strlit("maxPartSizeBytes");
        assert("sizeBytes"@.len() == 9);
        assert("generationDate"@.len() == 14);
        assert("isPartialArchive"@.len() == 16);
        assert("maxPartSizeBytes"@.len() == 16);
        assert("isPartialArchive"@[0] != "maxPartSizeBytes"@[0]);
    }
}

impl Record for ArchiveInfo {
    open spec fn read(value: JsonModel) -> Option<ArchiveInfoModel> {
        match value {
            JsonModel::Object(entries) => if entries.len() == 4
                && number_at(entries, "sizeBytes"@).is_some()
                && instant_at(entries, "generationDate"@).is_some()
                && flag_at(entries, "isPartialArchive"@).is_some()
                && number_at(entries, "maxPartSizeBytes"@).is_some()
            {
                Some(
                    ArchiveInfoModel {
                        size_bytes: number_at(entries, "sizeBytes"@).unwrap(),
                        generation_date: instant_at(entries, "generationDate"@).unwrap(),
                        is_partial_archive: flag_at(entries, "isPartialArchive"@).unwrap(),
                        max_part_size_bytes: number_at(entries, "maxPartSizeBytes"@).unwrap(),
                    },
                )
            } else {
                None
            },
            _ => None,
        }
    }

    open spec fn written(record: ArchiveInfoModel) -> JsonModel {
        JsonModel::Object(
            seq![
                ("sizeBytes"@, number_value(record.size_bytes)),
                (
                    "generationDate"@,
                    JsonModel::Text(date_time_iso_8601::encoded(record.generation_date)),
                ),
                ("isPartialArchive"@, JsonModel::Bool(record.is_partial_archive)),
                ("maxPartSizeBytes"@, number_value(record.max_part_size_bytes)),
            ],
        )
    }

    open spec fn is_writable(record: ArchiveInfoModel) -> bool {
        &&& record.generation_date.is_valid()
    }

    open spec fn is_canonical(value: JsonModel) -> bool {
        &&& value is Object
        &&& value->Object_0.len() == 4
        &&& value->Object_0[0].0 == "sizeBytes"@
        &&& value->Object_0[1].0 == "generationDate"@
        &&& value->Object_0[2].0 == "isPartialArchive"@
        &&& value->Object_0[3].0 == "maxPartSizeBytes"@
        &&& number_canonical(value->Object_0[0].1)
        &&& number_canonical(value->Object_0[3].1)
    }

    proof fn written_is_read_back(record: ArchiveInfoModel) {
        let entries = Self::written(record)->Object_0;
        Self::lemma_keys_differ();
        lemma_lookup_at(entries, 0);
        lemma_lookup_at(entries, 1);
        lemma_lookup_at(entries, 2);
        lemma_lookup_at(entries, 3);
        date_time_iso_8601::instant_round_trip(record.generation_date);
        lemma_number_value(entries, "sizeBytes"@, record.size_bytes);
        lemma_number_value(entries, "maxPartSizeBytes"@, record.max_part_size_bytes);
    }

    proof fn read_is_written_back(value: JsonModel) {
        let entries = value->Object_0;
        Self::lemma_keys_differ();
        lemma_lookup_at(entries, 0);
        lemma_lookup_at(entries, 1);
        lemma_lookup_at(entries, 2);
        lemma_lookup_at(entries, 3);
        lemma_number_at(entries, "sizeBytes"@);
        date_time_iso_8601::text_round_trip(entries[1].1->Text_0);
        lemma_number_at(entries, "maxPartSizeBytes"@);
        assert(Self::written(Self::read(value).unwrap())->Object_0 =~= entries);
    }

    fn decode(value: &Json) -> (r: Option<ArchiveInfo>) {
        let entries = match value.as_object() {
            Some(entries) => entries,
            None => {
                return None;
            },
        };
        if entries.len() != 4 {
            return None;
        }
        let size_bytes = match read_number(entries, "sizeBytes") {
            Some(found) => found,
            None => {
                return None;
            },
        };
        let generation_date = match read_instant(entries, "generationDate") {
            Some(found) => found,
            None => {
                return None;
            },
        };
        let is_partial_archive = match read_flag(entries, "isPartialArchive") {
            Some(found) => found,
            None => {
                return None;
            },
        };
        let max_part_size_bytes = match read_number(entries, "maxPartSizeBytes") {
            Some(found) => found,
            None => {
                return None;
            },
        };
        Some(ArchiveInfo { size_bytes, generation_date, is_partial_archive, max_part_size_bytes })
    }

    fn encode(&self) -> (r: Json) {
        let mut entries: Vec<(String, Json)> = Vec::new();
        entries.push(number_entry("sizeBytes", &self.size_bytes));
        entries.push(instant_entry("generationDate", &self.generation_date));
        entries.push(flag_entry("isPartialArchive", &self.is_partial_archive));
        entries.push(number_entry("maxPartSizeBytes", &self.max_part_size_bytes));
        proof {
            assert(entry_models(entries@) =~= Self::written(self@)->Object_0);
        }
        Json::object(entries)
    }
}

/// Where the description of the export lies.
#[derive(Clone, Debug, PartialEq, Eq)]
pub struct ReadmeInfo {
    /// The entry `fileName`.
    pub file_name: String,
    /// The entry `directory`.
    pub directory: String,
    /// The entry `name`.
    pub name: String,
}

/// What a value of [`ReadmeInfo`] holds.
pub struct ReadmeInfoModel {
    pub file_name: Seq<char>,
    pub directory: Seq<char>,
    pub name: Seq<char>,
}

impl View for ReadmeInfo {
    type V = ReadmeInfoModel;

    open spec fn view(&self) -> ReadmeInfoModel {
        ReadmeInfoModel {
            file_name: self.file_name@,
            directory: self.directory@,
            name: self.name@,
        }
    }
}

impl ReadmeInfo {
    /// No two of the keys are the same.
    proof fn lemma_keys_differ()
        ensures
            "fileName"@ != "directory"@,
            "fileName"@ != "name"@,
            "directory"@ != "name"@,
    {
        reveal_strlit("fileName");
        reveal_strlit("directory");
        reveal_strlit("name");
        assert("fileName"@.len() == 8);
        assert("directory"@.len() == 9);
        assert("name"@.len() == 4);
    }
}

impl Record for ReadmeInfo {
    open spec fn read(value: JsonModel) -> Option<ReadmeInfoModel> {
        match value {
            JsonModel::Object(entries) => if entries.len() == 3
                && text_at(entries, "fileName"@).is_some()
                && text_at(entries, "directory"@).is_some()
                && text_at(entries, "name"@).is_some()
            {
                Some(
                    ReadmeInfoModel {
                        file_name: text_at(entries, "fileName"@).unwrap(),
                        directory: text_at(entries, "directory"@).unwrap(),
                        name: text_at(entries, "name"@).unwrap(),
                    },
                )
            } else {
                None
            },
            _ => None,
        }
    }

    open spec fn written(record: ReadmeInfoModel) -> JsonModel {
        JsonModel::Object(
            seq![
                ("fileName"@, JsonModel::Text(record.file_name)),
                ("directory"@, JsonModel::Text(record.directory)),
                ("name"@, JsonModel::Text(record.name)),
            ],
        )
    }

    open spec fn is_writable(record: ReadmeInfoModel) -> bool {
        true
    }

    open spec fn is_canonical(value: JsonModel) -> bool {
        &&& value is Object
        &&& value->Object_0.len() == 3
        &&& value->Object_0[0].0 == "fileName"@
        &&& value->Object_0[1].0 == "directory"@
        &&& value->Object_0[2].0 == "name"@
    }

    proof fn written_is_read_back(record: ReadmeInfoModel) {
        let entries = Self::written(record)->Object_0;
        Self::lemma_keys_differ();
        lemma_lookup_at(entries, 0);
        lemma_lookup_at(entries, 1);
        lemma_lookup_at(entries, 2);
    }

    proof fn read_is_written_back(value: JsonModel) {
        let entries = value->Object_0;
        Self::lemma_keys_differ();
        lemma_lookup_at(entries, 0);
        lemma_lookup_at(entries, 1);
        lemma_lookup_at(entries, 2);
        assert(Self::written(Self::read(value).unwrap())->Object_0 =~= entries);
    }

    fn decode(value: &Json) -> (r: Option<ReadmeInfo>) {
        let entries = match value.as_object() {
            Some(entries) => entries,
            None => {
                return None;
            },
        };
        if entries.len() != 3 {
            return None;
        }
        let file_name = match read_text(entries, "fileName") {
            Some(found) => found,
            None => {
                return None;
            },
        };
        let directory = match read_text(entries, "directory") {
            Some(found) => found,
            None => {
                return None;
            },
        };
        let name = match read_text(entries, "name") {
            Some(found) => found,
            None => {
                return None;
            },
        };
        Some(ReadmeInfo { file_name, directory, name })
    }

    fn encode(&self) -> (r: Json) {
        let mut entries: Vec<(String, Json)> = Vec::new();
        entries.push(text_entry("fileName", &self.file_name));
        entries.push(text_entry("directory", &self.directory));
        entries.push(text_entry("name", &self.name));
        proof {
            assert(entry_models(entries@) =~= Self::written(self@)->Object_0);
        }
        Json::object(entries)
    }
}

/// The files of the export, one entry for each kind of data.
#[derive(Clone, Debug, PartialEq, Eq)]
pub struct DataTypes {
    /// The entry `account`.
    pub account: FileObject,
    /// The entry `accountCreationIp`.
    pub account_creation_ip: FileObject,
    /// The entry `accountLabel`.
    pub account_label: FileObject,
    /// The entry `accountSuspension`.
    pub account_suspension: FileObject,
    /// The entry `accountTimezone`.
    pub account_timezone: FileObject,
    /// The entry `adEngagements`.
    pub ad_engagements: FileObject,
    /// The entry `adImpressions`.
    pub ad_impressions: FileObject,
    /// The entry `adMobileConversionsAttributed`.
    pub ad_mobile_conversions_attributed: FileObject,
    /// The entry `adMobileConversionsUnattributed`.
    pub ad_mobile_conversions_unattributed: FileObject,
    /// The entry `adOnlineConversionsAttributed`.
    pub ad_online_conversions_attributed: FileObject,
    /// The entry `adOnlineConversionsUnattributed`.
    pub ad_online_conversions_unattributed: FileObject,
    /// The entry `ageinfo`.
    pub ageinfo: FileObject,
    /// The entry `app`.
    pub app: FileObject,
    /// The entry `block`.
    pub block: FileObject,
    /// The entry `branchLinks`.
    pub branch_links: FileObject,
    /// The entry `catalogItem`.
    pub catalog_item: FileObject,
    /// The entry `commerceCatalog`.
    pub commerce_catalog: FileObject,
    /// The entry `communityNote`.
    pub community_note: FileObject,
    /// The entry `communityNoteRating`.
    pub community_note_rating: FileObject,
    /// The entry `communityNoteTombstone`.
    pub community_note_tombstone: FileObject,
    /// The entry `communityTweet`.
    pub community_tweet: MediaDirectoryWithFiles,
    /// The entry `communityTweetMedia`.
    pub community_tweet_media: MediaDirectory,
    /// The entry `connectedApplication`.
    pub connected_application: FileObject,
    /// The entry `contact`.
    pub contact: FileObject,
    /// The entry `deletedNoteTweet`.
    pub deleted_note_tweet: FileObject,
    /// The entry `deletedTweetHeaders`.
    pub deleted_tweet_headers: FileObject,
    /// The entry `deletedTweets`.
    pub deleted_tweets: MediaDirectoryWithFiles,
    /// The entry `deletedTweetsMedia`.
    pub deleted_tweets_media: MediaDirectory,
    /// The entry `deviceToken`.
    pub device_token: FileObject,
    /// The entry `directMessageGroupHeaders`.
    pub direct_message_group_headers: FileObject,
    /// The entry `directMessageHeaders`.
    pub direct_message_headers: FileObject,
    /// The entry `directMessageMute`.
    pub direct_message_mute: FileObject,
    /// The entry `directMessages`.
    pub direct_messages: MediaDirectoryWithFiles,
    /// The entry `directMessagesGroup`.
    pub direct_messages_group: MediaDirectoryWithFiles,
    /// The entry `directMessagesGroupMedia`.
    pub direct_messages_group_media: MediaDirectory,
    /// The entry `directMessagesMedia`.
    pub direct_messages_media: MediaDirectory,
    /// The entry `emailAddressChange`.
    pub email_address_change: FileObject,
    /// The entry `follower`.
    pub follower: FileObject,
    /// The entry `following`.
    pub following: FileObject,
    /// The entry `ipAudit`.
    pub ip_audit: FileObject,
    /// The entry `keyRegistry`.
    pub key_registry: FileObject,
    /// The entry `like`.
    pub like: FileObject,
    /// The entry `listsCreated`.
    pub lists_created: FileObject,
    /// The entry `listsMember`.
    pub lists_member: FileObject,
    /// The entry `listsSubscribed`.
    pub lists_subscribed: FileObject,
    /// The entry `moment`.
    pub moment: MediaDirectoryWithFiles,
    /// The entry `momentsMedia`.
    pub moments_media: MediaDirectory,
    /// The entry `momentsTweetsMedia`.
    pub moments_tweets_media: MediaDirectory,
    /// The entry `mute`.
    pub mute: FileObject,
    /// The entry `niDevices`.
    pub ni_devices: FileObject,
    /// The entry `noteTweet`.
    pub note_tweet: FileObject,
    /// The entry `periscopeAccountInformation`.
    pub periscope_account_information: FileObject,
    /// The entry `periscopeBanInformation`.
    pub periscope_ban_information: FileObject,
    /// The entry `periscopeBroadcastMetadata`.
    pub periscope_broadcast_metadata: FileObject,
    /// The entry `periscopeCommentsMadeByUser`.
    pub periscope_comments_made_by_user: FileObject,
    /// The entry `periscopeExpiredBroadcasts`.
    pub periscope_expired_broadcasts: FileObject,
    /// The entry `periscopeFollowers`.
    pub periscope_followers: FileObject,
    /// The entry `periscopeProfileDescription`.
    pub periscope_profile_description: FileObject,
    /// The entry `personalization`.
    pub personalization: FileObject,
    /// The entry `phoneNumber`.
    pub phone_number: FileObject,
    /// The entry `productDrop`.
    pub product_drop: FileObject,
    /// The entry `productSet`.
    pub product_set: FileObject,
    /// The entry `professionalData`.
    pub professional_data: FileObject,
    /// The entry `profile`.
    pub profile: MediaDirectoryWithFiles,
    /// The entry `profileMedia`.
    pub profile_media: MediaDirectory,
    /// The entry `protectedHistory`.
    pub protected_history: FileObject,
    /// The entry `replyPrompt`.
    pub reply_prompt: FileObject,
    /// The entry `savedSearch`.
    pub saved_search: FileObject,
    /// The entry `screenNameChange`.
    pub screen_name_change: FileObject,
    /// The entry `shopModule`.
    pub shop_module: FileObject,
    /// The entry `shopifyAccount`.
    pub shopify_account: FileObject,
    /// The entry `smartblock`.
    pub smartblock: FileObject,
    /// The entry `spacesMetadata`.
    pub spaces_metadata: FileObject,
    /// The entry `sso`.
    pub sso: FileObject,
    /// The entry `tweetHeaders`.
    pub tweet_headers: FileObject,
    /// The entry `tweetdeck`.
    pub tweetdeck: FileObject,
    /// The entry `tweets`.
    pub tweets: MediaDirectoryWithFiles,
    /// The entry `tweetsMedia`.
    pub tweets_media: MediaDirectory,
    /// The entry `twitterArticle`.
    pub twitter_article: MediaDirectoryWithFiles,
    /// The entry `twitterArticleMedia`.
    pub twitter_article_media: MediaDirectory,
    /// The entry `twitterArticleMetadata`.
    pub twitter_article_metadata: FileObject,
    /// The entry `twitterCircle`.
    pub twitter_circle: MediaDirectoryWithFiles,
    /// The entry `twitterCircleMember`.
    pub twitter_circle_member: FileObject,
    /// The entry `twitterCircleTweet`.
    pub twitter_circle_tweet: MediaDirectoryWithFiles,
    /// The entry `twitterCircleTweetMedia`.
    pub twitter_circle_tweet_media: MediaDirectory,
    /// The entry `twitterShop`.
    pub twitter_shop: FileObject,
    /// The entry `userLinkClicks`.
    pub user_link_clicks: FileObject,
    /// The entry `verified`.
    pub verified: FileObject,
}

/// A kind of data with a directory of media beside its files.
#[derive(Clone, Debug, PartialEq, Eq)]
pub struct MediaDirectoryWithFiles {
    /// The entry `mediaDirectory`.
    pub media_directory: String,
    /// The entry `files`.
    pub files: Vec<File>,
}

/// What a value of [`MediaDirectoryWithFiles`] holds.
pub struct MediaDirectoryWithFilesModel {
    pub media_directory: Seq<char>,
    pub files: Seq<FileModel>,
}

impl View for MediaDirectoryWithFiles {
    type V = MediaDirectoryWithFilesModel;

    open spec fn view(&self) -> MediaDirectoryWithFilesModel {
        MediaDirectoryWithFilesModel {
            media_directory: self.media_directory@,
            files: record_models(self.files@),
        }
    }
}

impl MediaDirectoryWithFiles {
    /// No two of the keys are the same.
    proof fn lemma_keys_differ()
        ensures
            "mediaDirectory"@ != "files"@,
    {
        reveal_strlit("mediaDirectory");
        reveal_strlit("files");
        assert("mediaDirectory"@.len() == 14);
        assert("files"@.len() == 5);
    }
}

impl Record for MediaDirectoryWithFiles {
    open spec fn read(value: JsonModel) -> Option<MediaDirectoryWithFilesModel> {
        match value {
            JsonModel::Object(entries) => if entries.len() == 2
                && text_at(entries, "mediaDirectory"@).is_some()
                && record::records_at::<File>(entries, "files"@).is_some()
            {
                Some(
                    MediaDirectoryWithFilesModel {
                        media_directory: text_at(entries, "mediaDirectory"@).unwrap(),
                        files: record::records_at::<File>(entries, "files"@).unwrap(),
                    },
                )
            } else {
                None
            },
            _ => None,
        }
    }

    open spec fn written(record: MediaDirectoryWithFilesModel) -> JsonModel {
        JsonModel::Object(
            seq![
                ("mediaDirectory"@, JsonModel::Text(record.media_directory)),
                ("files"@, record::records_value::<File>(record.files)),
            ],
        )
    }

    open spec fn is_writable(record: MediaDirectoryWithFilesModel) -> bool {
        &&& record::all_writable::<File>(record.files)
    }

    open spec fn is_canonical(value: JsonModel) -> bool {
        &&& value is Object
        &&& value->Object_0.len() == 2
        &&& value->Object_0[0].0 == "mediaDirectory"@
        &&& value->Object_0[1].0 == "files"@
        &&& record::all_canonical::<File>(value->Object_0[1].1)
    }

    proof fn written_is_read_back(record: MediaDirectoryWithFilesModel) {
        let entries = Self::written(record)->Object_0;
        Self::lemma_keys_differ();
        lemma_lookup_at(entries, 0);
        lemma_lookup_at(entries, 1);
        record::lemma_records_value::<File>(record.files);
    }

    proof fn read_is_written_back(value: JsonModel) {
        let entries = value->Object_0;
        Self::lemma_keys_differ();
        lemma_lookup_at(entries, 0);
        lemma_lookup_at(entries, 1);
        record::lemma_records_of::<File>(entries[1].1);
        assert(Self::written(Self::read(value).unwrap())->Object_0 =~= entries);
    }

    fn decode(value: &Json) -> (r: Option<MediaDirectoryWithFiles>) {
        let entries = match value.as_object() {
            Some(entries) => entries,
            None => {
                return None;
            },
        };
        if entries.len() != 2 {
            return None;
        }
        let media_directory = match read_text(entries, "mediaDirectory") {
            Some(found) => found,
            None => {
                return None;
            },
        };
        let files = match read_records::<File>(entries, "files") {
            Some(found) => found,
            None => {
                return None;
            },
        };
        Some(MediaDirectoryWithFiles { media_directory, files })
    }

    fn encode(&self) -> (r: Json) {
        let mut entries: Vec<(String, Json)> = Vec::new();
        entries.push(text_entry("mediaDirectory", &self.media_directory));
        entries.push(records_entry("files", &self.files));
        proof {
            assert(entry_models(entries@) =~= Self::written(self@)->Object_0);
        }
        Json::object(entries)
    }
}

/// A kind of data that is a directory of media alone.
#[derive(Clone, Debug, PartialEq, Eq)]
pub struct MediaDirectory {
    /// The entry `mediaDirectory`.
    pub media_directory: String,
}

/// What a value of [`MediaDirectory`] holds.
pub struct MediaDirectoryModel {
    pub media_directory: Seq<char>,
}

impl View for MediaDirectory {
    type V = MediaDirectoryModel;

    open spec fn view(&self) -> MediaDirectoryModel {
        MediaDirectoryModel {
            media_directory: self.media_directory@,
        }
    }
}

impl Record for MediaDirectory {
    open spec fn read(value: JsonModel) -> Option<MediaDirectoryModel> {
        match value {
            JsonModel::Object(entries) => if entries.len() == 1
                && text_at(entries, "mediaDirectory"@).is_some()
            {
                Some(
                    MediaDirectoryModel {
                        media_directory: text_at(entries, "mediaDirectory"@).unwrap(),
                    },
                )
            } else {
                None
            },
            _ => None,
        }
    }

    open spec fn written(record: MediaDirectoryModel) -> JsonModel {
        JsonModel::Object(
            seq![
                ("mediaDirectory"@, JsonModel::Text(record.media_directory)),
            ],
        )
    }

    open spec fn is_writable(record: MediaDirectoryModel) -> bool {
        true
    }

    open spec fn is_canonical(value: JsonModel) -> bool {
        &&& value is Object
        &&& value->Object_0.len() == 1
        &&& value->Object_0[0].0 == "mediaDirectory"@
    }

    proof fn written_is_read_back(record: MediaDirectoryModel) {
        let entries = Self::written(record)->Object_0;
        lemma_lookup_at(entries, 0);
    }

    proof fn read_is_written_back(value: JsonModel) {
        let entries = value->Object_0;
        lemma_lookup_at(entries, 0);
        assert(Self::written(Self::read(value).unwrap())->Object_0 =~= entries);
    }

    fn decode(value: &Json) -> (r: Option<MediaDirectory>) {
        let entries = match value.as_object() {
            Some(entries) => entries,
            None => {
                return None;
            },
        };
        if entries.len() != 1 {
            return None;
        }
        let media_directory = match read_text(entries, "mediaDirectory") {
            Some(found) => found,
            None => {
                return None;
            },
        };
        Some(MediaDirectory { media_directory })
    }

    fn encode(&self) -> (r: Json) {
        let mut entries: Vec<(String, Json)> = Vec::new();
        entries.push(text_entry("mediaDirectory", &self.media_directory));
        proof {
            assert(entry_models(entries@) =~= Self::written(self@)->Object_0);
        }
        Json::object(entries)
    }
}

/// An object of one entry.
#[derive(Clone, Debug, PartialEq, Eq)]
pub struct FileObject {
    /// The entry `files`.
    pub files: Vec<File>,
}

/// What a value of [`FileObject`] holds.
pub struct FileObjectModel {
    pub files: Seq<FileModel>,
}

impl View for FileObject {
    type V = FileObjectModel;

    open spec fn view(&self) -> FileObjectModel {
        FileObjectModel {
            files: record_models(self.files@),
        }
    }
}

impl Record for FileObject {
    open spec fn read(value: JsonModel) -> Option<FileObjectModel> {
        match value {
            JsonModel::Object(entries) => if entries.len() == 1
                && record::records_at::<File>(entries, "files"@).is_some()
            {
                Some(
                    FileObjectModel {
                        files: record::records_at::<File>(entries, "files"@).unwrap(),
                    },
                )
            } else {
                None
            },
            _ => None,
        }
    }

    open spec fn written(record: FileObjectModel) -> JsonModel {
        JsonModel::Object(
            seq![
                ("files"@, record::records_value::<File>(record.files)),
            ],
        )
    }

    open spec fn is_writable(record: FileObjectModel) -> bool {
        &&& record::all_writable::<File>(record.files)
    }

    open spec fn is_canonical(value: JsonModel) -> bool {
        &&& value is Object
        &&& value->Object_0.len() == 1
        &&& value->Object_0[0].0 == "files"@
        &&& record::all_canonical::<File>(value->Object_0[0].1)
    }

    proof fn written_is_read_back(record: FileObjectModel) {
        let entries = Self::written(record)->Object_0;
        lemma_lookup_at(entries, 0);
        record::lemma_records_value::<File>(record.files);
    }

    proof fn read_is_written_back(value: JsonModel) {
        let entries = value->Object_0;
        lemma_lookup_at(entries, 0);
        record::lemma_records_of::<File>(entries[0].1);
        assert(Self::written(Self::read(value).unwrap())->Object_0 =~= entries);
    }

    fn decode(value: &Json) -> (r: Option<FileObject>) {
        let entries = match value.as_object() {
            Some(entries) => entries,
            None => {
                return None;
            },
        };
        if entries.len() != 1 {
            return None;
        }
        let files = match read_records::<File>(entries, "files") {
            Some(found) => found,
            None => {
                return None;
            },
        };
        Some(FileObject { files })
    }

    fn encode(&self) -> (r: Json) {
        let mut entries: Vec<(String, Json)> = Vec::new();
        entries.push(records_entry("files", &self.files));
        proof {
            assert(entry_models(entries@) =~= Self::written(self@)->Object_0);
        }
        Json::object(entries)
    }
}

/// One file of the export, and how many records it holds.
#[derive(Clone, Debug, PartialEq, Eq)]
pub struct File {
    /// The entry `fileName`.
    pub file_name: String,
    /// The entry `globalName`.
    pub global_name: String,
    /// The entry `count`, in the encoding of `convert::number_like_string`.
    pub count: u64,
}

/// What a value of [`File`] holds.
pub struct FileModel {
    pub file_name: Seq<char>,
    pub global_name: Seq<char>,
    pub count: u64,
}

impl View for File {
    type V = FileModel;

    open spec fn view(&self) -> FileModel {
        FileModel {
            file_name: self.file_name@,
            global_name: self.global_name@,
            count: self.count,
        }
    }
}

impl File {
    /// No two of the keys are the same.
    proof fn lemma_keys_differ()
        ensures
            "fileName"@ != "globalName"@,
            "fileName"@ != "count"@,
            "globalName"@ != "count"@,
    {
        reveal_strlit("fileName");
        reveal_strlit("globalName");
        reveal_strlit("count");
        assert("fileName"@.len() == 8);
        assert("globalName"@.len() == 10);
        assert("count"@.len() == 5);
    }
}

impl Record for File {
    open spec fn read(value: JsonModel) -> Option<FileModel> {
        match value {
            JsonModel::Object(entries) => if entries.len() == 3
                && text_at(entries, "fileName"@).is_some()
                && text_at(entries, "globalName"@).is_some()
                && number_at(entries, "count"@).is_some()
            {
                Some(
                    FileModel {
                        file_name: text_at(entries, "fileName"@).unwrap(),
                        global_name: text_at(entries, "globalName"@).unwrap(),
                        count: number_at(entries, "count"@).unwrap(),
                    },
                )
            } else {
                None
            },
            _ => None,
        }
    }

    open spec fn written(record: FileModel) -> JsonModel {
        JsonModel::Object(
            seq![
                ("fileName"@, JsonModel::Text(record.file_name)),
                ("globalName"@, JsonModel::Text(record.global_name)),
                ("count"@, number_value(record.count)),
            ],
        )
    }

    open spec fn is_writable(record: FileModel) -> bool {
        true
    }

    open spec fn is_canonical(value: JsonModel) -> bool {
        &&& value is Object
        &&& value->Object_0.len() == 3
        &&& value->Object_0[0].0 == "fileName"@
        &&& value->Object_0[1].0 == "globalName"@
        &&& value->Object_0[2].0 == "count"@
        &&& number_canonical(value->Object_0[2].1)
    }

    proof fn written_is_read_back(record: FileModel) {
        let entries = Self::written(record)->Object_0;
        Self::lemma_keys_differ();
        lemma_lookup_at(entries, 0);
        lemma_lookup_at(entries, 1);
        lemma_lookup_at(entries, 2);
        lemma_number_value(entries, "count"@, record.count);
    }

    proof fn read_is_written_back(value: JsonModel) {
        let entries = value->Object_0;
        Self::lemma_keys_differ();
        lemma_lookup_at(entries, 0);
        lemma_lookup_at(entries, 1);
        lemma_lookup_at(entries, 2);
        lemma_number_at(entries, "count"@);
        assert(Self::written(Self::read(value).unwrap())->Object_0 =~= entries);
    }

    fn decode(value: &Json) -> (r: Option<File>) {
        let entries = match value.as_object() {
            Some(entries) => entries,
            None => {
                return None;
            },
        };
        if entries.len() != 3 {
            return None;
        }
        let file_name = match read_text(entries, "fileName") {
            Some(found) => found,
            None => {
                return None;
            },
        };
        let global_name = match read_text(entries, "globalName") {
            Some(found) => found,
            None => {
                return None;
            },
        };
        let count = match read_number(entries, "count") {
            Some(found) => found,
            None => {
                return None;
            },
        };
        Some(File { file_name, global_name, count })
    }

    fn encode(&self) -> (r: Json) {
        let mut entries: Vec<(String, Json)> = Vec::new();
        entries.push(text_entry("fileName", &self.file_name));
        entries.push(text_entry("globalName", &self.global_name));
        entries.push(number_entry("count", &self.count));
        proof {
            assert(entry_models(entries@) =~= Self::written(self@)->Object_0);
        }
        Json::object(entries)
    }
}

} // verus!
