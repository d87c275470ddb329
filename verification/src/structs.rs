//! The records of the export, one module for each file of it.

pub mod account;
pub mod account_timezone;
pub mod ad;
pub mod ad_engagements;
pub mod ad_impressions;
pub mod block;
pub mod community_note_rating;
pub mod connected_application;
pub mod deleted_tweet_headers;
pub mod device_token;
pub mod direct_message;
pub mod direct_message_group_headers;
pub mod direct_message_headers;
pub mod direct_messages;
pub mod direct_messages_group;
pub mod email_address_change;
pub mod follow;
pub mod follower;
pub mod following;
pub mod ip_audit;
pub mod key_registry;
pub mod like;
pub mod lists_member;
pub mod manifest;
pub mod mute;
pub mod ni_devices;
pub mod personalization;
pub mod phone_number;
pub mod profile;
pub mod screen_name_change;
pub mod tweet_headers;
pub mod tweetdeck;
pub mod tweets;
pub mod twitter_circle;
pub mod verified;
