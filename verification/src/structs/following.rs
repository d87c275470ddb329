//! The records of the file `data/following.js`.

use vstd::prelude::*;
use crate::envelope;
use crate::json::{Json, JsonModel};
use crate::record::{Record};
use crate::structs::follow::{Follow, FollowModel};

verus! {

/// An envelope: an object of the one entry `following`, which holds a
/// [`Follow`].
#[derive(Clone, Debug, PartialEq, Eq)]
pub struct FollowingObject {
    /// The entry `following`.
    pub following: Follow,
}

/// What a value of [`FollowingObject`] holds.
pub struct FollowingObjectModel {
    pub following: FollowModel,
}

impl View for FollowingObject {
    type V = FollowingObjectModel;

    open spec fn view(&self) -> FollowingObjectModel {
        FollowingObjectModel {
            following: self.following@,
        }
    }
}

impl Record for FollowingObject {
    open spec fn read(value: JsonModel) -> Option<FollowingObjectModel> {
        match envelope::opened(value, "following"@) {
            Some(inner) => match Follow::read(inner) {
                Some(following) => Some(FollowingObjectModel { following }),
                None => None,
            },
            None => None,
        }
    }

    open spec fn written(record: FollowingObjectModel) -> JsonModel {
        envelope::sealed("following"@, Follow::written(record.following))
    }

    open spec fn is_writable(record: FollowingObjectModel) -> bool {
        Follow::is_writable(record.following)
    }

    open spec fn is_canonical(value: JsonModel) -> bool {
        match envelope::opened(value, "following"@) {
            Some(inner) => Follow::is_canonical(inner),
            None => false,
        }
    }

    proof fn written_is_read_back(record: FollowingObjectModel) {
        Follow::written_is_read_back(record.following);
    }

    proof fn read_is_written_back(value: JsonModel) {
        Follow::read_is_written_back(envelope::opened(value, "following"@).unwrap());
        envelope::open_then_seal(value, "following"@);
    }

    fn decode(value: &Json) -> (r: Option<FollowingObject>) {
        match envelope::open(value, "following") {
            Ok(inner) => match Follow::decode(inner) {
                Some(following) => Some(FollowingObject { following }),
                None => None,
            },
            Err(_) => None,
        }
    }

    fn encode(&self) -> (r: Json) {
        envelope::seal("following", self.following.encode())
    }
}

} // verus!
