//! The records of the file `data/follower.js`.

use vstd::prelude::*;
use crate::envelope;
use crate::json::{Json, JsonModel};
use crate::record::{Record};
use crate::structs::follow::{Follow, FollowModel};

verus! {

/// An envelope: an object of the one entry `follower`, which holds a
/// [`Follow`].
#[derive(Clone, Debug, PartialEq, Eq)]
pub struct FollowerObject {
    /// The entry `follower`.
    pub follower: Follow,
}

/// What a value of [`FollowerObject`] holds.
pub struct FollowerObjectModel {
    pub follower: FollowModel,
}

impl View for FollowerObject {
    type V = FollowerObjectModel;

    open spec fn view(&self) -> FollowerObjectModel {
        FollowerObjectModel {
            follower: self.follower@,
        }
    }
}

impl Record for FollowerObject {
    open spec fn read(value: JsonModel) -> Option<FollowerObjectModel> {
        match envelope::opened(value, "follower"@) {
            Some(inner) => match Follow::read(inner) {
                Some(follower) => Some(FollowerObjectModel { follower }),
                None => None,
            },
            None => None,
        }
    }

    open spec fn written(record: FollowerObjectModel) -> JsonModel {
        envelope::sealed("follower"@, Follow::written(record.follower))
    }

    open spec fn is_writable(record: FollowerObjectModel) -> bool {
        Follow::is_writable(record.follower)
    }

    open spec fn is_canonical(value: JsonModel) -> bool {
        match envelope::opened(value, "follower"@) {
            Some(inner) => Follow::is_canonical(inner),
            None => false,
        }
    }

    proof fn written_is_read_back(record: FollowerObjectModel) {
        Follow::written_is_read_back(record.follower);
    }

    proof fn read_is_written_back(value: JsonModel) {
        Follow::read_is_written_back(envelope::opened(value, "follower"@).unwrap());
        envelope::open_then_seal(value, "follower"@);
    }

    fn decode(value: &Json) -> (r: Option<FollowerObject>) {
        match envelope::open(value, "follower") {
            Ok(inner) => match Follow::decode(inner) {
                Some(follower) => Some(FollowerObject { follower }),
                None => None,
            },
            Err(_) => None,
        }
    }

    fn encode(&self) -> (r: Json) {
        envelope::seal("follower", self.follower.encode())
    }
}

} // verus!
