//! Friend records and the friendship payloads.

use vstd::prelude::*;
use crate::validator::{check_id, ValidationError};

verus! {

/// A friendship record as the server sends it. `status` is `adding`,
/// `accepted` or `deleted`; `first` is set on the side that asked;
/// `create_at` is in microseconds since the Unix epoch, UTC.
#[derive(Clone, Debug)]
pub struct FriendInfo {
    pub id: i64,
    pub username: String,
    pub nickname: String,
    pub avatar: String,
    pub bio: String,
    pub status: String,
    pub room_id: i64,
    pub first: bool,
    pub create_at: i64,
}

pub struct UserFriendsResponse {
    pub friends: Vec<FriendInfo>,
}

pub struct AddFriendRequest {
    pub friend_id: i64,
}

impl AddFriendRequest {
    pub fn validate(&self) -> (r: Result<(), ValidationError>)
        ensures
            r is Ok <==> self.friend_id >= 1,
    {
        check_id(self.friend_id)
    }
}

pub struct AddFriendResponse {
    pub friend: FriendInfo,
}

pub struct AcceptFriendRequest {
    pub friend_id: i64,
}

impl AcceptFriendRequest {
    pub fn validate(&self) -> (r: Result<(), ValidationError>)
        ensures
            r is Ok <==> self.friend_id >= 1,
    {
        check_id(self.friend_id)
    }
}

pub struct AcceptFriendResponse {
    pub friend: FriendInfo,
}

pub struct RefuseFriendRequest {
    pub friend_id: i64,
}

impl RefuseFriendRequest {
    pub fn validate(&self) -> (r: Result<(), ValidationError>)
        ensures
            r is Ok <==> self.friend_id >= 1,
    {
        check_id(self.friend_id)
    }
}

pub struct RefuseFriendResponse {
    pub friend_id: i64,
}

pub struct DeleteFriendRequest {
    pub friend_id: i64,
}

impl DeleteFriendRequest {
    pub fn validate(&self) -> (r: Result<(), ValidationError>)
        ensures
            r is Ok <==> self.friend_id >= 1,
    {
        check_id(self.friend_id)
    }
}

pub struct DeleteFriendResponse {
    pub friend_id: i64,
}

} // verus!
