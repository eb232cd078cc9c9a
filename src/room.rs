//! Room records and the room payloads.

use vstd::prelude::*;
use crate::member::{check_id_list, MemberInfo};
use crate::message::MessageInfo;
use crate::validator::{check_id, check_length, len_within, valid_id_seq, ValidationError};

verus! {

/// A room as the server sends it. `category` is `public`, `private` or
/// `personal`; `create_at` is in microseconds since the Unix epoch, UTC.
#[derive(Clone, Debug)]
pub struct RoomInfo {
    pub id: i64,
    pub name: String,
    pub cover: String,
    pub category: String,
    pub create_at: i64,
    pub members: Vec<MemberInfo>,
    pub messages: Vec<MessageInfo>,
}

pub struct UserRoomsResponse {
    pub rooms: Vec<RoomInfo>,
}

pub struct NewRoomRequest {
    pub name: String,
    pub member_ids: Vec<i64>,
}

impl NewRoomRequest {
    pub open spec fn is_valid(&self) -> bool {
        &&& len_within(self.name@, 2, 50)
        &&& self.member_ids@.len() >= 3
        &&& valid_id_seq(self.member_ids@)
    }

    pub fn validate(&self) -> (r: Result<(), ValidationError>)
        ensures
            r is Ok <==> self.is_valid(),
    {
        check_length(self.name.as_str(), 2, 50, "must be between 2 and 50 characters")?;
        check_id_list(&self.member_ids, 3, "must have at least 3 members")
    }
}

pub struct NewRoomResponse {
    pub room: RoomInfo,
}

pub struct DeleteRoomRequest {
    pub room_id: i64,
}

impl DeleteRoomRequest {
    pub fn validate(&self) -> (r: Result<(), ValidationError>)
        ensures
            r is Ok <==> self.room_id >= 1,
    {
        check_id(self.room_id)
    }
}

pub struct DeleteRoomResponse {
    pub room_id: i64,
}

pub struct LeaveRoomRequest {
    pub room_id: i64,
}

impl LeaveRoomRequest {
    pub fn validate(&self) -> (r: Result<(), ValidationError>)
        ensures
            r is Ok <==> self.room_id >= 1,
    {
        check_id(self.room_id)
    }
}

pub struct LeaveRoomResponse {
    pub room_id: i64,
}

pub struct NewRoomNameResquest {
    pub room_id: i64,
    pub name: String,
}

impl NewRoomNameResquest {
    pub open spec fn is_valid(&self) -> bool {
        self.room_id >= 1 && len_within(self.name@, 2, 50)
    }

    pub fn validate(&self) -> (r: Result<(), ValidationError>)
        ensures
            r is Ok <==> self.is_valid(),
    {
        check_id(self.room_id)?;
        check_length(self.name.as_str(), 2, 50, "must be between 2 and 50 characters")
    }
}

pub struct NewRoomNameResponse {
    pub room_id: i64,
    pub name: String,
}

} // verus!
