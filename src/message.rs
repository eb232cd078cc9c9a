//! Chat messages and the initial snapshot.

use vstd::prelude::*;
use crate::friend::FriendInfo;
use crate::room::RoomInfo;
use crate::validator::{check_id, check_length, len_within, validate_message_kind, ValidationError};

verus! {

/// A message as the server sends it. `kind` is `text` or `img`;
/// `send_at` is in microseconds since the Unix epoch, UTC.
#[derive(Clone, Debug)]
pub struct MessageInfo {
    pub id: i64,
    pub sid: i64,
    pub name: String,
    pub avatar: String,
    pub content: String,
    pub kind: String,
    pub send_at: i64,
}

/// The rooms and friends of the user, sent once the session is primed.
pub struct InitialResponse {
    pub rooms: Vec<RoomInfo>,
    pub friends: Vec<FriendInfo>,
}

pub struct NewMessageRequest {
    pub room_id: i64,
    pub content: String,
    pub kind: String,
}

impl NewMessageRequest {
    pub open spec fn is_valid(&self) -> bool {
        &&& self.room_id >= 1
        &&& len_within(self.content@, 1, 500)
        &&& (self.kind@ == "text"@ || self.kind@ == "img"@)
    }

    pub fn validate(&self) -> (r: Result<(), ValidationError>)
        ensures
            r is Ok <==> self.is_valid(),
    {
        check_id(self.room_id)?;
        check_length(self.content.as_str(), 1, 500, "must be between 1 and 500 characters")?;
        validate_message_kind(self.kind.as_str())
    }
}

pub struct NewMessageResponse {
    pub room_id: i64,
    pub message: MessageInfo,
}

} // verus!
