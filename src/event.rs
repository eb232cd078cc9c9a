//! The two tagged unions exchanged over the socket.

use vstd::prelude::*;
use crate::friend::{
    AcceptFriendRequest, AcceptFriendResponse, AddFriendRequest, AddFriendResponse,
    DeleteFriendRequest, DeleteFriendResponse, RefuseFriendRequest, RefuseFriendResponse,
    UserFriendsResponse,
};
use crate::member::{AddMembersRequest, AddMembersResponse, DeleteMembersRequest, DeleteMembersResponse};
use crate::message::{InitialResponse, NewMessageRequest, NewMessageResponse};
use crate::room::{
    DeleteRoomRequest, DeleteRoomResponse, LeaveRoomRequest, LeaveRoomResponse,
    NewRoomNameResponse, NewRoomNameResquest, NewRoomRequest, NewRoomResponse, UserRoomsResponse,
};
use crate::validator::ValidationError;

verus! {

/// Events from client to server.
pub enum ClientEvent {
    Close,
    Initialization,
    SendMessage(NewMessageRequest),
    GetUserRooms,
    CreateRoom(NewRoomRequest),
    DeleteRoom(DeleteRoomRequest),
    UpdateRoomName(NewRoomNameResquest),
    LeaveRoom(LeaveRoomRequest),
    AddMembers(AddMembersRequest),
    DeleteMembers(DeleteMembersRequest),
    GetUserFriends,
    AddFriend(AddFriendRequest),
    AcceptFriend(AcceptFriendRequest),
    RefuseFriend(RefuseFriendRequest),
    DeleteFriend(DeleteFriendRequest),
}

impl ClientEvent {
    /// The payload, if any, obeys its field rules.
    pub open spec fn is_valid(&self) -> bool {
        match self {
            ClientEvent::SendMessage(r) => r.is_valid(),
            ClientEvent::CreateRoom(r) => r.is_valid(),
            ClientEvent::DeleteRoom(r) => r.room_id >= 1,
            ClientEvent::UpdateRoomName(r) => r.is_valid(),
            ClientEvent::LeaveRoom(r) => r.room_id >= 1,
            ClientEvent::AddMembers(r) => r.is_valid(),
            ClientEvent::DeleteMembers(r) => r.is_valid(),
            ClientEvent::AddFriend(r) => r.friend_id >= 1,
            ClientEvent::AcceptFriend(r) => r.friend_id >= 1,
            ClientEvent::RefuseFriend(r) => r.friend_id >= 1,
            ClientEvent::DeleteFriend(r) => r.friend_id >= 1,
            _ => true,
        }
    }

    /// Check the payload against its field rules; an event that fails must
    /// not be sent.
    pub fn validate(&self) -> (r: Result<(), ValidationError>)
        ensures
            r is Ok <==> self.is_valid(),
    {
        match self {
            ClientEvent::SendMessage(r) => r.validate(),
            ClientEvent::CreateRoom(r) => r.validate(),
            ClientEvent::DeleteRoom(r) => r.validate(),
            ClientEvent::UpdateRoomName(r) => r.validate(),
            ClientEvent::LeaveRoom(r) => r.validate(),
            ClientEvent::AddMembers(r) => r.validate(),
            ClientEvent::DeleteMembers(r) => r.validate(),
            ClientEvent::AddFriend(r) => r.validate(),
            ClientEvent::AcceptFriend(r) => r.validate(),
            ClientEvent::RefuseFriend(r) => r.validate(),
            ClientEvent::DeleteFriend(r) => r.validate(),
            _ => Ok(()),
        }
    }
}

/// Events from server to client.
pub enum ServerEvent {
    Close(String),
    Initialized(InitialResponse),
    ReceiveMessage(NewMessageResponse),
    UserRooms(UserRoomsResponse),
    JoinedRoom(NewRoomResponse),
    DeletedRoom(DeleteRoomResponse),
    UpdatedRoomName(NewRoomNameResponse),
    LeavedRoom(LeaveRoomResponse),
    AddedRoomMembers(AddMembersResponse),
    DeletedRoomMembers(DeleteMembersResponse),
    UserFriends(UserFriendsResponse),
    AddFriend(AddFriendResponse),
    AcceptedFriend(AcceptFriendResponse),
    RefusedFriend(RefuseFriendResponse),
    DeletedFriend(DeleteFriendResponse),
}

} // verus!
