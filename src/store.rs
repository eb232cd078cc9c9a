//! The synchronised store: the client's snapshot of rooms and friends,
//! mutated only by server events, each mutation published on the bus.

use vstd::prelude::*;
use crate::event::ServerEvent;
use crate::friend::FriendInfo;
use crate::member::DeleteMembersResponse;
use crate::message::{InitialResponse, MessageInfo, NewMessageResponse};
use crate::room::RoomInfo;
use crate::sorting::{sort_room_infos, sort_rooms};
use crate::trigger::{next_count, AffectedFriend, AffectedRoom, TriggerAction, TriggerState};
use crate::types::{
    member_attrs, member_attrs_of, message_attrs, spec_friend_attr, spec_message_attr, FriendAttr, MemberAttr,
    MessageAttr, RoomAttr,
};

verus! {

// ---------------- Searching the store ---------------- //

/// `i` is the first room of `s` with the given id.
pub open spec fn is_first_room(s: Seq<RoomAttr>, id: i64, i: int) -> bool {
    &&& 0 <= i < s.len()
    &&& s[i].id == id
    &&& forall|j: int| 0 <= j < i ==> s[j].id != id
}

pub open spec fn has_room(s: Seq<RoomAttr>, id: i64) -> bool {
    exists|i: int| 0 <= i < s.len() && s[i].id == id
}

/// `i` is the first friend of `s` with the given id.
pub open spec fn is_first_friend(s: Seq<FriendAttr>, id: i64, i: int) -> bool {
    &&& 0 <= i < s.len()
    &&& s[i].id == id
    &&& forall|j: int| 0 <= j < i ==> s[j].id != id
}

pub open spec fn has_friend(s: Seq<FriendAttr>, id: i64) -> bool {
    exists|i: int| 0 <= i < s.len() && s[i].id == id
}

pub proof fn lemma_first_room_unique(s: Seq<RoomAttr>, id: i64, i: int, j: int)
    requires
        is_first_room(s, id, i),
        is_first_room(s, id, j),
    ensures
        i == j,
{
    if i < j {
        assert(s[i].id != id);
    } else if j < i {
        assert(s[j].id != id);
    }
}

pub proof fn lemma_first_friend_unique(s: Seq<FriendAttr>, id: i64, i: int, j: int)
    requires
        is_first_friend(s, id, i),
        is_first_friend(s, id, j),
    ensures
        i == j,
{
    if i < j {
        assert(s[i].id != id);
    } else if j < i {
        assert(s[j].id != id);
    }
}

/// The first room with the given id.
pub fn find_room(rooms: &Vec<RoomAttr>, id: i64) -> (r: Option<usize>)
    ensures
        r matches Some(i) ==> is_first_room(rooms@, id, i as int),
        r is None <==> !has_room(rooms@, id),
{
    let mut i: usize = 0;
    while i < rooms.len()
        invariant
            i <= rooms.len(),
            forall|j: int| 0 <= j < i ==> rooms@[j].id != id,
        decreases rooms.len() - i,
    {
        if rooms[i].id == id {
            return Some(i);
        }
        i += 1;
    }
    None
}

/// The first friend with the given id.
pub fn find_friend(friends: &Vec<FriendAttr>, id: i64) -> (r: Option<usize>)
    ensures
        r matches Some(i) ==> is_first_friend(friends@, id, i as int),
        r is None <==> !has_friend(friends@, id),
{
    let mut i: usize = 0;
    while i < friends.len()
        invariant
            i <= friends.len(),
            forall|j: int| 0 <= j < i ==> friends@[j].id != id,
        decreases friends.len() - i,
    {
        if friends[i].id == id {
            return Some(i);
        }
        i += 1;
    }
    None
}

// ---------------- What each event does ---------------- //

/// The rooms of a snapshot, in the given order, as the store keeps them.
pub open spec fn rooms_of(infos: Seq<RoomInfo>, rooms: Seq<RoomAttr>) -> bool {
    &&& rooms.len() == infos.len()
    &&& forall|k: int| 0 <= k < rooms.len() ==> (#[trigger] rooms[k]).is_attr_of(infos[k])
}

pub open spec fn friend_attrs(s: Seq<FriendInfo>) -> Seq<FriendAttr> {
    s.map_values(|f: FriendInfo| spec_friend_attr(f))
}

/// The unread counter after one more message; it stops at `i64::MAX`.
pub open spec fn bumped(x: i64) -> i64 {
    if x == i64::MAX { x } else { (x + 1) as i64 }
}

/// `n` is `o` with `m` appended and one more unread message.
pub open spec fn with_message(o: RoomAttr, n: RoomAttr, m: MessageAttr) -> bool {
    &&& n.id == o.id
    &&& n.name == o.name
    &&& n.cover == o.cover
    &&& n.category == o.category
    &&& n.members@ == o.members@
    &&& n.messages@ == o.messages@.push(m)
    &&& n.unreads == bumped(o.unreads)
}

/// `n` is `o` under a new name.
pub open spec fn with_name(o: RoomAttr, n: RoomAttr, name: String) -> bool {
    &&& n.id == o.id
    &&& n.name == name
    &&& n.cover == o.cover
    &&& n.category == o.category
    &&& n.unreads == o.unreads
    &&& n.members@ == o.members@
    &&& n.messages@ == o.messages@
}

/// `n` is `o` with the given member list.
pub open spec fn with_members(o: RoomAttr, n: RoomAttr, members: Seq<MemberAttr>) -> bool {
    &&& n.id == o.id
    &&& n.name == o.name
    &&& n.cover == o.cover
    &&& n.category == o.category
    &&& n.unreads == o.unreads
    &&& n.members@ == members
    &&& n.messages@ == o.messages@
}

/// `n` is `o` with at most the room at `i` changed.
pub open spec fn replaced_at(o: Seq<RoomAttr>, n: Seq<RoomAttr>, i: int) -> bool {
    &&& n.len() == o.len()
    &&& forall|k: int| 0 <= k < o.len() && k != i ==> n[k] == o[k]
}

/// Members whose id is not in `ids`, in order.
pub open spec fn kept_members(s: Seq<MemberAttr>, ids: Seq<i64>) -> Seq<MemberAttr> {
    s.filter(|m: MemberAttr| !ids.contains(m.id))
}

/// Rooms whose id differs from `id`, in order.
pub open spec fn rooms_without(s: Seq<RoomAttr>, id: i64) -> Seq<RoomAttr> {
    s.filter(|r: RoomAttr| r.id != id)
}

/// The list after `Vec::swap_remove(i)`: the last entry takes the place of
/// the removed one.
pub open spec fn swap_removed<A>(s: Seq<A>, i: int) -> Seq<A> {
    s.update(i, s.last()).drop_last()
}

/// One mutation was published with the given classification.
pub open spec fn published(ot: TriggerState, nt: TriggerState, a: TriggerAction) -> bool {
    nt.count == next_count(ot.count) && nt.action == a
}

// ---------------- The store ---------------- //

/// The client's snapshot: rooms in the order of their latest activity (most
/// recent last), friends, the selection cursors and the current user.
pub struct WebSocketState {
    pub rooms: Vec<RoomAttr>,
    pub friends: Vec<FriendAttr>,
    pub curr_room: i64,
    pub curr_friend: i64,
    pub curr_user: i64,
}

/// The effect of one server event on the store and on the bus.
pub open spec fn applied(
    o: WebSocketState,
    n: WebSocketState,
    ot: TriggerState,
    nt: TriggerState,
    event: ServerEvent,
    r: Result<(), String>,
) -> bool {
    &&& n.curr_room == o.curr_room
    &&& n.curr_friend == o.curr_friend
    &&& n.curr_user == o.curr_user
    &&& match event {
        ServerEvent::Close(msg) => {
            &&& r == Err::<(), String>(msg)
            &&& n.rooms@ == o.rooms@
            &&& n.friends@ == o.friends@
            &&& nt == ot
        },
        ServerEvent::Initialized(resp) => {
            &&& r is Ok
            &&& rooms_of(sort_rooms(resp.rooms@), n.rooms@)
            &&& n.friends@ == friend_attrs(resp.friends@)
            &&& published(ot, nt, TriggerAction::Init)
        },
        ServerEvent::ReceiveMessage(resp) => {
            &&& r is Ok
            &&& n.friends@ == o.friends@
            &&& if has_room(o.rooms@, resp.room_id) {
                &&& forall|i: int| #[trigger]
                    is_first_room(o.rooms@, resp.room_id, i) ==> {
                        &&& n.rooms@.len() == o.rooms@.len()
                        &&& n.rooms@.drop_last() == o.rooms@.remove(i)
                        &&& with_message(o.rooms@[i], n.rooms@.last(), spec_message_attr(resp.message))
                    }
                &&& published(
                    ot,
                    nt,
                    TriggerAction::Message(AffectedRoom { room_id: resp.room_id, curr_room: o.curr_room }),
                )
            } else {
                n.rooms@ == o.rooms@ && nt == ot
            }
        },
        ServerEvent::UserRooms(resp) => {
            &&& r is Ok
            &&& rooms_of(sort_rooms(resp.rooms@), n.rooms@)
            &&& n.friends@ == o.friends@
            &&& published(ot, nt, TriggerAction::Init)
        },
        ServerEvent::JoinedRoom(resp) => {
            &&& r is Ok
            &&& n.friends@ == o.friends@
            &&& n.rooms@.len() == o.rooms@.len() + 1
            &&& n.rooms@.drop_last() == o.rooms@
            &&& n.rooms@.last().is_attr_of(resp.room)
            &&& published(
                ot,
                nt,
                TriggerAction::Room(AffectedRoom { room_id: resp.room.id, curr_room: o.curr_room }),
            )
        },
        ServerEvent::DeletedRoom(resp) => {
            &&& r is Ok
            &&& n.friends@ == o.friends@
            &&& if has_room(o.rooms@, resp.room_id) {
                &&& forall|i: int| #[trigger]
                    is_first_room(o.rooms@, resp.room_id, i) ==> n.rooms@ == o.rooms@.remove(i)
                &&& published(
                    ot,
                    nt,
                    TriggerAction::Room(AffectedRoom { room_id: resp.room_id, curr_room: o.curr_room }),
                )
            } else {
                n.rooms@ == o.rooms@ && nt == ot
            }
        },
        ServerEvent::UpdatedRoomName(resp) => {
            &&& r is Ok
            &&& n.friends@ == o.friends@
            &&& if has_room(o.rooms@, resp.room_id) {
                &&& forall|i: int| #[trigger]
                    is_first_room(o.rooms@, resp.room_id, i) ==> {
                        &&& replaced_at(o.rooms@, n.rooms@, i)
                        &&& with_name(o.rooms@[i], n.rooms@[i], resp.name)
                    }
                &&& published(
                    ot,
                    nt,
                    TriggerAction::Room(AffectedRoom { room_id: resp.room_id, curr_room: o.curr_room }),
                )
            } else {
                n.rooms@ == o.rooms@ && nt == ot
            }
        },
        ServerEvent::LeavedRoom(resp) => {
            &&& r is Ok
            &&& n.friends@ == o.friends@
            &&& n.rooms@ == rooms_without(o.rooms@, resp.room_id)
            &&& published(
                ot,
                nt,
                TriggerAction::Room(AffectedRoom { room_id: resp.room_id, curr_room: o.curr_room }),
            )
        },
        ServerEvent::AddedRoomMembers(resp) => {
            &&& r is Ok
            &&& n.friends@ == o.friends@
            &&& if has_room(o.rooms@, resp.room_id) {
                &&& forall|i: int| #[trigger]
                    is_first_room(o.rooms@, resp.room_id, i) ==> {
                        &&& replaced_at(o.rooms@, n.rooms@, i)
                        &&& with_members(o.rooms@[i], n.rooms@[i], o.rooms@[i].members@ + member_attrs(resp.members@))
                    }
                &&& published(
                    ot,
                    nt,
                    TriggerAction::Member(AffectedRoom { room_id: resp.room_id, curr_room: o.curr_room }),
                )
            } else {
                n.rooms@ == o.rooms@ && nt == ot
            }
        },
        ServerEvent::DeletedRoomMembers(resp) => {
            &&& r is Ok
            &&& n.friends@ == o.friends@
            &&& if has_room(o.rooms@, resp.room_id) {
                &&& forall|i: int| #[trigger]
                    is_first_room(o.rooms@, resp.room_id, i) ==> {
                        &&& replaced_at(o.rooms@, n.rooms@, i)
                        &&& with_members(o.rooms@[i], n.rooms@[i], kept_members(o.rooms@[i].members@, resp.member_ids@))
                    }
                &&& published(
                    ot,
                    nt,
                    TriggerAction::Member(AffectedRoom { room_id: resp.room_id, curr_room: o.curr_room }),
                )
            } else {
                n.rooms@ == o.rooms@ && nt == ot
            }
        },
        ServerEvent::UserFriends(resp) => {
            &&& r is Ok
            &&& n.rooms@ == o.rooms@
            &&& n.friends@ == friend_attrs(resp.friends@)
            &&& published(ot, nt, TriggerAction::Init)
        },
        ServerEvent::AddFriend(resp) => {
            &&& r is Ok
            &&& n.rooms@ == o.rooms@
            &&& n.friends@ == o.friends@.push(spec_friend_attr(resp.friend))
            &&& published(ot, nt, TriggerAction::NewFriend)
        },
        ServerEvent::AcceptedFriend(resp) => {
            &&& r is Ok
            &&& n.rooms@ == o.rooms@
            &&& if has_friend(o.friends@, resp.friend.id) {
                forall|i: int| #[trigger]
                    is_first_friend(o.friends@, resp.friend.id, i) ==> n.friends@ == swap_removed(
                        o.friends@,
                        i,
                    ).push(spec_friend_attr(resp.friend))
            } else {
                n.friends@ == o.friends@.push(spec_friend_attr(resp.friend))
            }
            &&& published(
                ot,
                nt,
                TriggerAction::Friend(AffectedFriend { friend_id: resp.friend.id, curr_friend: o.curr_friend }),
            )
        },
        ServerEvent::RefusedFriend(resp) => {
            &&& r is Ok
            &&& n.rooms@ == o.rooms@
            &&& if has_friend(o.friends@, resp.friend_id) {
                &&& forall|i: int| #[trigger]
                    is_first_friend(o.friends@, resp.friend_id, i) ==> n.friends@ == swap_removed(o.friends@, i)
                &&& published(ot, nt, TriggerAction::NewFriend)
            } else {
                n.friends@ == o.friends@ && nt == ot
            }
        },
        ServerEvent::DeletedFriend(resp) => {
            &&& r is Ok
            &&& n.rooms@ == o.rooms@
            &&& if has_friend(o.friends@, resp.friend_id) {
                &&& forall|i: int| #[trigger]
                    is_first_friend(o.friends@, resp.friend_id, i) ==> n.friends@ == swap_removed(o.friends@, i)
                &&& published(
                    ot,
                    nt,
                    TriggerAction::Friend(AffectedFriend { friend_id: resp.friend_id, curr_friend: o.curr_friend }),
                )
            } else {
                n.friends@ == o.friends@ && nt == ot
            }
        },
    }
}

// ---------------- Building blocks ---------------- //

/// The rooms of a snapshot, ordered and converted.
fn rooms_from(infos: Vec<RoomInfo>) -> (r: Vec<RoomAttr>)
    ensures
        rooms_of(sort_rooms(infos@), r@),
{
    let sorted = sort_room_infos(infos);
    let ghost s = sorted@;
    let mut input = sorted;
    let mut out: Vec<RoomAttr> = Vec::new();
    let ghost mut i: int = 0;
    while input.len() > 0
        invariant
            0 <= i <= s.len(),
            input@ == s.subrange(i, s.len() as int),
            out@.len() == i,
            forall|k: int| 0 <= k < i ==> (#[trigger] out@[k]).is_attr_of(s[k]),
        decreases input.len(),
    {
        let x = input.remove(0);
        assert(x == s[i]);
        out.push(RoomAttr::from_info(x));
        proof {
            i = i + 1;
            assert(input@ =~= s.subrange(i, s.len() as int));
        }
    }
    out
}

/// The friends of a snapshot, converted in order.
fn friends_from(infos: Vec<FriendInfo>) -> (r: Vec<FriendAttr>)
    ensures
        r@ == friend_attrs(infos@),
{
    let ghost s = infos@;
    let mut input = infos;
    let mut out: Vec<FriendAttr> = Vec::new();
    let ghost mut i: int = 0;
    while input.len() > 0
        invariant
            0 <= i <= s.len(),
            input@ == s.subrange(i, s.len() as int),
            out@ == friend_attrs(s.subrange(0, i)),
        decreases input.len(),
    {
        let x = input.remove(0);
        assert(x == s[i]);
        out.push(FriendAttr::from_info(x));
        proof {
            assert(friend_attrs(s.subrange(0, i + 1)) =~= friend_attrs(s.subrange(0, i)).push(spec_friend_attr(x)));
            i = i + 1;
            assert(input@ =~= s.subrange(i, s.len() as int));
        }
    }
    assert(s.subrange(0, i) =~= s);
    out
}

/// Whether `id` is in `ids`.
pub fn contains_id(ids: &Vec<i64>, id: i64) -> (r: bool)
    ensures
        r == ids@.contains(id),
{
    let mut i: usize = 0;
    while i < ids.len()
        invariant
            i <= ids.len(),
            forall|k: int| 0 <= k < i ==> ids@[k] != id,
        decreases ids.len() - i,
    {
        if ids[i] == id {
            assert(ids@[i as int] == id);
            return true;
        }
        i += 1;
    }
    false
}

/// Keep the rooms whose id differs from `id`.
fn retain_rooms(rooms: &mut Vec<RoomAttr>, id: i64)
    ensures
        final(rooms)@ == rooms_without(old(rooms)@, id),
{
    let ghost s = rooms@;
    let mut input: Vec<RoomAttr> = Vec::new();
    std::mem::swap(rooms, &mut input);
    let ghost mut i: int = 0;
    assert(s.subrange(0, 0) =~= Seq::<RoomAttr>::empty());
    proof {
        reveal(Seq::filter);
    }
    while input.len() > 0
        invariant
            0 <= i <= s.len(),
            input@ == s.subrange(i, s.len() as int),
            rooms@ == rooms_without(s.subrange(0, i), id),
        decreases input.len(),
    {
        let x = input.remove(0);
        assert(x == s[i]);
        let keep = x.id != id;
        if keep {
            rooms.push(x);
        }
        proof {
            let t = s.subrange(0, i + 1);
            assert(t.drop_last() =~= s.subrange(0, i));
            reveal(Seq::filter);
            i = i + 1;
            assert(input@ =~= s.subrange(i, s.len() as int));
        }
    }
    assert(s.subrange(0, i) =~= s);
}

/// Keep the members whose id is not in `ids`.
fn retain_members(members: &mut Vec<MemberAttr>, ids: &Vec<i64>)
    ensures
        final(members)@ == kept_members(old(members)@, ids@),
{
    let ghost s = members@;
    let mut input: Vec<MemberAttr> = Vec::new();
    std::mem::swap(members, &mut input);
    let ghost mut i: int = 0;
    assert(s.subrange(0, 0) =~= Seq::<MemberAttr>::empty());
    proof {
        reveal(Seq::filter);
    }
    while input.len() > 0
        invariant
            0 <= i <= s.len(),
            input@ == s.subrange(i, s.len() as int),
            members@ == kept_members(s.subrange(0, i), ids@),
        decreases input.len(),
    {
        let x = input.remove(0);
        assert(x == s[i]);
        if !contains_id(ids, x.id) {
            members.push(x);
        }
        proof {
            let t = s.subrange(0, i + 1);
            assert(t.drop_last() =~= s.subrange(0, i));
            reveal(Seq::filter);
            i = i + 1;
            assert(input@ =~= s.subrange(i, s.len() as int));
        }
    }
    assert(s.subrange(0, i) =~= s);
}

impl WebSocketState {
    /// An empty store for `curr_user`, with nothing selected.
    pub fn new(curr_user: i64) -> (r: WebSocketState)
        ensures
            r.rooms@.len() == 0,
            r.friends@.len() == 0,
            r.curr_room == 0,
            r.curr_friend == 0,
            r.curr_user == curr_user,
    {
        WebSocketState { rooms: Vec::new(), friends: Vec::new(), curr_room: 0, curr_friend: 0, curr_user }
    }

    /// Apply one server event and publish what it touched. A `Close` event
    /// changes nothing and hands its reason back as the error.
    pub fn handle_event(&mut self, event: ServerEvent, trigger: &mut TriggerState) -> (r: Result<(), String>)
        ensures
            applied(*old(self), *final(self), *old(trigger), *final(trigger), event, r),
    {
        match event {
            ServerEvent::Close(msg) => Err(msg),
            ServerEvent::Initialized(resp) => {
                self.rooms = rooms_from(resp.rooms);
                self.friends = friends_from(resp.friends);
                trigger.reduce(TriggerAction::Init);
                Ok(())
            },
            ServerEvent::ReceiveMessage(resp) => {
                self.receive_message(resp, trigger);
                Ok(())
            },
            ServerEvent::UserRooms(resp) => {
                self.rooms = rooms_from(resp.rooms);
                trigger.reduce(TriggerAction::Init);
                Ok(())
            },
            ServerEvent::JoinedRoom(resp) => {
                let aroom = AffectedRoom { room_id: resp.room.id, curr_room: self.curr_room };
                self.rooms.push(RoomAttr::from_info(resp.room));
                assert(self.rooms@.drop_last() =~= old(self).rooms@);
                trigger.reduce(TriggerAction::Room(aroom));
                Ok(())
            },
            ServerEvent::DeletedRoom(resp) => {
                if let Some(idx) = find_room(&self.rooms, resp.room_id) {
                    self.rooms.remove(idx);
                    let aroom = AffectedRoom { room_id: resp.room_id, curr_room: self.curr_room };
                    trigger.reduce(TriggerAction::Room(aroom));
                    proof {
                        assert forall|i: int| #[trigger] is_first_room(old(self).rooms@, resp.room_id, i) implies i == idx by {
                            lemma_first_room_unique(old(self).rooms@, resp.room_id, i, idx as int);
                        }
                    }
                }
                Ok(())
            },
            ServerEvent::UpdatedRoomName(resp) => {
                if let Some(idx) = find_room(&self.rooms, resp.room_id) {
                    let mut room = self.rooms.remove(idx);
                    room.name = resp.name;
                    self.rooms.insert(idx, room);
                    let aroom = AffectedRoom { room_id: resp.room_id, curr_room: self.curr_room };
                    trigger.reduce(TriggerAction::Room(aroom));
                    proof {
                        assert forall|i: int| #[trigger] is_first_room(old(self).rooms@, resp.room_id, i) implies i == idx by {
                            lemma_first_room_unique(old(self).rooms@, resp.room_id, i, idx as int);
                        }
                    }
                }
                Ok(())
            },
            ServerEvent::LeavedRoom(resp) => {
                retain_rooms(&mut self.rooms, resp.room_id);
                let aroom = AffectedRoom { room_id: resp.room_id, curr_room: self.curr_room };
                trigger.reduce(TriggerAction::Room(aroom));
                Ok(())
            },
            ServerEvent::AddedRoomMembers(resp) => {
                if let Some(idx) = find_room(&self.rooms, resp.room_id) {
                    let mut room = self.rooms.remove(idx);
                    let mut members = member_attrs_of(&resp.members);
                    room.members.append(&mut members);
                    self.rooms.insert(idx, room);
                    let aroom = AffectedRoom { room_id: resp.room_id, curr_room: self.curr_room };
                    trigger.reduce(TriggerAction::Member(aroom));
                    proof {
                        assert forall|i: int| #[trigger] is_first_room(old(self).rooms@, resp.room_id, i) implies i == idx by {
                            lemma_first_room_unique(old(self).rooms@, resp.room_id, i, idx as int);
                        }
                    }
                }
                Ok(())
            },
            ServerEvent::DeletedRoomMembers(resp) => {
                if let Some(idx) = find_room(&self.rooms, resp.room_id) {
                    let mut room = self.rooms.remove(idx);
                    retain_members(&mut room.members, &resp.member_ids);
                    self.rooms.insert(idx, room);
                    let aroom = AffectedRoom { room_id: resp.room_id, curr_room: self.curr_room };
                    trigger.reduce(TriggerAction::Member(aroom));
                    proof {
                        assert forall|i: int| #[trigger] is_first_room(old(self).rooms@, resp.room_id, i) implies i == idx by {
                            lemma_first_room_unique(old(self).rooms@, resp.room_id, i, idx as int);
                        }
                    }
                }
                Ok(())
            },
            ServerEvent::UserFriends(resp) => {
                self.friends = friends_from(resp.friends);
                trigger.reduce(TriggerAction::Init);
                Ok(())
            },
            ServerEvent::AddFriend(resp) => {
                self.friends.push(FriendAttr::from_info(resp.friend));
                trigger.reduce(TriggerAction::NewFriend);
                Ok(())
            },
            ServerEvent::AcceptedFriend(resp) => {
                let friend_id = resp.friend.id;
                if let Some(idx) = find_friend(&self.friends, friend_id) {
                    self.friends.swap_remove(idx);
                    proof {
                        assert forall|i: int| #[trigger] is_first_friend(old(self).friends@, friend_id, i) implies i == idx by {
                            lemma_first_friend_unique(old(self).friends@, friend_id, i, idx as int);
                        }
                    }
                }
                let afriend = AffectedFriend { friend_id, curr_friend: self.curr_friend };
                self.friends.push(FriendAttr::from_info(resp.friend));
                trigger.reduce(TriggerAction::Friend(afriend));
                Ok(())
            },
            ServerEvent::RefusedFriend(resp) => {
                if let Some(idx) = find_friend(&self.friends, resp.friend_id) {
                    self.friends.swap_remove(idx);
                    trigger.reduce(TriggerAction::NewFriend);
                    proof {
                        assert forall|i: int| #[trigger] is_first_friend(old(self).friends@, resp.friend_id, i) implies i == idx by {
                            lemma_first_friend_unique(old(self).friends@, resp.friend_id, i, idx as int);
                        }
                    }
                }
                Ok(())
            },
            ServerEvent::DeletedFriend(resp) => {
                if let Some(idx) = find_friend(&self.friends, resp.friend_id) {
                    self.friends.swap_remove(idx);
                    let afriend = AffectedFriend { friend_id: resp.friend_id, curr_friend: self.curr_friend };
                    trigger.reduce(TriggerAction::Friend(afriend));
                    proof {
                        assert forall|i: int| #[trigger] is_first_friend(old(self).friends@, resp.friend_id, i) implies i == idx by {
                            lemma_first_friend_unique(old(self).friends@, resp.friend_id, i, idx as int);
                        }
                    }
                }
                Ok(())
            },
        }
    }

    /// Append a message to its room, count it unread and move the room to
    /// the end of the list.
    fn receive_message(&mut self, resp: NewMessageResponse, trigger: &mut TriggerState)
        ensures
            applied(*old(self), *final(self), *old(trigger), *final(trigger), ServerEvent::ReceiveMessage(resp), Ok(())),
    {
        if let Some(idx) = find_room(&self.rooms, resp.room_id) {
            let ghost o = self.rooms@;
            let mut room = self.rooms.remove(idx);
            room.messages.push(MessageAttr::from_info(resp.message));
            if room.unreads < i64::MAX {
                room.unreads = room.unreads + 1;
            }
            let aroom = AffectedRoom { room_id: room.id, curr_room: self.curr_room };
            self.rooms.push(room);
            trigger.reduce(TriggerAction::Message(aroom));
            proof {
                assert(self.rooms@.drop_last() =~= o.remove(idx as int));
                assert forall|i: int| #[trigger] is_first_room(o, resp.room_id, i) implies i == idx by {
                    lemma_first_room_unique(o, resp.room_id, i, idx as int);
                }
            }
        }
    }
}

// ---------------- Laws ---------------- //

/// A list holding a room with the given id has a first such room.
pub proof fn lemma_first_room_exists(s: Seq<RoomAttr>, id: i64) -> (i: int)
    requires
        has_room(s, id),
    ensures
        is_first_room(s, id, i),
    decreases s.len(),
{
    if s.last().id == id && !has_room(s.drop_last(), id) {
        assert forall|j: int| 0 <= j < s.len() - 1 implies s[j].id != id by {
            assert(s.drop_last()[j] == s[j]);
        }
        s.len() - 1
    } else {
        let w = choose|w: int| 0 <= w < s.len() && s[w].id == id;
        if w < s.len() - 1 {
            assert(s.drop_last()[w] == s[w]);
        }
        let i = lemma_first_room_exists(s.drop_last(), id);
        assert(s[i] == s.drop_last()[i]);
        assert forall|j: int| 0 <= j < i implies s[j].id != id by {
            assert(s.drop_last()[j] == s[j]);
        }
        i
    }
}

/// After `DeletedRoomMembers`, no member whose id was in the deletion set
/// remains in that room, and every other room is as it was.
pub proof fn lemma_deleted_members_gone(
    o: WebSocketState,
    n: WebSocketState,
    ot: TriggerState,
    nt: TriggerState,
    resp: DeleteMembersResponse,
)
    requires
        applied(o, n, ot, nt, ServerEvent::DeletedRoomMembers(resp), Ok(())),
    ensures
        n.rooms@.len() == o.rooms@.len(),
        forall|i: int| #[trigger]
            is_first_room(o.rooms@, resp.room_id, i) ==> forall|k: int| 0 <= k < n.rooms@[i].members@.len()
                ==> !resp.member_ids@.contains(#[trigger] n.rooms@[i].members@[k].id),
        forall|k: int| 0 <= k < o.rooms@.len() && !is_first_room(o.rooms@, resp.room_id, k) ==> #[trigger] n.rooms@[k] == o.rooms@[k],
{
    if has_room(o.rooms@, resp.room_id) {
        let f = lemma_first_room_exists(o.rooms@, resp.room_id);
        let pred = |m: MemberAttr| !resp.member_ids@.contains(m.id);
        broadcast use vstd::seq_lib::group_filter_ensures;
        assert(n.rooms@[f].members@ == o.rooms@[f].members@.filter(pred));
        assert forall|k: int| 0 <= k < o.rooms@.len() && !is_first_room(o.rooms@, resp.room_id, k) implies #[trigger] n.rooms@[k]
            == o.rooms@[k] by {
            assert(k != f);
        }
        assert forall|i2: int| #[trigger]
            is_first_room(o.rooms@, resp.room_id, i2) implies forall|k: int| 0 <= k < n.rooms@[i2].members@.len()
                ==> !resp.member_ids@.contains(#[trigger] n.rooms@[i2].members@[k].id) by {
            lemma_first_room_unique(o.rooms@, resp.room_id, i2, f);
            assert forall|k: int| 0 <= k < n.rooms@[f].members@.len() implies !resp.member_ids@.contains(
                #[trigger] n.rooms@[f].members@[k].id) by {
                assert(pred(o.rooms@[f].members@.filter(pred)[k]));
            }
        }
    }
}

/// Two stores that receive the same `Initialized` snapshot hold the same
/// rooms and friends afterwards, whatever they held before; in particular
/// applying it twice in a row changes nothing the second time.
pub proof fn lemma_initialized_replaces(
    a0: WebSocketState,
    a1: WebSocketState,
    at0: TriggerState,
    at1: TriggerState,
    b0: WebSocketState,
    b1: WebSocketState,
    bt0: TriggerState,
    bt1: TriggerState,
    resp: InitialResponse,
)
    requires
        applied(a0, a1, at0, at1, ServerEvent::Initialized(resp), Ok(())),
        applied(b0, b1, bt0, bt1, ServerEvent::Initialized(resp), Ok(())),
    ensures
        a1.friends@ == b1.friends@,
        a1.rooms@.len() == b1.rooms@.len(),
        forall|k: int| 0 <= k < a1.rooms@.len() ==> (#[trigger] a1.rooms@[k]).same_as(b1.rooms@[k]),
{
    let sorted = sort_rooms(resp.rooms@);
    assert forall|k: int| 0 <= k < a1.rooms@.len() implies (#[trigger] a1.rooms@[k]).same_as(b1.rooms@[k]) by {
        assert(a1.rooms@[k].is_attr_of(sorted[k]));
        assert(b1.rooms@[k].is_attr_of(sorted[k]));
    }
}

/// The rooms with the given id: exactly one.
pub open spec fn unique_room(s: Seq<RoomAttr>, id: i64) -> bool {
    &&& has_room(s, id)
    &&& forall|i: int, j: int| 0 <= i < s.len() && 0 <= j < s.len() && s[i].id == id && s[j].id == id ==> i == j
}

/// The messages of the room with the given id (its first occurrence).
pub open spec fn room_messages(s: Seq<RoomAttr>, id: i64) -> Seq<MessageAttr> {
    let i = choose|i: int| is_first_room(s, id, i);
    s[i].messages@
}

proof fn lemma_unique_first(s: Seq<RoomAttr>, id: i64, i: int)
    requires
        unique_room(s, id),
        0 <= i < s.len(),
        s[i].id == id,
    ensures
        is_first_room(s, id, i),
        room_messages(s, id) == s[i].messages@,
{
    assert(is_first_room(s, id, i));
    let c = choose|c: int| is_first_room(s, id, c);
    lemma_first_room_unique(s, id, i, c);
}

/// The message a `ReceiveMessage` event carries.
pub open spec fn receive(room_id: i64, message: MessageInfo) -> ServerEvent {
    ServerEvent::ReceiveMessage(NewMessageResponse { room_id, message })
}

/// For any run of `ReceiveMessage` events aimed at one room, that room's
/// messages are what it held followed by the received messages, in arrival
/// order.
pub proof fn lemma_messages_in_arrival_order(
    states: Seq<WebSocketState>,
    triggers: Seq<TriggerState>,
    msgs: Seq<MessageInfo>,
    room_id: i64,
)
    requires
        states.len() == msgs.len() + 1,
        triggers.len() == states.len(),
        forall|j: int| 0 <= j < msgs.len() ==> applied(#[trigger] states[j], states[j + 1], triggers[j], triggers[j + 1], receive(room_id, msgs[j]), Ok(())),
        unique_room(states[0].rooms@, room_id),
    ensures
        unique_room(states.last().rooms@, room_id),
        room_messages(states.last().rooms@, room_id) == room_messages(states[0].rooms@, room_id) + message_attrs(msgs),
    decreases msgs.len(),
{
    if msgs.len() == 0 {
        assert(message_attrs(msgs) =~= Seq::<MessageAttr>::empty());
        assert(room_messages(states[0].rooms@, room_id) + message_attrs(msgs) =~= room_messages(states[0].rooms@, room_id));
    } else {
        let k = msgs.len() - 1;
        let ps = states.subrange(0, k + 1);
        let pt = triggers.subrange(0, k + 1);
        let pm = msgs.subrange(0, k);
        assert forall|j: int| 0 <= j < pm.len() implies applied(#[trigger] ps[j], ps[j + 1], pt[j], pt[j + 1], receive(room_id, pm[j]), Ok(())) by {
            assert(ps[j] == states[j] && ps[j + 1] == states[j + 1] && pt[j] == triggers[j] && pt[j + 1] == triggers[j + 1]);
            assert(pm[j] == msgs[j]);
        }
        lemma_messages_in_arrival_order(ps, pt, pm, room_id);
        let o = states[k].rooms@;
        let n = states[k + 1].rooms@;
        assert(ps.last() == states[k]);
        assert(applied(states[k], states[k + 1], triggers[k], triggers[k + 1], receive(room_id, msgs[k]), Ok(())));
        let i = choose|i: int| 0 <= i < o.len() && o[i].id == room_id;
        lemma_unique_first(o, room_id, i);
        let m = spec_message_attr(msgs[k]);
        assert(n.drop_last() == o.remove(i));
        assert(with_message(o[i], n.last(), m));
        let last = n.len() - 1;
        assert forall|a: int, b: int| 0 <= a < n.len() && 0 <= b < n.len() && n[a].id == room_id && n[b].id == room_id implies a == b by {
            if a < last {
                assert(n[a] == o.remove(i)[a]);
                if a < i { assert(o.remove(i)[a] == o[a]); } else { assert(o.remove(i)[a] == o[a + 1]); }
            }
            if b < last {
                assert(n[b] == o.remove(i)[b]);
                if b < i { assert(o.remove(i)[b] == o[b]); } else { assert(o.remove(i)[b] == o[b + 1]); }
            }
        }
        assert(unique_room(n, room_id));
        lemma_unique_first(n, room_id, last);
        assert(states.last() == states[k + 1]);
        assert(message_attrs(msgs) =~= message_attrs(pm).push(m));
        assert(o[i].messages@ == room_messages(states[0].rooms@, room_id) + message_attrs(pm));
        assert(room_messages(n, room_id) =~= room_messages(states[0].rooms@, room_id) + message_attrs(msgs));
    }
}

} // verus!
