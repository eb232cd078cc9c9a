//! The store's records of rooms, members, messages and friends, and the
//! projections of them that the views read.

use vstd::prelude::*;
use vstd::string::*;
use std::cmp::Ordering;
use crate::clock::{
    clock_text, in_clock_range, local_now, local_time_of, spec_time_ago_short, time_ago_short, time_local, LocalTime,
    TimeAgo,
};
use crate::friend::FriendInfo;
use crate::member::MemberInfo;
use crate::message::MessageInfo;
use crate::room::RoomInfo;
use crate::text::str_eq;
use crate::user::UserInfo;

verus! {

// ---------------- Relation ---------------- //

/// How a user stands towards the current user.
#[derive(Clone, Copy, Debug, PartialEq, Eq, Structural)]
pub enum Relation {
    Yourself,
    /// An accepted friend, with the private room shared with them.
    Friend(i64),
    OutgoingAdding,
    IncomingAdding,
    Stranger,
}

/// The relation a friendship record describes.
pub open spec fn spec_relation(f: FriendInfo) -> Relation {
    if f.status@ == "accepted"@ {
        Relation::Friend(f.room_id)
    } else if f.status@ == "adding"@ {
        if f.first { Relation::OutgoingAdding } else { Relation::IncomingAdding }
    } else {
        Relation::Stranger
    }
}

impl Relation {
    pub fn from_info(friend: &FriendInfo) -> (r: Relation)
        ensures
            r == spec_relation(*friend),
    {
        if str_eq(friend.status.as_str(), "accepted") {
            Relation::Friend(friend.room_id)
        } else if str_eq(friend.status.as_str(), "adding") {
            if friend.first { Relation::OutgoingAdding } else { Relation::IncomingAdding }
        } else {
            Relation::Stranger
        }
    }
}

// ---------------- FriendAttr ---------------- //

/// A friend of the current user, or a pending request.
#[derive(Debug)]
pub struct FriendAttr {
    pub id: i64,
    pub username: String,
    pub nickname: String,
    pub avatar: String,
    pub bio: String,
    pub relation: Relation,
}

impl Clone for FriendAttr {
    fn clone(&self) -> (r: Self)
        ensures
            r == *self,
    {
        FriendAttr {
            id: self.id,
            username: self.username.clone(),
            nickname: self.nickname.clone(),
            avatar: self.avatar.clone(),
            bio: self.bio.clone(),
            relation: self.relation,
        }
    }
}

/// The record the store keeps for a friendship record.
pub open spec fn spec_friend_attr(f: FriendInfo) -> FriendAttr {
    FriendAttr {
        id: f.id,
        username: f.username,
        nickname: f.nickname,
        avatar: f.avatar,
        bio: f.bio,
        relation: spec_relation(f),
    }
}

impl FriendAttr {
    pub fn from_info(friend: FriendInfo) -> (r: FriendAttr)
        ensures
            r == spec_friend_attr(friend),
    {
        let relation = Relation::from_info(&friend);
        FriendAttr {
            id: friend.id,
            username: friend.username,
            nickname: friend.nickname,
            avatar: friend.avatar,
            bio: friend.bio,
            relation,
        }
    }

    /// A user looked up by name, seen with the given relation.
    pub fn from_user(user: &UserInfo, relation: Relation) -> (r: FriendAttr)
        ensures
            r.id == user.id,
            r.username == user.username,
            r.nickname == user.nickname,
            r.avatar == user.avatar,
            r.bio == user.bio,
            r.relation == relation,
    {
        FriendAttr {
            id: user.id,
            username: user.username.clone(),
            nickname: user.nickname.clone(),
            avatar: user.avatar.clone(),
            bio: user.bio.clone(),
            relation,
        }
    }
}

// ---------------- MessageAttr ---------------- //

/// A message kept in a room; `send_at` in microseconds since the Unix epoch, UTC.
#[derive(Debug)]
pub struct MessageAttr {
    pub id: i64,
    pub sid: i64,
    pub name: String,
    pub avatar: String,
    pub content: String,
    pub kind: String,
    pub send_at: i64,
}

impl Clone for MessageAttr {
    fn clone(&self) -> (r: Self)
        ensures
            r == *self,
    {
        MessageAttr {
            id: self.id,
            sid: self.sid,
            name: self.name.clone(),
            avatar: self.avatar.clone(),
            content: self.content.clone(),
            kind: self.kind.clone(),
            send_at: self.send_at,
        }
    }
}

pub open spec fn spec_message_attr(m: MessageInfo) -> MessageAttr {
    MessageAttr {
        id: m.id,
        sid: m.sid,
        name: m.name,
        avatar: m.avatar,
        content: m.content,
        kind: m.kind,
        send_at: m.send_at,
    }
}

impl MessageAttr {
    pub fn from_info(message: MessageInfo) -> (r: MessageAttr)
        ensures
            r == spec_message_attr(message),
    {
        MessageAttr {
            id: message.id,
            sid: message.sid,
            name: message.name,
            avatar: message.avatar,
            content: message.content,
            kind: message.kind,
            send_at: message.send_at,
        }
    }

    pub fn from_ref(message: &MessageInfo) -> (r: MessageAttr)
        ensures
            r == spec_message_attr(*message),
    {
        MessageAttr {
            id: message.id,
            sid: message.sid,
            name: message.name.clone(),
            avatar: message.avatar.clone(),
            content: message.content.clone(),
            kind: message.kind.clone(),
            send_at: message.send_at,
        }
    }
}

// ---------------- MemberAttr ---------------- //

/// A member kept in a room.
#[derive(Debug)]
pub struct MemberAttr {
    pub id: i64,
    pub name: String,
    pub avatar: String,
    pub rank: String,
}

impl Clone for MemberAttr {
    fn clone(&self) -> (r: Self)
        ensures
            r == *self,
    {
        MemberAttr { id: self.id, name: self.name.clone(), avatar: self.avatar.clone(), rank: self.rank.clone() }
    }
}

pub open spec fn spec_member_attr(m: MemberInfo) -> MemberAttr {
    MemberAttr { id: m.id, name: m.name, avatar: m.avatar, rank: m.rank }
}

impl MemberAttr {
    pub fn from_ref(member: &MemberInfo) -> (r: MemberAttr)
        ensures
            r == spec_member_attr(*member),
    {
        MemberAttr {
            id: member.id,
            name: member.name.clone(),
            avatar: member.avatar.clone(),
            rank: member.rank.clone(),
        }
    }
}

/// The member records of a list of members, in order.
pub open spec fn member_attrs(s: Seq<MemberInfo>) -> Seq<MemberAttr> {
    s.map_values(|m: MemberInfo| spec_member_attr(m))
}

/// The message records of a list of messages, in order.
pub open spec fn message_attrs(s: Seq<MessageInfo>) -> Seq<MessageAttr> {
    s.map_values(|m: MessageInfo| spec_message_attr(m))
}

/// Convert a list of members, in order.
pub fn member_attrs_of(members: &Vec<MemberInfo>) -> (r: Vec<MemberAttr>)
    ensures
        r@ == member_attrs(members@),
{
    let mut out: Vec<MemberAttr> = Vec::new();
    let mut i: usize = 0;
    while i < members.len()
        invariant
            i <= members.len(),
            out@ == member_attrs(members@.subrange(0, i as int)),
        decreases members.len() - i,
    {
        out.push(MemberAttr::from_ref(&members[i]));
        assert(member_attrs(members@.subrange(0, i + 1)) =~= member_attrs(members@.subrange(0, i as int)).push(
            spec_member_attr(members@[i as int]),
        ));
        i += 1;
    }
    assert(members@.subrange(0, members.len() as int) =~= members@);
    out
}

/// Convert a list of messages, in order.
pub fn message_attrs_of(messages: &Vec<MessageInfo>) -> (r: Vec<MessageAttr>)
    ensures
        r@ == message_attrs(messages@),
{
    let mut out: Vec<MessageAttr> = Vec::new();
    let mut i: usize = 0;
    while i < messages.len()
        invariant
            i <= messages.len(),
            out@ == message_attrs(messages@.subrange(0, i as int)),
        decreases messages.len() - i,
    {
        out.push(MessageAttr::from_ref(&messages[i]));
        assert(message_attrs(messages@.subrange(0, i + 1)) =~= message_attrs(messages@.subrange(0, i as int)).push(
            spec_message_attr(messages@[i as int]),
        ));
        i += 1;
    }
    assert(messages@.subrange(0, messages.len() as int) =~= messages@);
    out
}

// ---------------- RoomAttr ---------------- //

/// A room kept in the store.
#[derive(Debug)]
pub struct RoomAttr {
    pub id: i64,
    pub name: String,
    pub cover: String,
    pub category: String,
    pub unreads: i64,
    pub members: Vec<MemberAttr>,
    pub messages: Vec<MessageAttr>,
}

impl Clone for RoomAttr {
    fn clone(&self) -> (r: Self)
        ensures
            r.same_as(*self),
    {
        let members = self.members.clone();
        let messages = self.messages.clone();
        assert(members@ =~= self.members@);
        assert(messages@ =~= self.messages@);
        RoomAttr {
            id: self.id,
            name: self.name.clone(),
            cover: self.cover.clone(),
            category: self.category.clone(),
            unreads: self.unreads,
            members,
            messages,
        }
    }
}

impl RoomAttr {
    /// Equal field by field, lists compared by their contents.
    pub open spec fn same_as(&self, other: RoomAttr) -> bool {
        &&& self.id == other.id
        &&& self.name == other.name
        &&& self.cover == other.cover
        &&& self.category == other.category
        &&& self.unreads == other.unreads
        &&& self.members@ == other.members@
        &&& self.messages@ == other.messages@
    }

    /// The record the store keeps for a room the server describes: no
    /// unread messages yet.
    pub open spec fn is_attr_of(&self, room: RoomInfo) -> bool {
        &&& self.id == room.id
        &&& self.name == room.name
        &&& self.cover == room.cover
        &&& self.category == room.category
        &&& self.unreads == 0
        &&& self.members@ == member_attrs(room.members@)
        &&& self.messages@ == message_attrs(room.messages@)
    }

    pub fn from_info(room: RoomInfo) -> (r: RoomAttr)
        ensures
            r.is_attr_of(room),
    {
        let members = member_attrs_of(&room.members);
        let messages = message_attrs_of(&room.messages);
        RoomAttr {
            id: room.id,
            name: room.name,
            cover: room.cover,
            category: room.category,
            unreads: 0,
            members,
            messages,
        }
    }
}

// ---------------- Searching ---------------- //

/// `i` is the first member of `s` whose id differs from `id`.
pub open spec fn is_first_other(s: Seq<MemberAttr>, id: i64, i: int) -> bool {
    &&& 0 <= i < s.len()
    &&& s[i].id != id
    &&& forall|j: int| 0 <= j < i ==> s[j].id == id
}

/// `i` is the first member of `s` with the given id.
pub open spec fn is_first_member(s: Seq<MemberAttr>, id: i64, i: int) -> bool {
    &&& 0 <= i < s.len()
    &&& s[i].id == id
    &&& forall|j: int| 0 <= j < i ==> s[j].id != id
}

pub proof fn lemma_first_other_unique(s: Seq<MemberAttr>, id: i64, i: int, j: int)
    requires
        is_first_other(s, id, i),
        is_first_other(s, id, j),
    ensures
        i == j,
{
    if i < j {
        assert(s[i].id == id);
    } else if j < i {
        assert(s[j].id == id);
    }
}

pub proof fn lemma_first_member_unique(s: Seq<MemberAttr>, id: i64, i: int, j: int)
    requires
        is_first_member(s, id, i),
        is_first_member(s, id, j),
    ensures
        i == j,
{
    if i < j {
        assert(s[i].id != id);
    } else if j < i {
        assert(s[j].id != id);
    }
}

/// The first member whose id differs from `id`.
pub fn find_other_member(members: &Vec<MemberAttr>, id: i64) -> (r: Option<usize>)
    ensures
        r matches Some(i) ==> is_first_other(members@, id, i as int),
        r is None ==> forall|j: int| 0 <= j < members@.len() ==> members@[j].id == id,
{
    let mut i: usize = 0;
    while i < members.len()
        invariant
            i <= members.len(),
            forall|j: int| 0 <= j < i ==> members@[j].id == id,
        decreases members.len() - i,
    {
        if members[i].id != id {
            return Some(i);
        }
        i += 1;
    }
    None
}

/// The first member with the given id.
pub fn find_member(members: &Vec<MemberAttr>, id: i64) -> (r: Option<usize>)
    ensures
        r matches Some(i) ==> is_first_member(members@, id, i as int),
        r is None ==> forall|j: int| 0 <= j < members@.len() ==> members@[j].id != id,
{
    let mut i: usize = 0;
    while i < members.len()
        invariant
            i <= members.len(),
            forall|j: int| 0 <= j < i ==> members@[j].id != id,
        decreases members.len() - i,
    {
        if members[i].id == id {
            return Some(i);
        }
        i += 1;
    }
    None
}

// ---------------- RoomItem ---------------- //

/// Whether a private room shows its other member in place of itself.
pub open spec fn shows_other(room: RoomAttr, curr_user: i64) -> bool {
    room.category@ == "private"@ && exists|i: int| is_first_other(room.members@, curr_user, i)
}

/// The name and cover a room is listed under: for a private room, those of
/// the first member who is not the current user; otherwise its own.
pub open spec fn spec_room_meta(room: RoomAttr, curr_user: i64) -> (String, String) {
    if shows_other(room, curr_user) {
        let i = choose|i: int| is_first_other(room.members@, curr_user, i);
        (room.members@[i].name, room.members@[i].avatar)
    } else {
        (room.name, room.cover)
    }
}

/// Parse the name and cover of a room.
pub fn parse_room_meta(room: &RoomAttr, curr_user: i64) -> (r: (String, String))
    ensures
        r == spec_room_meta(*room, curr_user),
{
    if str_eq(room.category.as_str(), "private") {
        if let Some(i) = find_other_member(&room.members, curr_user) {
            proof {
                let j = choose|j: int| is_first_other(room.members@, curr_user, j);
                lemma_first_other_unique(room.members@, curr_user, i as int, j);
            }
            return (room.members[i].name.clone(), room.members[i].avatar.clone());
        }
    }
    (room.name.clone(), room.cover.clone())
}

/// The preview text of a room's latest message: in a public room it names
/// the sender.
pub open spec fn spec_latest_msg(room: RoomAttr) -> Seq<char> {
    if room.messages@.len() == 0 {
        Seq::empty()
    } else if room.category@ == "public"@ {
        room.messages@.last().name@ + ": "@ + room.messages@.last().content@
    } else {
        room.messages@.last().content@
    }
}

/// The latest message of a room as (preview text, how long ago), both
/// empty for a room without messages. How long ago is the short label of
/// the message's reading on the machine's clock, seen from the clock's
/// current reading.
pub fn latest_message(room: &RoomAttr) -> (r: (String, String))
    ensures
        r.0@ == spec_latest_msg(*room),
        room.messages@.len() == 0 ==> r.1@.len() == 0,
        room.messages@.len() > 0 && in_clock_range(room.messages@.last().send_at) ==> exists|t: LocalTime, now: LocalTime|
            #[trigger] spec_time_ago_short(t, now).spec_label() == r.1@,
{
    let n = room.messages.len();
    if n == 0 {
        return (String::new(), String::new());
    }
    let msg = &room.messages[n - 1];
    let content = if str_eq(room.category.as_str(), "public") {
        let mut s = msg.name.clone();
        s.append(": ");
        s.append(msg.content.as_str());
        s
    } else {
        msg.content.clone()
    };
    let time = match local_time_of(msg.send_at) {
        Some(t) => time_ago_short(&t, &local_now()).label(),
        None => String::new(),
    };
    (content, time)
}

/// A row of the room list.
#[derive(Debug)]
pub struct RoomItem {
    pub id: i64,
    pub name: String,
    pub cover: String,
    pub unreads: i64,
    pub latest_msg: String,
    pub latest_time: String,
}

impl RoomItem {
    /// What the room list row shows of `room`, apart from the clock-dependent
    /// `latest_time`.
    pub open spec fn shows(&self, room: RoomAttr, curr_user: i64) -> bool {
        &&& self.id == room.id
        &&& (self.name, self.cover) == spec_room_meta(room, curr_user)
        &&& self.unreads == room.unreads
        &&& self.latest_msg@ == spec_latest_msg(room)
        &&& room.messages@.len() == 0 ==> self.latest_time@.len() == 0
    }

    pub fn from_attr(room: &RoomAttr, curr_user: i64) -> (r: RoomItem)
        ensures
            r.shows(*room, curr_user),
    {
        let (name, cover) = parse_room_meta(room, curr_user);
        let (latest_msg, latest_time) = latest_message(room);
        RoomItem { id: room.id, name, cover, unreads: room.unreads, latest_msg, latest_time }
    }
}

// ---------------- CurrRoomItem ---------------- //

/// The header of a public room: the current user's rank in it.
#[derive(Debug)]
pub struct PublicRoom {
    pub id: i64,
    pub name: String,
    pub cover: String,
    pub rank: String,
}

/// The rank of `user` in `room`: that of their first membership, else `member`.
pub open spec fn spec_rank(room: RoomAttr, user: i64) -> Seq<char> {
    if exists|i: int| is_first_member(room.members@, user, i) {
        let i = choose|i: int| is_first_member(room.members@, user, i);
        room.members@[i].rank@
    } else {
        "member"@
    }
}

/// The rank of `user` in `room`.
pub fn rank_in(room: &RoomAttr, user: i64) -> (r: String)
    ensures
        r@ == spec_rank(*room, user),
{
    match find_member(&room.members, user) {
        Some(i) => {
            proof {
                let j = choose|j: int| is_first_member(room.members@, user, j);
                lemma_first_member_unique(room.members@, user, i as int, j);
            }
            room.members[i].rank.clone()
        },
        None => String::from_str("member"),
    }
}

impl PublicRoom {
    pub fn from_attr(room: &RoomAttr, curr_user: i64) -> (r: PublicRoom)
        ensures
            r.id == room.id,
            r.name == room.name,
            r.cover == room.cover,
            r.rank@ == spec_rank(*room, curr_user),
    {
        PublicRoom { id: room.id, name: room.name.clone(), cover: room.cover.clone(), rank: rank_in(room, curr_user) }
    }
}

/// The header of a personal room.
#[derive(Debug)]
pub struct PersonalRoom {
    pub id: i64,
    pub name: String,
    pub cover: String,
    pub desc: String,
}

impl PersonalRoom {
    pub fn from_attr(room: &RoomAttr) -> (r: PersonalRoom)
        ensures
            r.id == room.id,
            r.name == room.name,
            r.cover == room.cover,
            r.desc@ == "Blank"@,
    {
        PersonalRoom {
            id: room.id,
            name: room.name.clone(),
            cover: room.cover.clone(),
            desc: String::from_str("Blank"),
        }
    }
}

/// The header of the selected room, by category.
#[derive(Debug)]
pub enum CurrRoomItem {
    Public(PublicRoom),
    /// A private room shows the friend on the other side.
    Private(FriendAttr),
    Personal(PersonalRoom),
}

impl CurrRoomItem {
    pub open spec fn spec_name(&self) -> String {
        match self {
            CurrRoomItem::Public(room) => room.name,
            CurrRoomItem::Private(friend) => friend.nickname,
            CurrRoomItem::Personal(room) => room.name,
        }
    }

    pub open spec fn spec_cover(&self) -> String {
        match self {
            CurrRoomItem::Public(room) => room.cover,
            CurrRoomItem::Private(friend) => friend.avatar,
            CurrRoomItem::Personal(room) => room.cover,
        }
    }

    pub fn name(&self) -> (r: String)
        ensures
            r == self.spec_name(),
    {
        match self {
            CurrRoomItem::Public(room) => room.name.clone(),
            CurrRoomItem::Private(friend) => friend.nickname.clone(),
            CurrRoomItem::Personal(room) => room.name.clone(),
        }
    }

    pub fn cover(&self) -> (r: String)
        ensures
            r == self.spec_cover(),
    {
        match self {
            CurrRoomItem::Public(room) => room.cover.clone(),
            CurrRoomItem::Private(friend) => friend.avatar.clone(),
            CurrRoomItem::Personal(room) => room.cover.clone(),
        }
    }
}

// ---------------- MessageItem ---------------- //

/// A message as the message list shows it; `send_at` is the local clock time.
#[derive(Debug)]
pub struct MessageContent {
    pub id: i64,
    pub sid: i64,
    pub name: String,
    pub avatar: String,
    pub content: String,
    pub kind: String,
    pub send_at: String,
}

impl MessageContent {
    /// The shown form of a message; all but `send_at`, which depends on the
    /// machine's time zone, is copied.
    pub open spec fn shows(&self, m: MessageAttr) -> bool {
        &&& self.id == m.id
        &&& self.sid == m.sid
        &&& self.name == m.name
        &&& self.avatar == m.avatar
        &&& self.content == m.content
        &&& self.kind == m.kind
    }

    /// The shown form of message `m` read at `t` on the local clock.
    pub open spec fn shows_at(&self, m: MessageAttr, t: Option<LocalTime>) -> bool {
        &&& self.shows(m)
        &&& self.send_at@ == match t {
            Some(t) => clock_text(t.hour, t.minute),
            None => Seq::empty(),
        }
    }

    /// The shown form of a message read at `t` on the local clock.
    pub fn from_attr_at(message: &MessageAttr, t: Option<LocalTime>) -> (r: MessageContent)
        ensures
            r.shows_at(*message, t),
    {
        let send_at = match t {
            Some(t) => time_local(&t),
            None => String::new(),
        };
        MessageContent {
            id: message.id,
            sid: message.sid,
            name: message.name.clone(),
            avatar: message.avatar.clone(),
            content: message.content.clone(),
            kind: message.kind.clone(),
            send_at,
        }
    }

    /// The shown form of a message, read on the machine's clock: its clock
    /// time is that of some reading, a calendar reading whenever the instant
    /// lies in the calendar's range.
    pub fn from_attr(message: &MessageAttr) -> (r: MessageContent)
        ensures
            exists|t: Option<LocalTime>|
                #[trigger] r.shows_at(*message, t) && (in_clock_range(message.send_at) ==> t is Some),
    {
        let t = local_time_of(message.send_at);
        let r = MessageContent::from_attr_at(message, t);
        assert(r.shows_at(*message, t));
        r
    }
}

/// An entry of the message list.
#[derive(Debug)]
pub enum MessageItem {
    TimeDivider(TimeAgo),
    Incoming(MessageContent),
    Outgoing(MessageContent),
}

// ---------------- MemberItem ---------------- //

/// A member as the member list shows it, with their relation to the current user.
#[derive(Debug)]
pub struct MemberItem {
    pub id: i64,
    pub name: String,
    pub avatar: String,
    pub rank: String,
    pub relation: Relation,
}

impl MemberItem {
    pub open spec fn shows(&self, m: MemberAttr, relation: Relation) -> bool {
        &&& self.id == m.id
        &&& self.name == m.name
        &&& self.avatar == m.avatar
        &&& self.rank == m.rank
        &&& self.relation == relation
    }

    pub fn from_attr(member: &MemberAttr, relation: Relation) -> (r: MemberItem)
        ensures
            r.shows(*member, relation),
    {
        MemberItem {
            id: member.id,
            name: member.name.clone(),
            avatar: member.avatar.clone(),
            rank: member.rank.clone(),
            relation,
        }
    }
}

// ---------------- FriendItem ---------------- //

/// A friend as the friend list shows them.
#[derive(Debug)]
pub struct FriendItem {
    pub id: i64,
    pub nickname: String,
    pub avatar: String,
}

impl FriendItem {
    pub open spec fn shows(&self, f: FriendAttr) -> bool {
        self.id == f.id && self.nickname == f.nickname && self.avatar == f.avatar
    }

    pub fn from_attr(friend: &FriendAttr) -> (r: FriendItem)
        ensures
            r.shows(*friend),
    {
        FriendItem { id: friend.id, nickname: friend.nickname.clone(), avatar: friend.avatar.clone() }
    }
}

// ---------------- Ordering of rooms ---------------- //

/// The send time of a room's latest message, if it has one.
pub open spec fn latest_send_at(room: RoomInfo) -> Option<i64> {
    if room.messages@.len() == 0 {
        None
    } else {
        Some(room.messages@.last().send_at)
    }
}

/// `a` may stand before `b`: rooms without messages come first, the others
/// by the time of their latest message.
pub open spec fn room_le(a: RoomInfo, b: RoomInfo) -> bool {
    match (latest_send_at(a), latest_send_at(b)) {
        (None, _) => true,
        (Some(_), None) => false,
        (Some(x), Some(y)) => x <= y,
    }
}

/// Compare two rooms by their latest message. Rooms without messages rank
/// equal to each other and before every room with one.
pub fn cmp_room(a: &RoomInfo, b: &RoomInfo) -> (r: Ordering)
    ensures
        latest_send_at(*a) is None && latest_send_at(*b) is None ==> r == Ordering::Equal,
        latest_send_at(*a) is None && latest_send_at(*b) is Some ==> r == Ordering::Less,
        latest_send_at(*a) matches Some(x) ==> match latest_send_at(*b) {
            None => r == Ordering::Greater,
            Some(y) => (x < y ==> r == Ordering::Less) && (x == y ==> r == Ordering::Equal) && (x > y
                ==> r == Ordering::Greater),
        },
        (r != Ordering::Greater) == room_le(*a, *b),
{
    let na = a.messages.len();
    let nb = b.messages.len();
    if na == 0 && nb == 0 {
        return Ordering::Equal;
    }
    if na == 0 {
        return Ordering::Less;
    }
    if nb == 0 {
        return Ordering::Greater;
    }
    let x = a.messages[na - 1].send_at;
    let y = b.messages[nb - 1].send_at;
    if x < y {
        Ordering::Less
    } else if x == y {
        Ordering::Equal
    } else {
        Ordering::Greater
    }
}

} // verus!
