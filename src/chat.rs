//! The store as the views use it: the selection cursors and the derived,
//! read-only queries over rooms, members, messages and friends.

use vstd::prelude::*;
use vstd::string::*;
use std::collections::HashMap;
use crate::clock::{in_clock_range, local_now, local_time_of, spec_time_ago, time_ago, LocalTime, TimeAgo};
use crate::event::{ClientEvent, ServerEvent};
use crate::friend::{AcceptFriendRequest, AddFriendRequest, DeleteFriendRequest, RefuseFriendRequest};
use crate::member::{AddMembersRequest, DeleteMembersRequest};
use crate::message::NewMessageRequest;
use crate::room::{DeleteRoomRequest, LeaveRoomRequest, NewRoomNameResquest, NewRoomRequest};
use crate::store::{applied, find_friend, find_room, has_friend, has_room, is_first_friend, is_first_room,
    lemma_first_friend_unique, lemma_first_room_unique, replaced_at, WebSocketState};
use crate::text::{contains, contains_seq, str_eq};
use crate::trigger::TriggerState;
use crate::types::{
    find_other_member, is_first_other, lemma_first_other_unique, spec_rank, spec_room_meta, CurrRoomItem,
    FriendAttr, FriendItem, MemberAttr, MemberItem, MessageAttr, MessageContent, MessageItem, PersonalRoom,
    PublicRoom, Relation, RoomAttr, RoomItem,
};
use crate::user::GetUserByNameResponse;

verus! {

broadcast use vstd::std_specs::hash::group_hash_axioms;

/// The store and its change-notification bus, owned together.
pub struct ChatState {
    pub inner: WebSocketState,
    pub trigger: TriggerState,
}

/// `n` is `o` with no unread messages.
pub open spec fn with_unreads_cleared(o: RoomAttr, n: RoomAttr) -> bool {
    &&& n.id == o.id
    &&& n.name == o.name
    &&& n.cover == o.cover
    &&& n.category == o.category
    &&& n.unreads == 0
    &&& n.members@ == o.members@
    &&& n.messages@ == o.messages@
}

/// The rooms from the most recently active to the least.
pub open spec fn reversed<A>(s: Seq<A>) -> Seq<A> {
    Seq::new(s.len(), |k: int| s[s.len() - 1 - k])
}

/// The room is listed under a name containing `target`.
pub open spec fn room_name_matches(room: RoomAttr, curr_user: i64, target: Seq<char>) -> bool {
    contains_seq(spec_room_meta(room, curr_user).0@, target)
}

/// The rooms a search for `target` lists, most recently active first.
pub open spec fn searched_rooms(rooms: Seq<RoomAttr>, curr_user: i64, target: Seq<char>) -> Seq<RoomAttr> {
    reversed(rooms).filter(|r: RoomAttr| room_name_matches(r, curr_user, target))
}

/// `items` shows `rooms` one for one.
pub open spec fn lists_rooms(items: Seq<RoomItem>, rooms: Seq<RoomAttr>, curr_user: i64) -> bool {
    &&& items.len() == rooms.len()
    &&& forall|k: int| 0 <= k < items.len() ==> (#[trigger] items[k]).shows(rooms[k], curr_user)
}

/// Who each friend is to the current user, later records winning.
pub open spec fn relations_of(friends: Seq<FriendAttr>) -> Map<i64, Relation>
    decreases friends.len(),
{
    if friends.len() == 0 {
        Map::empty()
    } else {
        relations_of(friends.drop_last()).insert(friends.last().id, friends.last().relation)
    }
}

/// The relation map: the friends' relations, and the current user as themself.
pub open spec fn spec_relations(friends: Seq<FriendAttr>, curr_user: i64) -> Map<i64, Relation> {
    relations_of(friends).insert(curr_user, Relation::Yourself)
}

/// The relation of a user to the current user; `Stranger` when unknown.
pub open spec fn relation_to(friends: Seq<FriendAttr>, curr_user: i64, id: i64) -> Relation {
    if spec_relations(friends, curr_user).contains_key(id) {
        spec_relations(friends, curr_user)[id]
    } else {
        Relation::Stranger
    }
}

/// `items` shows `members` one for one, each with their relation.
pub open spec fn lists_members(items: Seq<MemberItem>, members: Seq<MemberAttr>, friends: Seq<FriendAttr>, curr_user: i64) -> bool {
    &&& items.len() == members.len()
    &&& forall|k: int| 0 <= k < items.len() ==> (#[trigger] items[k]).shows(members[k], relation_to(friends, curr_user, members[k].id))
}

pub open spec fn member_name_matches(m: MemberAttr, target: Seq<char>) -> bool {
    contains_seq(m.name@, target)
}

pub open spec fn searched_members(members: Seq<MemberAttr>, target: Seq<char>) -> Seq<MemberAttr> {
    members.filter(|m: MemberAttr| member_name_matches(m, target))
}

pub open spec fn outgoing_friends(friends: Seq<FriendAttr>) -> Seq<FriendAttr> {
    friends.filter(|f: FriendAttr| f.relation is OutgoingAdding)
}

pub open spec fn incoming_friends(friends: Seq<FriendAttr>) -> Seq<FriendAttr> {
    friends.filter(|f: FriendAttr| f.relation is IncomingAdding)
}

pub open spec fn accepted_friends(friends: Seq<FriendAttr>) -> Seq<FriendAttr> {
    friends.filter(|f: FriendAttr| f.relation is Friend)
}

pub open spec fn friend_name_matches(f: FriendAttr, target: Seq<char>) -> bool {
    contains_seq(f.username@, target) || contains_seq(f.nickname@, target)
}

pub open spec fn searched_friends(friends: Seq<FriendAttr>, target: Seq<char>) -> Seq<FriendAttr> {
    friends.filter(|f: FriendAttr| f.relation is Friend && friend_name_matches(f, target))
}

/// `items` shows `friends` one for one.
pub open spec fn lists_friends(items: Seq<FriendItem>, friends: Seq<FriendAttr>) -> bool {
    &&& items.len() == friends.len()
    &&& forall|k: int| 0 <= k < items.len() ==> (#[trigger] items[k]).shows(friends[k])
}

/// The header of the selected room `room`.
pub open spec fn curr_room_shows(r: Option<CurrRoomItem>, room: RoomAttr, friends: Seq<FriendAttr>, curr_user: i64) -> bool {
    if room.category@ == "public"@ {
        r matches Some(CurrRoomItem::Public(p)) && p.id == room.id && p.name == room.name && p.cover == room.cover
            && p.rank@ == spec_rank(room, curr_user)
    } else if room.category@ == "private"@ {
        if exists|j: int| is_first_other(room.members@, curr_user, j) {
            let j = choose|j: int| is_first_other(room.members@, curr_user, j);
            let other = room.members@[j].id;
            if has_friend(friends, other) {
                forall|f: int| #[trigger] is_first_friend(friends, other, f) ==> r == Some(CurrRoomItem::Private(friends[f]))
            } else {
                r is None
            }
        } else {
            r is None
        }
    } else if room.category@ == "personal"@ {
        r matches Some(CurrRoomItem::Personal(p)) && p.id == room.id && p.name == room.name && p.cover == room.cover
            && p.desc@ == "Blank"@
    } else {
        r is None
    }
}

/// The bucket of a message's reading, if it has one.
pub open spec fn bucket(t: Option<LocalTime>, now: LocalTime) -> Option<TimeAgo> {
    match t {
        Some(t) => Some(spec_time_ago(t, now)),
        None => None,
    }
}

/// A divider goes before message `i` when its bucket differs from that of
/// the message before it (the first message always opens one).
pub open spec fn divider_before(times: Seq<Option<LocalTime>>, now: LocalTime, i: int) -> bool {
    &&& bucket(times[i], now) is Some
    &&& (i == 0 || bucket(times[i - 1], now) != bucket(times[i], now))
}

/// The layout of a message list: `(Some(b), _)` is a divider for bucket `b`,
/// `(None, i)` is message `i`.
pub open spec fn layout(times: Seq<Option<LocalTime>>, now: LocalTime) -> Seq<(Option<TimeAgo>, int)>
    decreases times.len(),
{
    if times.len() == 0 {
        Seq::empty()
    } else {
        let i = times.len() - 1;
        let prev = layout(times.drop_last(), now);
        let with_divider = if divider_before(times, now, i) {
            prev.push((bucket(times[i], now), 0))
        } else {
            prev
        };
        with_divider.push((None, i))
    }
}

/// `item` is what slot `slot` of the layout shows.
pub open spec fn item_shows(
    item: MessageItem,
    slot: (Option<TimeAgo>, int),
    messages: Seq<MessageAttr>,
    times: Seq<Option<LocalTime>>,
    curr_user: i64,
) -> bool {
    match slot.0 {
        Some(b) => item == MessageItem::TimeDivider(b),
        None => {
            let m = messages[slot.1];
            if m.sid == curr_user {
                item matches MessageItem::Outgoing(c) && c.shows_at(m, times[slot.1])
            } else {
                item matches MessageItem::Incoming(c) && c.shows_at(m, times[slot.1])
            }
        },
    }
}

/// `items` is the message list of `messages` read at `times`.
pub open spec fn lists_messages(
    items: Seq<MessageItem>,
    messages: Seq<MessageAttr>,
    times: Seq<Option<LocalTime>>,
    now: LocalTime,
    curr_user: i64,
) -> bool {
    let l = layout(times, now);
    &&& items.len() == l.len()
    &&& forall|k: int| 0 <= k < items.len() ==> item_shows(#[trigger] items[k], l[k], messages, times, curr_user)
}

/// The entries of a message list that are messages, in order.
pub open spec fn message_items(items: Seq<MessageItem>) -> Seq<MessageItem> {
    items.filter(|i: MessageItem| !(i is TimeDivider))
}

/// The id of the message an entry shows; 0 for a divider.
pub open spec fn item_id(i: MessageItem) -> i64 {
    match i {
        MessageItem::Incoming(c) => c.id,
        MessageItem::Outgoing(c) => c.id,
        MessageItem::TimeDivider(_) => 0,
    }
}

proof fn lemma_message_items_prefix(
    items: Seq<MessageItem>,
    l: Seq<(Option<TimeAgo>, int)>,
    messages: Seq<MessageAttr>,
    times: Seq<Option<LocalTime>>,
    curr_user: i64,
    j: int,
)
    requires
        items.len() == l.len(),
        0 <= j <= items.len(),
        forall|k: int| 0 <= k < items.len() ==> item_shows(#[trigger] items[k], l[k], messages, times, curr_user),
    ensures
        message_items(items.subrange(0, j)).len() == message_slots(l.subrange(0, j)).len(),
        forall|m: int| 0 <= m < message_items(items.subrange(0, j)).len() ==> item_shows(
            #[trigger] message_items(items.subrange(0, j))[m],
            message_slots(l.subrange(0, j))[m],
            messages,
            times,
            curr_user,
        ),
    decreases j,
{
    reveal(Seq::filter);
    if j > 0 {
        lemma_message_items_prefix(items, l, messages, times, curr_user, j - 1);
        assert(items.subrange(0, j).drop_last() =~= items.subrange(0, j - 1));
        assert(l.subrange(0, j).drop_last() =~= l.subrange(0, j - 1));
        assert(item_shows(items[j - 1], l[j - 1], messages, times, curr_user));
    }
}

/// Of a message list, the entries that are not dividers show the room's
/// messages one for one, in arrival order, each as outgoing exactly when
/// the current user sent it.
pub proof fn lemma_messages_listed_in_order(
    items: Seq<MessageItem>,
    messages: Seq<MessageAttr>,
    times: Seq<Option<LocalTime>>,
    now: LocalTime,
    curr_user: i64,
)
    requires
        lists_messages(items, messages, times, now, curr_user),
    ensures
        message_items(items).len() == times.len(),
        forall|k: int| 0 <= k < times.len() ==> item_shows(
            #[trigger] message_items(items)[k],
            (None::<TimeAgo>, k),
            messages,
            times,
            curr_user,
        ),
{
    let l = layout(times, now);
    lemma_layout_shape(times, now);
    lemma_message_items_prefix(items, l, messages, times, curr_user, items.len() as int);
    assert(items.subrange(0, items.len() as int) =~= items);
    assert(l.subrange(0, l.len() as int) =~= l);
    assert forall|k: int| 0 <= k < times.len() implies item_shows(
        #[trigger] message_items(items)[k],
        (None::<TimeAgo>, k),
        messages,
        times,
        curr_user,
    ) by {
        assert(message_slots(l)[k] == (None::<TimeAgo>, k));
    }
}

proof fn lemma_layout_messages_in_range(times: Seq<Option<LocalTime>>, now: LocalTime)
    ensures
        forall|k: int| 0 <= k < layout(times, now).len() && (#[trigger] layout(times, now)[k]).0 is None ==> 0 <= layout(times, now)[k].1 < times.len(),
    decreases times.len(),
{
    if times.len() > 0 {
        lemma_layout_messages_in_range(times.drop_last(), now);
    }
}

/// The message slots of a layout, in order.
pub open spec fn message_slots(l: Seq<(Option<TimeAgo>, int)>) -> Seq<(Option<TimeAgo>, int)> {
    l.filter(|x: (Option<TimeAgo>, int)| x.0 is None)
}

/// In a message list each message appears once, in arrival order, and a
/// divider stands only directly before a message whose bucket differs from
/// that of the message before it, naming that bucket.
pub proof fn lemma_layout_shape(times: Seq<Option<LocalTime>>, now: LocalTime)
    ensures
        message_slots(layout(times, now)).len() == times.len(),
        forall|i: int| 0 <= i < times.len() ==> #[trigger] message_slots(layout(times, now))[i] == (None::<TimeAgo>, i),
        forall|k: int| 0 <= k < layout(times, now).len() && (#[trigger] layout(times, now)[k]).0 is Some ==> {
            &&& k + 1 < layout(times, now).len()
            &&& layout(times, now)[k + 1].0 is None
            &&& 0 <= layout(times, now)[k + 1].1 < times.len()
            &&& divider_before(times, now, layout(times, now)[k + 1].1)
            &&& layout(times, now)[k].0 == bucket(times[layout(times, now)[k + 1].1], now)
        },
    decreases times.len(),
{
    reveal(Seq::filter);
    if times.len() > 0 {
        let d = times.drop_last();
        let n = times.len() - 1;
        lemma_layout_shape(d, now);
        lemma_layout_messages_in_range(d, now);
        let prev = layout(d, now);
        let l = layout(times, now);
        let with_divider = if divider_before(times, now, n) {
            prev.push((bucket(times[n], now), 0))
        } else {
            prev
        };
        assert(l == with_divider.push((None::<TimeAgo>, n)));
        assert(l.drop_last() == with_divider);
        if divider_before(times, now, n) {
            assert(with_divider.drop_last() == prev);
        }
        assert(message_slots(l) == message_slots(with_divider).push((None::<TimeAgo>, n)));
        assert(message_slots(with_divider) == message_slots(prev));
        assert forall|k: int| 0 <= k < l.len() && (#[trigger] l[k]).0 is Some implies {
            &&& k + 1 < l.len()
            &&& l[k + 1].0 is None
            &&& 0 <= l[k + 1].1 < times.len()
            &&& divider_before(times, now, l[k + 1].1)
            &&& l[k].0 == bucket(times[l[k + 1].1], now)
        } by {
            if k < prev.len() {
                assert(l[k] == prev[k]);
                assert(l[k + 1] == prev[k + 1]);
                let j = prev[k + 1].1;
                assert(d[j] == times[j]);
                if j > 0 {
                    assert(d[j - 1] == times[j - 1]);
                }
            }
        }
    }
}

/// Lay out a room's messages with a divider wherever the "time ago" bucket
/// changes between consecutive messages; `times[i]` is message `i` on the
/// local clock and `now` the local clock at the moment of asking.
pub fn group_messages(
    messages: &Vec<MessageAttr>,
    times: &Vec<Option<LocalTime>>,
    now: &LocalTime,
    curr_user: i64,
) -> (r: Vec<MessageItem>)
    requires
        times@.len() == messages@.len(),
    ensures
        lists_messages(r@, messages@, times@, *now, curr_user),
{
    let mut out: Vec<MessageItem> = Vec::new();
    let mut seen: Option<TimeAgo> = None;
    let mut i: usize = 0;
    assert(times@.subrange(0, 0) =~= Seq::<Option<LocalTime>>::empty());
    while i < messages.len()
        invariant
            times@.len() == messages@.len(),
            i <= messages.len(),
            lists_messages(out@, messages@, times@.subrange(0, i as int), *now, curr_user),
            i > 0 ==> seen == bucket(times@[i - 1], *now),
        decreases messages.len() - i,
    {
        let ghost sub = times@.subrange(0, i + 1);
        let span = match times[i] {
            Some(t) => Some(time_ago(&t, now)),
            None => None,
        };
        let ghost prev_len = out@.len();
        proof {
            assert(sub.drop_last() =~= times@.subrange(0, i as int));
            assert(sub[i as int] == times@[i as int]);
            if i > 0 {
                assert(sub[i - 1] == times@[i - 1]);
            }
            lemma_layout_messages_in_range(times@.subrange(0, i as int), *now);
        }
        if let Some(b) = span {
            if i == 0 || !matches!(seen, Some(x) if x == b) {
                out.push(MessageItem::TimeDivider(b));
            }
        }
        let content = MessageContent::from_attr_at(&messages[i], times[i]);
        if messages[i].sid == curr_user {
            out.push(MessageItem::Outgoing(content));
        } else {
            out.push(MessageItem::Incoming(content));
        }
        seen = span;
        proof {
            let l = layout(sub, *now);
            let lp = layout(times@.subrange(0, i as int), *now);
            assert forall|k: int| 0 <= k < out@.len() implies item_shows(#[trigger] out@[k], l[k], messages@, sub, curr_user) by {
                if k < prev_len {
                    assert(l[k] == lp[k]);
                    if lp[k].0 is None {
                        assert(sub[lp[k].1] == times@.subrange(0, i as int)[lp[k].1]);
                    }
                }
            }
        }
        i += 1;
    }
    assert(times@.subrange(0, i as int) =~= times@);
    out
}

/// A search for text that no listed room name contains lists nothing.
pub proof fn lemma_search_absent(rooms: Seq<RoomAttr>, curr_user: i64, target: Seq<char>)
    requires
        forall|i: int| 0 <= i < rooms.len() ==> !room_name_matches(#[trigger] rooms[i], curr_user, target),
    ensures
        searched_rooms(rooms, curr_user, target).len() == 0,
{
    let rev = reversed(rooms);
    assert forall|k: int| 0 <= k < rev.len() implies !room_name_matches(#[trigger] rev[k], curr_user, target) by {
        assert(rev[k] == rooms[rooms.len() - 1 - k]);
    }
    rev.lemma_all_neg_filter_empty(|r: RoomAttr| room_name_matches(r, curr_user, target));
    assert(searched_rooms(rooms, curr_user, target) == rev.filter(|r: RoomAttr| room_name_matches(r, curr_user, target)));
}

impl ChatState {
    pub fn new(curr_user: i64) -> (r: ChatState)
        ensures
            r.inner.rooms@.len() == 0,
            r.inner.friends@.len() == 0,
            r.inner.curr_room == 0,
            r.inner.curr_friend == 0,
            r.inner.curr_user == curr_user,
            r.trigger.count == 0,
    {
        ChatState { inner: WebSocketState::new(curr_user), trigger: TriggerState::default() }
    }

    /// Apply one server event to the store and publish the change.
    pub fn handle_event(&mut self, event: ServerEvent) -> (r: Result<(), String>)
        ensures
            applied(old(self).inner, final(self).inner, old(self).trigger, final(self).trigger, event, r),
    {
        self.inner.handle_event(event, &mut self.trigger)
    }

    pub fn curr_room(&self) -> (r: i64)
        ensures
            r == self.inner.curr_room,
    {
        self.inner.curr_room
    }

    /// Select a room; its unread counter drops to zero, and nothing else
    /// changes.
    pub fn set_curr_room(&mut self, room_id: i64)
        ensures
            final(self).inner.curr_room == room_id,
            final(self).inner.curr_friend == old(self).inner.curr_friend,
            final(self).inner.curr_user == old(self).inner.curr_user,
            final(self).inner.friends@ == old(self).inner.friends@,
            final(self).trigger == old(self).trigger,
            has_room(old(self).inner.rooms@, room_id) ==> forall|i: int| #[trigger]
                is_first_room(old(self).inner.rooms@, room_id, i) ==> {
                    &&& replaced_at(old(self).inner.rooms@, final(self).inner.rooms@, i)
                    &&& with_unreads_cleared(old(self).inner.rooms@[i], final(self).inner.rooms@[i])
                },
            !has_room(old(self).inner.rooms@, room_id) ==> final(self).inner.rooms@ == old(self).inner.rooms@,
    {
        self.inner.curr_room = room_id;
        if let Some(idx) = find_room(&self.inner.rooms, room_id) {
            let mut room = self.inner.rooms.remove(idx);
            room.unreads = 0;
            self.inner.rooms.insert(idx, room);
            proof {
                assert forall|i: int| #[trigger] is_first_room(old(self).inner.rooms@, room_id, i) implies i == idx by {
                    lemma_first_room_unique(old(self).inner.rooms@, room_id, i, idx as int);
                }
            }
        }
    }

    pub fn curr_friend(&self) -> (r: i64)
        ensures
            r == self.inner.curr_friend,
    {
        self.inner.curr_friend
    }

    /// Select a friend.
    pub fn set_curr_friend(&mut self, friend_id: i64)
        ensures
            final(self).inner.curr_friend == friend_id,
            final(self).inner.curr_room == old(self).inner.curr_room,
            final(self).inner.curr_user == old(self).inner.curr_user,
            final(self).inner.rooms@ == old(self).inner.rooms@,
            final(self).inner.friends@ == old(self).inner.friends@,
            final(self).trigger == old(self).trigger,
    {
        self.inner.curr_friend = friend_id;
    }

    /// The current user's rank in a room; `member` when the room or the
    /// membership is unknown.
    pub fn get_rank(&self, room_id: i64) -> (r: String)
        ensures
            !has_room(self.inner.rooms@, room_id) ==> r@ == "member"@,
            forall|i: int| #[trigger]
                is_first_room(self.inner.rooms@, room_id, i) ==> r@ == spec_rank(self.inner.rooms@[i], self.inner.curr_user),
    {
        match find_room(&self.inner.rooms, room_id) {
            Some(idx) => {
                proof {
                    assert forall|i: int| #[trigger] is_first_room(self.inner.rooms@, room_id, i) implies i == idx by {
                        lemma_first_room_unique(self.inner.rooms@, room_id, i, idx as int);
                    }
                }
                crate::types::rank_in(&self.inner.rooms[idx], self.inner.curr_user)
            },
            None => String::from_str("member"),
        }
    }

    /// The friend record with the given id.
    pub fn get_curr_friend(&self, friend_id: i64) -> (r: Option<FriendAttr>)
        ensures
            r is None <==> !has_friend(self.inner.friends@, friend_id),
            forall|i: int| #[trigger]
                is_first_friend(self.inner.friends@, friend_id, i) ==> r == Some(self.inner.friends@[i]),
    {
        match find_friend(&self.inner.friends, friend_id) {
            Some(idx) => {
                proof {
                    assert forall|i: int| #[trigger] is_first_friend(self.inner.friends@, friend_id, i) implies i == idx by {
                        lemma_first_friend_unique(self.inner.friends@, friend_id, i, idx as int);
                    }
                }
                Some(self.inner.friends[idx].clone())
            },
            None => None,
        }
    }

    /// Requests the current user sent and that are still pending.
    pub fn get_outgoing_friends(&self) -> (r: Vec<FriendAttr>)
        ensures
            r@ == outgoing_friends(self.inner.friends@),
    {
        let friends = &self.inner.friends;
        let mut out: Vec<FriendAttr> = Vec::new();
        let mut i: usize = 0;
        proof {
            reveal(Seq::filter);
        }
        assert(friends@.subrange(0, 0) =~= Seq::<FriendAttr>::empty());
        while i < friends.len()
            invariant
                i <= friends.len(),
                out@ == outgoing_friends(friends@.subrange(0, i as int)),
            decreases friends.len() - i,
        {
            if let Relation::OutgoingAdding = friends[i].relation {
                out.push(friends[i].clone());
            }
            proof {
                assert(friends@.subrange(0, i + 1).drop_last() =~= friends@.subrange(0, i as int));
                reveal(Seq::filter);
            }
            i += 1;
        }
        assert(friends@.subrange(0, i as int) =~= friends@);
        out
    }

    /// Requests other users sent to the current user, still pending.
    pub fn get_incoming_friends(&self) -> (r: Vec<FriendAttr>)
        ensures
            r@ == incoming_friends(self.inner.friends@),
    {
        let friends = &self.inner.friends;
        let mut out: Vec<FriendAttr> = Vec::new();
        let mut i: usize = 0;
        proof {
            reveal(Seq::filter);
        }
        assert(friends@.subrange(0, 0) =~= Seq::<FriendAttr>::empty());
        while i < friends.len()
            invariant
                i <= friends.len(),
                out@ == incoming_friends(friends@.subrange(0, i as int)),
            decreases friends.len() - i,
        {
            if let Relation::IncomingAdding = friends[i].relation {
                out.push(friends[i].clone());
            }
            proof {
                assert(friends@.subrange(0, i + 1).drop_last() =~= friends@.subrange(0, i as int));
                reveal(Seq::filter);
            }
            i += 1;
        }
        assert(friends@.subrange(0, i as int) =~= friends@);
        out
    }

    /// The accepted friends, in order.
    pub fn get_accepted_friends(&self) -> (r: Vec<FriendItem>)
        ensures
            lists_friends(r@, accepted_friends(self.inner.friends@)),
    {
        let friends = &self.inner.friends;
        let mut out: Vec<FriendItem> = Vec::new();
        let mut i: usize = 0;
        proof {
            reveal(Seq::filter);
        }
        assert(friends@.subrange(0, 0) =~= Seq::<FriendAttr>::empty());
        while i < friends.len()
            invariant
                i <= friends.len(),
                lists_friends(out@, accepted_friends(friends@.subrange(0, i as int))),
            decreases friends.len() - i,
        {
            if let Relation::Friend(_) = friends[i].relation {
                out.push(FriendItem::from_attr(&friends[i]));
            }
            proof {
                assert(friends@.subrange(0, i + 1).drop_last() =~= friends@.subrange(0, i as int));
                reveal(Seq::filter);
            }
            i += 1;
        }
        assert(friends@.subrange(0, i as int) =~= friends@);
        out
    }

    /// The accepted friends whose username or nickname contains `target`.
    pub fn search_accepted_friends(&self, target: &str) -> (r: Vec<FriendItem>)
        ensures
            lists_friends(r@, searched_friends(self.inner.friends@, target@)),
    {
        let friends = &self.inner.friends;
        let mut out: Vec<FriendItem> = Vec::new();
        let mut i: usize = 0;
        proof {
            reveal(Seq::filter);
        }
        assert(friends@.subrange(0, 0) =~= Seq::<FriendAttr>::empty());
        while i < friends.len()
            invariant
                i <= friends.len(),
                lists_friends(out@, searched_friends(friends@.subrange(0, i as int), target@)),
            decreases friends.len() - i,
        {
            if let Relation::Friend(_) = friends[i].relation {
                if contains(friends[i].username.as_str(), target) || contains(friends[i].nickname.as_str(), target) {
                    out.push(FriendItem::from_attr(&friends[i]));
                }
            }
            proof {
                assert(friends@.subrange(0, i + 1).drop_last() =~= friends@.subrange(0, i as int));
                reveal(Seq::filter);
            }
            i += 1;
        }
        assert(friends@.subrange(0, i as int) =~= friends@);
        out
    }

    /// The rooms, most recently active first.
    pub fn get_rooms(&self) -> (r: Vec<RoomItem>)
        ensures
            lists_rooms(r@, reversed(self.inner.rooms@), self.inner.curr_user),
    {
        let rooms = &self.inner.rooms;
        let curr_user = self.inner.curr_user;
        let n = rooms.len();
        let mut out: Vec<RoomItem> = Vec::new();
        let mut k: usize = 0;
        while k < n
            invariant
                n == rooms@.len(),
                k <= n,
                lists_rooms(out@, reversed(rooms@).subrange(0, k as int), curr_user),
            decreases n - k,
        {
            out.push(RoomItem::from_attr(&rooms[n - 1 - k], curr_user));
            k += 1;
        }
        assert(reversed(rooms@).subrange(0, n as int) =~= reversed(rooms@));
        out
    }

    /// The rooms listed under a name containing `target`, most recently
    /// active first. The store is left as it is.
    pub fn search_rooms(&self, target: &str) -> (r: Vec<RoomItem>)
        ensures
            lists_rooms(r@, searched_rooms(self.inner.rooms@, self.inner.curr_user, target@), self.inner.curr_user),
    {
        let rooms = &self.inner.rooms;
        let curr_user = self.inner.curr_user;
        let n = rooms.len();
        let ghost rev = reversed(rooms@);
        let mut out: Vec<RoomItem> = Vec::new();
        let mut k: usize = 0;
        proof {
            reveal(Seq::filter);
        }
        assert(rev.subrange(0, 0) =~= Seq::<RoomAttr>::empty());
        while k < n
            invariant
                n == rooms@.len(),
                rev == reversed(rooms@),
                k <= n,
                lists_rooms(out@, rev.subrange(0, k as int).filter(|r: RoomAttr| room_name_matches(r, curr_user, target@)), curr_user),
            decreases n - k,
        {
            let item = RoomItem::from_attr(&rooms[n - 1 - k], curr_user);
            if contains(item.name.as_str(), target) {
                out.push(item);
            }
            proof {
                assert(rev.subrange(0, k + 1).drop_last() =~= rev.subrange(0, k as int));
                assert(rev.subrange(0, k + 1).last() == rooms@[n - 1 - k]);
                reveal(Seq::filter);
            }
            k += 1;
        }
        assert(rev.subrange(0, n as int) =~= rev);
        out
    }

    /// Who each known user is to the current user.
    pub fn get_relations(&self) -> (r: HashMap<i64, Relation>)
        ensures
            r@ == spec_relations(self.inner.friends@, self.inner.curr_user),
    {
        let friends = &self.inner.friends;
        let mut map: HashMap<i64, Relation> = HashMap::new();
        let mut i: usize = 0;
        assert(friends@.subrange(0, 0) =~= Seq::<FriendAttr>::empty());
        while i < friends.len()
            invariant
                i <= friends.len(),
                map@ == relations_of(friends@.subrange(0, i as int)),
            decreases friends.len() - i,
        {
            map.insert(friends[i].id, friends[i].relation);
            assert(friends@.subrange(0, i + 1).drop_last() =~= friends@.subrange(0, i as int));
            i += 1;
        }
        assert(friends@.subrange(0, i as int) =~= friends@);
        map.insert(self.inner.curr_user, Relation::Yourself);
        map
    }

    /// The members of a room, each with their relation to the current user;
    /// empty for an unknown room.
    pub fn get_members(&self, room_id: i64) -> (r: Vec<MemberItem>)
        ensures
            !has_room(self.inner.rooms@, room_id) ==> r@.len() == 0,
            forall|i: int| #[trigger]
                is_first_room(self.inner.rooms@, room_id, i) ==> lists_members(
                    r@,
                    self.inner.rooms@[i].members@,
                    self.inner.friends@,
                    self.inner.curr_user,
                ),
    {
        let relations = self.get_relations();
        let mut out: Vec<MemberItem> = Vec::new();
        if let Some(idx) = find_room(&self.inner.rooms, room_id) {
            proof {
                assert forall|i: int| #[trigger] is_first_room(self.inner.rooms@, room_id, i) implies i == idx by {
                    lemma_first_room_unique(self.inner.rooms@, room_id, i, idx as int);
                }
            }
            let members = &self.inner.rooms[idx].members;
            let mut k: usize = 0;
            while k < members.len()
                invariant
                    k <= members.len(),
                    relations@ == spec_relations(self.inner.friends@, self.inner.curr_user),
                    lists_members(out@, members@.subrange(0, k as int), self.inner.friends@, self.inner.curr_user),
                decreases members.len() - k,
            {
                let relation = match relations.get(&members[k].id) {
                    Some(rel) => *rel,
                    None => Relation::Stranger,
                };
                out.push(MemberItem::from_attr(&members[k], relation));
                k += 1;
            }
            assert(members@.subrange(0, k as int) =~= members@);
        }
        out
    }

    /// The members of a room whose name contains `target`, each with their
    /// relation; empty for an unknown room.
    pub fn search_members(&self, room_id: i64, target: &str) -> (r: Vec<MemberItem>)
        ensures
            !has_room(self.inner.rooms@, room_id) ==> r@.len() == 0,
            forall|i: int| #[trigger]
                is_first_room(self.inner.rooms@, room_id, i) ==> lists_members(
                    r@,
                    searched_members(self.inner.rooms@[i].members@, target@),
                    self.inner.friends@,
                    self.inner.curr_user,
                ),
    {
        let relations = self.get_relations();
        let mut out: Vec<MemberItem> = Vec::new();
        if let Some(idx) = find_room(&self.inner.rooms, room_id) {
            proof {
                assert forall|i: int| #[trigger] is_first_room(self.inner.rooms@, room_id, i) implies i == idx by {
                    lemma_first_room_unique(self.inner.rooms@, room_id, i, idx as int);
                }
            }
            let members = &self.inner.rooms[idx].members;
            let mut k: usize = 0;
            proof {
                reveal(Seq::filter);
            }
            assert(members@.subrange(0, 0) =~= Seq::<MemberAttr>::empty());
            while k < members.len()
                invariant
                    k <= members.len(),
                    relations@ == spec_relations(self.inner.friends@, self.inner.curr_user),
                    lists_members(
                        out@,
                        searched_members(members@.subrange(0, k as int), target@),
                        self.inner.friends@,
                        self.inner.curr_user,
                    ),
                decreases members.len() - k,
            {
                if contains(members[k].name.as_str(), target) {
                    let relation = match relations.get(&members[k].id) {
                        Some(rel) => *rel,
                        None => Relation::Stranger,
                    };
                    out.push(MemberItem::from_attr(&members[k], relation));
                }
                proof {
                    assert(members@.subrange(0, k + 1).drop_last() =~= members@.subrange(0, k as int));
                    reveal(Seq::filter);
                }
                k += 1;
            }
            assert(members@.subrange(0, k as int) =~= members@);
        }
        out
    }

    /// A user found by name, seen as a friend record with their relation.
    pub fn get_friend_from_user(&self, resp: &GetUserByNameResponse) -> (r: Option<FriendAttr>)
        ensures
            r is Some <==> resp.user is Some,
            resp.user matches Some(u) ==> r matches Some(f) && f.id == u.id && f.username == u.username
                && f.nickname == u.nickname && f.avatar == u.avatar && f.bio == u.bio
                && f.relation == relation_to(self.inner.friends@, self.inner.curr_user, u.id),
    {
        let relations = self.get_relations();
        match &resp.user {
            Some(user) => {
                let relation = match relations.get(&user.id) {
                    Some(rel) => *rel,
                    None => Relation::Stranger,
                };
                Some(FriendAttr::from_user(user, relation))
            },
            None => None,
        }
    }

    /// The header of a room: by category, the public room with the current
    /// user's rank, the friend on the other side of a private room, or the
    /// personal room.
    pub fn get_curr_room(&self, room_id: i64) -> (r: Option<CurrRoomItem>)
        ensures
            !has_room(self.inner.rooms@, room_id) ==> r is None,
            forall|i: int| #[trigger]
                is_first_room(self.inner.rooms@, room_id, i) ==> curr_room_shows(
                    r,
                    self.inner.rooms@[i],
                    self.inner.friends@,
                    self.inner.curr_user,
                ),
    {
        let idx = match find_room(&self.inner.rooms, room_id) {
            Some(idx) => idx,
            None => return None,
        };
        proof {
            assert forall|i: int| #[trigger] is_first_room(self.inner.rooms@, room_id, i) implies i == idx by {
                lemma_first_room_unique(self.inner.rooms@, room_id, i, idx as int);
            }
        }
        let room = &self.inner.rooms[idx];
        let curr_user = self.inner.curr_user;
        if str_eq(room.category.as_str(), "public") {
            Some(CurrRoomItem::Public(PublicRoom::from_attr(room, curr_user)))
        } else if str_eq(room.category.as_str(), "private") {
            match find_other_member(&room.members, curr_user) {
                Some(j) => {
                    proof {
                        let c = choose|c: int| is_first_other(room.members@, curr_user, c);
                        lemma_first_other_unique(room.members@, curr_user, j as int, c);
                    }
                    let other = room.members[j].id;
                    match find_friend(&self.inner.friends, other) {
                        Some(f) => {
                            proof {
                                assert forall|g: int| #[trigger] is_first_friend(self.inner.friends@, other, g) implies g == f by {
                                    lemma_first_friend_unique(self.inner.friends@, other, g, f as int);
                                }
                            }
                            Some(CurrRoomItem::Private(self.inner.friends[f].clone()))
                        },
                        None => None,
                    }
                },
                None => None,
            }
        } else if str_eq(room.category.as_str(), "personal") {
            Some(CurrRoomItem::Personal(PersonalRoom::from_attr(room)))
        } else {
            None
        }
    }

    /// The message list of a room, read on the machine's clock: the room's
    /// messages in order, each preceded by a divider where its "time ago"
    /// bucket changes. Empty for an unknown room.
    pub fn get_messages(&self, room_id: i64) -> (r: Vec<MessageItem>)
        ensures
            !has_room(self.inner.rooms@, room_id) ==> r@.len() == 0,
            forall|i: int| #[trigger]
                is_first_room(self.inner.rooms@, room_id, i) ==> exists|times: Seq<Option<LocalTime>>, now: LocalTime|
                    #[trigger] lists_messages(r@, self.inner.rooms@[i].messages@, times, now, self.inner.curr_user)
                    && times.len() == self.inner.rooms@[i].messages@.len()
                    && forall|j: int| 0 <= j < times.len() && in_clock_range(self.inner.rooms@[i].messages@[j].send_at)
                        ==> (#[trigger] times[j]) is Some,
            forall|i: int| #[trigger]
                is_first_room(self.inner.rooms@, room_id, i) ==> message_items(r@).len() == self.inner.rooms@[i].messages@.len()
                    && forall|k: int| 0 <= k < self.inner.rooms@[i].messages@.len() ==> item_id(
                        #[trigger] message_items(r@)[k],
                    ) == self.inner.rooms@[i].messages@[k].id,
    {
        let idx = match find_room(&self.inner.rooms, room_id) {
            Some(idx) => idx,
            None => return Vec::new(),
        };
        proof {
            assert forall|i: int| #[trigger] is_first_room(self.inner.rooms@, room_id, i) implies i == idx by {
                lemma_first_room_unique(self.inner.rooms@, room_id, i, idx as int);
            }
        }
        let messages = &self.inner.rooms[idx].messages;
        let now = local_now();
        let mut times: Vec<Option<LocalTime>> = Vec::new();
        let mut k: usize = 0;
        while k < messages.len()
            invariant
                k <= messages.len(),
                times@.len() == k,
                forall|j: int| 0 <= j < k && in_clock_range(messages@[j].send_at) ==> (#[trigger] times@[j]) is Some,
            decreases messages.len() - k,
        {
            times.push(local_time_of(messages[k].send_at));
            k += 1;
        }
        let r = group_messages(messages, &times, &now, self.inner.curr_user);
        proof {
            lemma_messages_listed_in_order(r@, messages@, times@, now, self.inner.curr_user);
            assert forall|k: int| 0 <= k < messages@.len() implies item_id(#[trigger] message_items(r@)[k]) == messages@[k].id by {
                assert(item_shows(message_items(r@)[k], (None::<TimeAgo>, k), messages@, times@, self.inner.curr_user));
            }
        }
        r
    }

    // ------------------------ Outgoing requests ------------------------ //
    // Each builds the event to hand to the connection manager, which checks
    // it against the field rules before it queues it.

    pub fn send_message(&self, req: NewMessageRequest) -> (r: ClientEvent)
        ensures
            r == ClientEvent::SendMessage(req),
    {
        ClientEvent::SendMessage(req)
    }

    pub fn get_user_rooms(&self) -> (r: ClientEvent)
        ensures
            r == ClientEvent::GetUserRooms,
    {
        ClientEvent::GetUserRooms
    }

    /// A new room named `name` with the current user first among its members.
    pub fn create_room(&self, name: String, member_ids: Vec<i64>) -> (r: ClientEvent)
        ensures
            r matches ClientEvent::CreateRoom(req) && req.name == name && req.member_ids@ == seq![self.inner.curr_user]
                + member_ids@,
    {
        let mut member_ids = member_ids;
        let ghost given = member_ids@;
        member_ids.insert(0, self.inner.curr_user);
        assert(member_ids@ =~= seq![self.inner.curr_user] + given);
        ClientEvent::CreateRoom(NewRoomRequest { name, member_ids })
    }

    pub fn delete_room(&self, room_id: i64) -> (r: ClientEvent)
        ensures
            r == ClientEvent::DeleteRoom(DeleteRoomRequest { room_id }),
    {
        ClientEvent::DeleteRoom(DeleteRoomRequest { room_id })
    }

    pub fn update_room_name(&self, req: NewRoomNameResquest) -> (r: ClientEvent)
        ensures
            r == ClientEvent::UpdateRoomName(req),
    {
        ClientEvent::UpdateRoomName(req)
    }

    pub fn leave_room(&self, room_id: i64) -> (r: ClientEvent)
        ensures
            r == ClientEvent::LeaveRoom(LeaveRoomRequest { room_id }),
    {
        ClientEvent::LeaveRoom(LeaveRoomRequest { room_id })
    }

    pub fn add_members(&self, room_id: i64, member_ids: Vec<i64>) -> (r: ClientEvent)
        ensures
            r == ClientEvent::AddMembers(AddMembersRequest { room_id, member_ids }),
    {
        ClientEvent::AddMembers(AddMembersRequest { room_id, member_ids })
    }

    pub fn delete_members(&self, req: DeleteMembersRequest) -> (r: ClientEvent)
        ensures
            r == ClientEvent::DeleteMembers(req),
    {
        ClientEvent::DeleteMembers(req)
    }

    pub fn add_friend(&self, friend_id: i64) -> (r: ClientEvent)
        ensures
            r == ClientEvent::AddFriend(AddFriendRequest { friend_id }),
    {
        ClientEvent::AddFriend(AddFriendRequest { friend_id })
    }

    pub fn accept_friend(&self, friend_id: i64) -> (r: ClientEvent)
        ensures
            r == ClientEvent::AcceptFriend(AcceptFriendRequest { friend_id }),
    {
        ClientEvent::AcceptFriend(AcceptFriendRequest { friend_id })
    }

    pub fn refuse_friend(&self, friend_id: i64) -> (r: ClientEvent)
        ensures
            r == ClientEvent::RefuseFriend(RefuseFriendRequest { friend_id }),
    {
        ClientEvent::RefuseFriend(RefuseFriendRequest { friend_id })
    }

    pub fn delete_friend(&self, friend_id: i64) -> (r: ClientEvent)
        ensures
            r == ClientEvent::DeleteFriend(DeleteFriendRequest { friend_id }),
    {
        ClientEvent::DeleteFriend(DeleteFriendRequest { friend_id })
    }
}

} // verus!
