use chat_sync::chat::{group_messages, ChatState};
use chat_sync::clock::{LocalTime, TimeAgo};
use chat_sync::event::{ClientEvent, ServerEvent};
use chat_sync::friend::{AcceptFriendResponse, AddFriendResponse, DeleteFriendResponse, FriendInfo, RefuseFriendResponse, UserFriendsResponse};
use chat_sync::member::{AddMembersResponse, DeleteMembersResponse, MemberInfo};
use chat_sync::message::{InitialResponse, MessageInfo, NewMessageResponse};
use chat_sync::room::{DeleteRoomResponse, LeaveRoomResponse, NewRoomNameResponse, NewRoomResponse, RoomInfo, UserRoomsResponse};
use chat_sync::sorting::sort_room_infos;
use chat_sync::trigger::{AffectedFriend, AffectedRoom, TriggerAction};
use chat_sync::types::{cmp_room, parse_room_meta, CurrRoomItem, MessageAttr, MessageItem, Relation};
use chat_sync::user::{GetUserByNameResponse, UserInfo};
use std::cmp::Ordering;

fn message(id: i64, sid: i64, content: &str, send_at: i64) -> MessageInfo {
    MessageInfo {
        id,
        sid,
        name: format!("user{}", sid),
        avatar: String::new(),
        content: content.to_string(),
        kind: "text".to_string(),
        send_at,
    }
}

fn member(id: i64, name: &str, rank: &str) -> MemberInfo {
    MemberInfo { id, name: name.to_string(), avatar: format!("a{}", id), rank: rank.to_string(), join_at: 0 }
}

fn room(id: i64, name: &str, category: &str, members: Vec<MemberInfo>, messages: Vec<MessageInfo>) -> RoomInfo {
    RoomInfo {
        id,
        name: name.to_string(),
        cover: format!("c{}", id),
        category: category.to_string(),
        create_at: 0,
        members,
        messages,
    }
}

fn friend(id: i64, status: &str, first: bool, room_id: i64) -> FriendInfo {
    FriendInfo {
        id,
        username: format!("name{}", id),
        nickname: format!("nick{}", id),
        avatar: String::new(),
        bio: String::new(),
        status: status.to_string(),
        room_id,
        first,
        create_at: 0,
    }
}

fn init(chat: &mut ChatState, rooms: Vec<RoomInfo>, friends: Vec<FriendInfo>) {
    chat.handle_event(ServerEvent::Initialized(InitialResponse { rooms, friends })).unwrap();
}

fn room_ids(chat: &ChatState) -> Vec<i64> {
    chat.inner.rooms.iter().map(|r| r.id).collect()
}

#[test]
fn received_message_lands_in_its_room() {
    let mut chat = ChatState::new(5);
    init(&mut chat, vec![room(1, "r", "public", vec![], vec![])], vec![]);
    chat.handle_event(ServerEvent::ReceiveMessage(NewMessageResponse { room_id: 1, message: message(9, 5, "hi", 1000) }))
        .unwrap();
    let r = &chat.inner.rooms[0];
    assert_eq!(r.messages.len(), 1);
    assert_eq!(r.messages[0].id, 9);
    assert_eq!(r.messages[0].content, "hi");
    assert_eq!(r.unreads, 1);
    assert_eq!(chat.trigger.action, TriggerAction::Message(AffectedRoom { room_id: 1, curr_room: 0 }));
    assert_eq!(chat.trigger.count, 2);
}

#[test]
fn received_message_moves_room_last_and_keeps_arrival_order() {
    let mut chat = ChatState::new(5);
    init(&mut chat, vec![room(1, "a", "public", vec![], vec![]), room(2, "b", "public", vec![], vec![])], vec![]);
    for (i, text) in ["one", "two", "three"].iter().enumerate() {
        let ev = NewMessageResponse { room_id: 1, message: message(i as i64, 7, text, 10 + i as i64) };
        chat.handle_event(ServerEvent::ReceiveMessage(ev)).unwrap();
    }
    assert_eq!(room_ids(&chat), vec![2, 1]);
    let contents: Vec<String> = chat.inner.rooms[1].messages.iter().map(|m| m.content.clone()).collect();
    assert_eq!(contents, vec!["one", "two", "three"]);
    assert_eq!(chat.inner.rooms[1].unreads, 3);
    let count = chat.trigger.count;
    chat.handle_event(ServerEvent::ReceiveMessage(NewMessageResponse { room_id: 42, message: message(1, 1, "x", 1) }))
        .unwrap();
    assert_eq!(chat.trigger.count, count);
}

#[test]
fn accepted_friend_replaces_pending_request() {
    let mut chat = ChatState::new(1);
    init(&mut chat, vec![], vec![friend(2, "adding", false, 0)]);
    assert_eq!(chat.inner.friends[0].relation, Relation::IncomingAdding);
    chat.handle_event(ServerEvent::AcceptedFriend(AcceptFriendResponse { friend: friend(2, "accepted", false, 7) }))
        .unwrap();
    assert_eq!(chat.inner.friends.len(), 1);
    assert_eq!(chat.inner.friends[0].id, 2);
    assert_eq!(chat.inner.friends[0].relation, Relation::Friend(7));
    assert_eq!(chat.trigger.action, TriggerAction::Friend(AffectedFriend { friend_id: 2, curr_friend: 0 }));
}

#[test]
fn search_for_absent_text_lists_nothing() {
    let mut chat = ChatState::new(1);
    init(&mut chat, vec![room(1, "general", "public", vec![], vec![]), room(2, "random", "public", vec![], vec![])], vec![]);
    assert!(chat.search_rooms("zzz").is_empty());
    assert_eq!(room_ids(&chat), vec![1, 2]);
    let found = chat.search_rooms("gen");
    assert_eq!(found.len(), 1);
    assert_eq!(found[0].id, 1);
    let all = chat.search_rooms("");
    assert_eq!(all.iter().map(|r| r.id).collect::<Vec<_>>(), vec![2, 1]);
}

#[test]
fn deleted_members_leave_only_their_room() {
    let mut chat = ChatState::new(1);
    let members = vec![member(1, "a", "owner"), member(2, "b", "member"), member(3, "c", "member")];
    init(
        &mut chat,
        vec![room(1, "x", "public", members.clone(), vec![]), room(2, "y", "public", members, vec![])],
        vec![],
    );
    chat.handle_event(ServerEvent::DeletedRoomMembers(DeleteMembersResponse { room_id: 1, member_ids: vec![2, 3, 9] }))
        .unwrap();
    assert_eq!(chat.inner.rooms[0].members.iter().map(|m| m.id).collect::<Vec<_>>(), vec![1]);
    assert_eq!(chat.inner.rooms[1].members.len(), 3);
    assert_eq!(chat.trigger.action, TriggerAction::Member(AffectedRoom { room_id: 1, curr_room: 0 }));
}

#[test]
fn initialized_twice_gives_the_same_store() {
    let mut chat = ChatState::new(1);
    chat.handle_event(ServerEvent::JoinedRoom(NewRoomResponse { room: room(99, "old", "public", vec![], vec![]) })).unwrap();
    let snapshot = || {
        (
            vec![
                room(1, "late", "public", vec![], vec![message(1, 2, "x", 50)]),
                room(2, "empty", "public", vec![], vec![]),
                room(3, "early", "public", vec![], vec![message(2, 2, "y", 10)]),
            ],
            vec![friend(4, "accepted", true, 3)],
        )
    };
    let (r, f) = snapshot();
    init(&mut chat, r, f);
    let first = (room_ids(&chat), chat.inner.friends.iter().map(|f| f.id).collect::<Vec<_>>());
    let (r, f) = snapshot();
    init(&mut chat, r, f);
    let second = (room_ids(&chat), chat.inner.friends.iter().map(|f| f.id).collect::<Vec<_>>());
    assert_eq!(first, second);
    assert_eq!(first.0, vec![2, 3, 1]);
    assert_eq!(chat.trigger.action, TriggerAction::Init);
}

#[test]
fn selecting_a_room_clears_only_its_unreads() {
    let mut chat = ChatState::new(1);
    init(&mut chat, vec![room(1, "a", "public", vec![], vec![]), room(2, "b", "public", vec![], vec![])], vec![]);
    for id in [1, 2, 2] {
        chat.handle_event(ServerEvent::ReceiveMessage(NewMessageResponse { room_id: id, message: message(id, 3, "m", 1) }))
            .unwrap();
    }
    chat.set_curr_room(2);
    assert_eq!(chat.curr_room(), 2);
    let unreads: Vec<(i64, i64)> = chat.inner.rooms.iter().map(|r| (r.id, r.unreads)).collect();
    assert_eq!(unreads, vec![(1, 1), (2, 0)]);
    chat.set_curr_friend(8);
    assert_eq!(chat.curr_friend(), 8);
}

#[test]
fn room_events_mutate_the_list() {
    let mut chat = ChatState::new(1);
    init(&mut chat, vec![room(1, "a", "public", vec![], vec![]), room(2, "b", "public", vec![], vec![])], vec![]);
    chat.handle_event(ServerEvent::UpdatedRoomName(NewRoomNameResponse { room_id: 2, name: "bee".to_string() })).unwrap();
    assert_eq!(chat.inner.rooms[1].name, "bee");
    chat.handle_event(ServerEvent::AddedRoomMembers(AddMembersResponse { room_id: 1, members: vec![member(5, "e", "member")] }))
        .unwrap();
    assert_eq!(chat.inner.rooms[0].members.len(), 1);
    chat.handle_event(ServerEvent::DeletedRoom(DeleteRoomResponse { room_id: 1 })).unwrap();
    assert_eq!(room_ids(&chat), vec![2]);
    chat.handle_event(ServerEvent::JoinedRoom(NewRoomResponse { room: room(3, "c", "public", vec![], vec![]) })).unwrap();
    assert_eq!(room_ids(&chat), vec![2, 3]);
    chat.handle_event(ServerEvent::LeavedRoom(LeaveRoomResponse { room_id: 2 })).unwrap();
    assert_eq!(room_ids(&chat), vec![3]);
    chat.handle_event(ServerEvent::UserRooms(UserRoomsResponse { rooms: vec![] })).unwrap();
    assert!(chat.inner.rooms.is_empty());
}

#[test]
fn friend_events_mutate_the_list() {
    let mut chat = ChatState::new(1);
    chat.handle_event(ServerEvent::UserFriends(UserFriendsResponse { friends: vec![friend(2, "accepted", true, 4), friend(3, "adding", true, 0)] }))
        .unwrap();
    assert_eq!(chat.inner.friends[1].relation, Relation::OutgoingAdding);
    chat.handle_event(ServerEvent::AddFriend(AddFriendResponse { friend: friend(4, "adding", false, 0) })).unwrap();
    assert_eq!(chat.trigger.action, TriggerAction::NewFriend);
    assert_eq!(chat.get_incoming_friends().len(), 1);
    assert_eq!(chat.get_outgoing_friends().len(), 1);
    assert_eq!(chat.get_accepted_friends().len(), 1);
    chat.handle_event(ServerEvent::RefusedFriend(RefuseFriendResponse { friend_id: 2 })).unwrap();
    assert_eq!(chat.inner.friends.iter().map(|f| f.id).collect::<Vec<_>>(), vec![4, 3]);
    chat.handle_event(ServerEvent::DeletedFriend(DeleteFriendResponse { friend_id: 4 })).unwrap();
    assert_eq!(chat.inner.friends.iter().map(|f| f.id).collect::<Vec<_>>(), vec![3]);
    assert!(chat.get_curr_friend(3).is_some());
    assert!(chat.get_curr_friend(4).is_none());
}

#[test]
fn close_event_is_an_error_and_changes_nothing() {
    let mut chat = ChatState::new(1);
    let r = chat.handle_event(ServerEvent::Close("expired".to_string()));
    assert_eq!(r, Err("expired".to_string()));
    assert_eq!(chat.trigger.count, 0);
}

#[test]
fn rooms_compare_by_latest_message() {
    let empty = room(1, "a", "public", vec![], vec![]);
    let early = room(2, "b", "public", vec![], vec![message(1, 1, "x", 10)]);
    let late = room(3, "c", "public", vec![], vec![message(1, 1, "x", 20)]);
    assert_eq!(cmp_room(&empty, &early), Ordering::Less);
    assert_eq!(cmp_room(&empty, &room(9, "z", "public", vec![], vec![])), Ordering::Equal);
    assert_eq!(cmp_room(&early, &empty), Ordering::Greater);
    assert_eq!(cmp_room(&early, &late), Ordering::Less);
    assert_eq!(cmp_room(&late, &early), Ordering::Greater);
    assert_eq!(cmp_room(&early, &early), Ordering::Equal);
    let sorted = sort_room_infos(vec![late, empty, early, room(4, "d", "public", vec![], vec![])]);
    assert_eq!(sorted.iter().map(|r| r.id).collect::<Vec<_>>(), vec![1, 4, 2, 3]);
}

#[test]
fn private_rooms_show_the_other_member() {
    let mut chat = ChatState::new(1);
    let members = vec![member(1, "me", "member"), member(2, "pal", "member")];
    init(
        &mut chat,
        vec![
            room(1, "p", "private", members.clone(), vec![message(3, 2, "yo", 5)]),
            room(2, "g", "public", members.clone(), vec![message(4, 2, "hey", 6)]),
            room(3, "n", "personal", vec![member(1, "me", "owner")], vec![]),
        ],
        vec![friend(2, "accepted", true, 1)],
    );
    let (name, cover) = parse_room_meta(&chat.inner.rooms[1], 1);
    assert_eq!((name.as_str(), cover.as_str()), ("pal", "a2"));
    let rooms = chat.get_rooms();
    assert_eq!(rooms.iter().map(|r| r.id).collect::<Vec<_>>(), vec![2, 1, 3]);
    assert_eq!(rooms[0].latest_msg, "user2: hey");
    assert_eq!(rooms[1].latest_msg, "yo");
    assert_eq!(rooms[1].name, "pal");
    assert_eq!(rooms[2].latest_msg, "");
    assert_eq!(rooms[2].latest_time, "");
    match chat.get_curr_room(1) {
        Some(CurrRoomItem::Private(f)) => assert_eq!(f.id, 2),
        _ => panic!("expected the friend of the private room"),
    }
    match chat.get_curr_room(2) {
        Some(CurrRoomItem::Public(p)) => assert_eq!(p.rank, "member"),
        _ => panic!("expected a public room"),
    }
    match chat.get_curr_room(3) {
        Some(CurrRoomItem::Personal(p)) => {
            assert_eq!(p.desc, "Blank");
            assert_eq!(CurrRoomItem::Personal(p).name(), "n");
        },
        _ => panic!("expected a personal room"),
    }
    assert!(chat.get_curr_room(9).is_none());
    assert_eq!(chat.get_rank(3), "owner");
    assert_eq!(chat.get_rank(9), "member");
}

#[test]
fn members_carry_their_relation() {
    let mut chat = ChatState::new(1);
    let members = vec![member(1, "me", "owner"), member(2, "pal", "member"), member(3, "stranger", "member")];
    init(&mut chat, vec![room(1, "g", "public", members, vec![])], vec![friend(2, "accepted", true, 8)]);
    let items = chat.get_members(1);
    let rel: Vec<Relation> = items.iter().map(|m| m.relation).collect();
    assert_eq!(rel, vec![Relation::Yourself, Relation::Friend(8), Relation::Stranger]);
    let found = chat.search_members(1, "pa");
    assert_eq!(found.len(), 1);
    assert_eq!(found[0].id, 2);
    assert!(chat.get_members(5).is_empty());
    let map = chat.get_relations();
    assert_eq!(map.get(&1), Some(&Relation::Yourself));
    assert_eq!(map.len(), 2);
    assert_eq!(chat.search_accepted_friends("nick").len(), 1);
    assert_eq!(chat.search_accepted_friends("zz").len(), 0);
    let user = UserInfo {
        id: 2,
        username: "pal".to_string(),
        nickname: "P".to_string(),
        avatar: "av".to_string(),
        bio: "hello".to_string(),
        role: "user".to_string(),
        deleted: false,
        create_at: 0,
    };
    let f = chat.get_friend_from_user(&GetUserByNameResponse { user: Some(user) }).unwrap();
    assert_eq!(f.relation, Relation::Friend(8));
    assert_eq!(f.bio, "hello");
    assert!(chat.get_friend_from_user(&GetUserByNameResponse { user: None }).is_none());
}

fn attr(id: i64, sid: i64) -> MessageAttr {
    MessageAttr {
        id,
        sid,
        name: String::new(),
        avatar: String::new(),
        content: format!("m{}", id),
        kind: "text".to_string(),
        send_at: 0,
    }
}

fn at(year: i32, month: u32, day: u32, hour: u32) -> Option<LocalTime> {
    Some(LocalTime { year, month, day, hour, minute: 0 })
}

#[test]
fn dividers_stand_where_the_bucket_changes() {
    let now = LocalTime { year: 2023, month: 3, day: 8, hour: 12, minute: 0 };
    let messages = vec![attr(1, 1), attr(2, 2), attr(3, 1), attr(4, 2)];
    let times = vec![at(2023, 3, 7, 9), at(2023, 3, 7, 10), at(2023, 3, 8, 8), at(2023, 3, 8, 9)];
    let items = group_messages(&messages, &times, &now, 1);
    let shape: Vec<String> = items
        .iter()
        .map(|i| match i {
            MessageItem::TimeDivider(b) => b.label(),
            MessageItem::Outgoing(c) => format!("out{}", c.id),
            MessageItem::Incoming(c) => format!("in{}", c.id),
        })
        .collect();
    assert_eq!(shape, vec!["Yesterday", "out1", "in2", "Today", "out3", "in4"]);
    match &items[1] {
        MessageItem::Outgoing(c) => assert_eq!(c.send_at, "09:00"),
        _ => panic!("expected a message"),
    }
    assert!(matches!(items[0], MessageItem::TimeDivider(TimeAgo::Yesterday)));
    assert!(group_messages(&vec![], &vec![], &now, 1).is_empty());
}

#[test]
fn messages_of_a_room_are_listed_in_order() {
    let mut chat = ChatState::new(1);
    init(&mut chat, vec![room(1, "g", "public", vec![], vec![message(1, 1, "a", 1_678_276_800_000_000), message(2, 2, "b", 1_678_276_900_000_000)])], vec![]);
    let items = chat.get_messages(1);
    let ids: Vec<i64> = items
        .iter()
        .filter_map(|i| match i {
            MessageItem::Outgoing(c) | MessageItem::Incoming(c) => Some(c.id),
            MessageItem::TimeDivider(_) => None,
        })
        .collect();
    assert_eq!(ids, vec![1, 2]);
    assert!(matches!(items[0], MessageItem::TimeDivider(_)));
    assert!(chat.get_messages(7).is_empty());
}

#[test]
fn outgoing_requests_are_built() {
    let chat = ChatState::new(4);
    match chat.create_room("team".to_string(), vec![5, 6]) {
        ClientEvent::CreateRoom(req) => {
            assert_eq!(req.name, "team");
            assert_eq!(req.member_ids, vec![4, 5, 6]);
        },
        _ => panic!("expected CreateRoom"),
    }
    assert!(matches!(chat.delete_room(3), ClientEvent::DeleteRoom(r) if r.room_id == 3));
    assert!(matches!(chat.add_friend(3), ClientEvent::AddFriend(r) if r.friend_id == 3));
    assert!(matches!(chat.get_user_rooms(), ClientEvent::GetUserRooms));
}

#[test]
fn unread_counter_stops_at_its_maximum() {
    let mut chat = ChatState::new(1);
    init(&mut chat, vec![room(1, "a", "public", vec![], vec![])], vec![]);
    chat.inner.rooms[0].unreads = i64::MAX;
    chat.handle_event(ServerEvent::ReceiveMessage(NewMessageResponse { room_id: 1, message: message(1, 2, "x", 1) }))
        .unwrap();
    assert_eq!(chat.inner.rooms[0].unreads, i64::MAX);
    assert_eq!(chat.inner.rooms[0].messages.len(), 1);
}
