use chat_sync::api::{classify_reply, ApiError, Attempt, Reply};
use chat_sync::auth::{LoginResponse, RenewTokenResponse};
use chat_sync::chat::ChatState;
use chat_sync::connection::{on_server_event, ConnAction, ConnEvent, ConnState, ConnectionManager, SendError, OUTBOUND_CAPACITY, RECONNECT_LIMIT};
use chat_sync::event::{ClientEvent, ServerEvent};
use chat_sync::friend::AddFriendRequest;
use chat_sync::room::{LeaveRoomResponse, DeleteRoomRequest};
use chat_sync::room_triggers::RoomPageTrigger;
use chat_sync::friend_triggers::FriendPageTrigger;
use chat_sync::session::{AuthAction, AuthState, ToastAction, ToastState};
use chat_sync::trigger::{AffectedFriend, AffectedRoom, TriggerAction, TriggerState};
use chat_sync::user::UserInfo;

#[test]
fn three_failures_force_logout_once() {
    let mut conn = ConnectionManager::new();
    assert_eq!(RECONNECT_LIMIT, 3);
    let mut logouts = 0;
    let mut opens = 0;
    for _ in 0..3 {
        if conn.connect() == ConnAction::OpenTransport {
            opens += 1;
        }
        match conn.handle(ConnEvent::TransportError) {
            ConnAction::ForceLogout => logouts += 1,
            ConnAction::ScheduleReconnect => {},
            other => panic!("unexpected {:?}", other),
        }
    }
    assert_eq!(opens, 3);
    assert_eq!(logouts, 1);
    assert!(conn.link.gave_up);
    assert_eq!(conn.connect(), ConnAction::Nothing);
    assert_eq!(conn.handle(ConnEvent::TransportError), ConnAction::Nothing);
    assert_eq!(conn.link.state, ConnState::Disconnected);
}

#[test]
fn an_open_connection_resets_the_count() {
    let mut conn = ConnectionManager::new();
    for _ in 0..5 {
        assert_eq!(conn.connect(), ConnAction::OpenTransport);
        assert_eq!(conn.connect(), ConnAction::Nothing);
        assert_eq!(conn.handle(ConnEvent::Opened), ConnAction::SendInitialization);
        assert_eq!(conn.link.attempts, 0);
        assert_eq!(conn.handle(ConnEvent::TransportError), ConnAction::ScheduleReconnect);
    }
    assert!(!conn.link.gave_up);
}

#[test]
fn server_close_gives_up_at_once() {
    let mut conn = ConnectionManager::new();
    conn.connect();
    conn.handle(ConnEvent::Opened);
    let mut chat = ChatState::new(1);
    let a = on_server_event(&mut chat, &mut conn, ServerEvent::LeavedRoom(LeaveRoomResponse { room_id: 2 }));
    assert_eq!(a, ConnAction::Nothing);
    assert_eq!(chat.trigger.action, TriggerAction::Room(AffectedRoom { room_id: 2, curr_room: 0 }));
    let a = on_server_event(&mut chat, &mut conn, ServerEvent::Close("bye".to_string()));
    assert_eq!(a, ConnAction::ForceLogout);
    assert!(conn.link.gave_up);
    assert_eq!(conn.connect(), ConnAction::Nothing);
}

#[test]
fn sending_needs_an_open_transport_and_a_valid_payload() {
    let mut conn = ConnectionManager::new();
    assert!(matches!(conn.send(ClientEvent::GetUserRooms), Err(SendError::NoTransport)));
    conn.connect();
    conn.handle(ConnEvent::Opened);
    assert!(matches!(
        conn.send(ClientEvent::AddFriend(AddFriendRequest { friend_id: 0 })),
        Err(SendError::Invalid(_))
    ));
    assert!(conn.send(ClientEvent::DeleteRoom(DeleteRoomRequest { room_id: 3 })).is_ok());
    for _ in 1..OUTBOUND_CAPACITY {
        assert!(conn.send(ClientEvent::GetUserFriends).is_ok());
    }
    assert!(matches!(conn.send(ClientEvent::GetUserFriends), Err(SendError::Full)));
    let taken = conn.take_outbound();
    assert_eq!(taken.len(), OUTBOUND_CAPACITY);
    assert!(matches!(taken[0], ClientEvent::DeleteRoom(_)));
    assert!(conn.outbound.is_empty());
    conn.send(ClientEvent::GetUserFriends).ok();
    assert_eq!(conn.handle(ConnEvent::Shutdown), ConnAction::CloseTransport);
    assert!(conn.outbound.is_empty());
    assert_eq!(conn.handle(ConnEvent::Closed), ConnAction::Nothing);
    assert_eq!(conn.link.state, ConnState::Disconnected);
}

#[test]
fn replies_are_classified() {
    assert!(matches!(classify_reply(true, 200, String::new(), Attempt::First), Reply::Decode));
    match classify_reply(false, 400, "bad name".to_string(), Attempt::Public) {
        Reply::Fail(ApiError::Toast(m)) => assert_eq!(m, "bad name"),
        _ => panic!("expected a toast"),
    }
    assert!(matches!(classify_reply(false, 402, String::new(), Attempt::First), Reply::RenewAndResend));
    assert!(matches!(classify_reply(false, 402, String::new(), Attempt::Resent), Reply::Fail(ApiError::Expire)));
    assert!(matches!(classify_reply(false, 402, String::new(), Attempt::Public), Reply::Fail(ApiError::Console)));
    assert!(matches!(classify_reply(false, 500, String::new(), Attempt::First), Reply::Fail(ApiError::Console)));
}

#[test]
fn bus_counter_and_view_filters() {
    let mut bus = TriggerState::default();
    let before = RoomPageTrigger::from_trigger(&bus);
    bus.reduce(TriggerAction::Member(AffectedRoom { room_id: 1, curr_room: 1 }));
    let after = RoomPageTrigger::from_trigger(&bus);
    assert_eq!(bus.count, 1);
    assert!(before != after);
    assert!(before.to_rooms() == after.to_rooms());
    assert!(before.to_messages() == after.to_messages());
    assert!(before.to_members() != after.to_members());
    assert!(before.to_curr() == after.to_curr());
    assert!(before.to_new() == after.to_new());

    bus.reduce(TriggerAction::Room(AffectedRoom { room_id: 2, curr_room: 2 }));
    let selected = RoomPageTrigger::from_trigger(&bus);
    assert!(after.to_curr() != selected.to_curr());
    bus.reduce(TriggerAction::Room(AffectedRoom { room_id: 3, curr_room: 2 }));
    let other = RoomPageTrigger::from_trigger(&bus);
    assert!(selected.to_curr() == other.to_curr());
    assert!(selected.to_rooms() != other.to_rooms());

    let f0 = FriendPageTrigger::from_trigger(&bus);
    bus.reduce(TriggerAction::Friend(AffectedFriend { friend_id: 5, curr_friend: 6 }));
    let f1 = FriendPageTrigger::from_trigger(&bus);
    assert!(f0.to_curr() == f1.to_curr());
    assert!(f0.to_friends() != f1.to_friends());
    assert!(f0.to_new() != f1.to_new());
    bus.reduce(TriggerAction::NewFriend);
    let f2 = FriendPageTrigger::from_trigger(&bus);
    assert!(f1.to_friends() == f2.to_friends());
    assert!(f1.to_new() != f2.to_new());

    let mut top = TriggerState { count: u64::MAX, action: TriggerAction::Init };
    top.reduce(TriggerAction::NewFriend);
    assert_eq!(top.count, 0);
}

#[test]
fn session_and_toast_reducers() {
    let mut auth = AuthState::default();
    assert!(!auth.authorized);
    let user = UserInfo { id: 3, username: "u".to_string(), ..UserInfo::default() };
    auth.reduce(AuthAction::Login(LoginResponse { user, access_token: "t1".to_string() }));
    assert!(auth.authorized);
    assert_eq!(auth.user.id, 3);
    auth.reduce(AuthAction::Renew(RenewTokenResponse { access_token: "t2".to_string() }));
    assert_eq!(auth.token, "t2");
    assert_eq!(auth.user.id, 3);
    auth.reduce(AuthAction::Clear);
    assert!(!auth.authorized);
    assert_eq!(auth.token, "");

    let mut toast = ToastState::default();
    toast.reduce(ToastAction::Error("oops".to_string()));
    assert!(toast.open);
    assert_eq!(toast.color, "bg-orange-600");
    toast.reduce(ToastAction::Info("hi".to_string()));
    assert_eq!(toast.color, "bg-sky-600");
    assert_eq!(toast.message, "hi");
    toast.reduce(ToastAction::Close);
    assert!(!toast.open);
    assert_eq!(toast.message, "");
}
