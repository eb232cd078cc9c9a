use chat_sync::auth::{LoginRequest, RegisterRequest};
use chat_sync::common::CreateInvitationRequest;
use chat_sync::event::ClientEvent;
use chat_sync::member::AddMembersRequest;
use chat_sync::message::NewMessageRequest;
use chat_sync::room::{NewRoomNameResquest, NewRoomRequest};
use chat_sync::text::{contains, str_eq};
use chat_sync::user::{ListUsersRequest, UpdateUserRequest};
use chat_sync::validator::{
    oneof, validate_friend_status, validate_id_vec, validate_message_kind, validate_room_category,
    validate_room_rank, validate_user_role,
};

#[test]
fn words_of_each_enumeration_are_accepted() {
    assert!(validate_user_role("admin").is_ok());
    assert!(validate_user_role("user").is_ok());
    assert_eq!(validate_user_role("root").unwrap_err().code, "oneof");
    assert!(validate_friend_status("adding").is_ok());
    assert!(validate_friend_status("accepted").is_ok());
    assert!(validate_friend_status("deleted").is_ok());
    assert!(validate_friend_status("blocked").is_err());
    assert!(validate_room_category("public").is_ok());
    assert!(validate_room_category("private").is_ok());
    assert!(validate_room_category("personal").is_ok());
    assert!(validate_room_category("Public").is_err());
    assert!(validate_room_rank("owner").is_ok());
    assert!(validate_room_rank("manager").is_ok());
    assert!(validate_room_rank("member").is_ok());
    assert_eq!(validate_room_rank("guest").unwrap_err().message, "must be one of owner,manager,member");
    assert!(validate_message_kind("text").is_ok());
    assert!(validate_message_kind("img").is_ok());
    assert!(validate_message_kind("video").is_err());
}

#[test]
fn oneof_reports_the_accepted_words() {
    let e = oneof("x", &vec!["a", "b", "c"]).unwrap_err();
    assert_eq!(e.code, "oneof");
    assert_eq!(e.message, "must be one of a,b,c");
    assert!(oneof("b", &vec!["a", "b", "c"]).is_ok());
    assert!(oneof("", &vec![]).is_err());
}

#[test]
fn id_lists_must_be_positive_and_distinct() {
    assert!(validate_id_vec(&vec![]).is_ok());
    assert!(validate_id_vec(&vec![1, 2, 3]).is_ok());
    assert!(validate_id_vec(&vec![1, 0, 3]).is_err());
    assert!(validate_id_vec(&vec![-4]).is_err());
    let e = validate_id_vec(&vec![1, 2, 1]).unwrap_err();
    assert_eq!(e.code, "vec");
    assert_eq!(e.message, "must be greater than 0 and not contain duplicate numbers");
}

#[test]
fn string_helpers() {
    assert!(str_eq("héllo", "héllo"));
    assert!(!str_eq("abc", "abd"));
    assert!(!str_eq("abc", "ab"));
    assert!(contains("general chat", "chat"));
    assert!(contains("anything", ""));
    assert!(!contains("general", "Gen"));
    assert!(!contains("ab", "abc"));
}

#[test]
fn register_and_login_lengths_count_characters() {
    let ok = RegisterRequest { username: "ab".to_string(), password: "secret".to_string(), code: "c".to_string() };
    assert!(ok.validate().is_ok());
    let short = RegisterRequest { username: "a".to_string(), password: "secret".to_string(), code: "c".to_string() };
    let e = short.validate().unwrap_err();
    assert_eq!(e.message, "must be between 2 and 50 characters");
    let long_code = RegisterRequest { username: "ab".to_string(), password: "secret".to_string(), code: "x".repeat(51) };
    assert!(long_code.validate().is_err());
    let accents = LoginRequest { username: "éé".to_string(), password: "ééééé".to_string() };
    assert!(accents.validate().is_err());
    let accents = LoginRequest { username: "éé".to_string(), password: "éééééé".to_string() };
    assert!(accents.validate().is_ok());
}

#[test]
fn request_field_rules() {
    let msg = NewMessageRequest { room_id: 1, content: "hi".to_string(), kind: "text".to_string() };
    assert!(msg.validate().is_ok());
    let msg = NewMessageRequest { room_id: 0, content: "hi".to_string(), kind: "text".to_string() };
    assert_eq!(msg.validate().unwrap_err().message, "invalid ID");
    let msg = NewMessageRequest { room_id: 1, content: "x".repeat(501), kind: "text".to_string() };
    assert!(msg.validate().is_err());
    let msg = NewMessageRequest { room_id: 1, content: "x".repeat(500), kind: "gif".to_string() };
    assert!(msg.validate().is_err());

    let room = NewRoomRequest { name: "team".to_string(), member_ids: vec![1, 2, 3] };
    assert!(room.validate().is_ok());
    let room = NewRoomRequest { name: "team".to_string(), member_ids: vec![1, 2] };
    assert_eq!(room.validate().unwrap_err().message, "must have at least 3 members");
    let room = NewRoomRequest { name: "team".to_string(), member_ids: vec![1, 2, 2] };
    assert!(room.validate().is_err());

    let add = AddMembersRequest { room_id: 3, member_ids: vec![] };
    assert!(add.validate().is_err());
    let add = AddMembersRequest { room_id: 3, member_ids: vec![7] };
    assert!(add.validate().is_ok());

    let rename = NewRoomNameResquest { room_id: 3, name: "x".to_string() };
    assert!(rename.validate().is_err());

    let inv = CreateInvitationRequest { length: 3, days: 1 };
    assert_eq!(inv.validate().unwrap_err().message, "must be greater than 3");
    let inv = CreateInvitationRequest { length: 4, days: 0 };
    assert_eq!(inv.validate().unwrap_err().message, "must be greater than 0");
    assert!(CreateInvitationRequest { length: 4, days: 1 }.validate().is_ok());

    let list = ListUsersRequest { page_id: None, page_size: Some(4) };
    assert!(list.validate().is_err());
    let list = ListUsersRequest { page_id: Some(1), page_size: Some(50) };
    assert!(list.validate().is_ok());

    let upd = UpdateUserRequest {
        user_id: 2,
        username: None,
        password: None,
        nickname: Some("n".to_string()),
        avatar: None,
        bio: None,
        role: None,
        deleted: None,
    };
    assert!(upd.validate().is_err());
    let upd = UpdateUserRequest {
        user_id: 2,
        username: None,
        password: None,
        nickname: None,
        avatar: None,
        bio: None,
        role: Some("admin".to_string()),
        deleted: Some(true),
    };
    assert!(upd.validate().is_ok());
}

#[test]
fn client_events_are_checked_by_payload() {
    assert!(ClientEvent::Initialization.validate().is_ok());
    assert!(ClientEvent::GetUserFriends.validate().is_ok());
    let bad = ClientEvent::SendMessage(NewMessageRequest { room_id: 1, content: String::new(), kind: "text".to_string() });
    assert!(bad.validate().is_err());
}
