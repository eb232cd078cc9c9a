//! Client-side state synchronisation for a chat front-end: the wire
//! contract shared with the server, the field rules every outgoing request
//! obeys, the synchronised store of rooms and friends that server events
//! mutate, the change-notification counter, and the reconnection state
//! machine around the socket.

pub mod text;
pub mod validator;
pub mod auth;
pub mod user;
pub mod common;
pub mod friend;
pub mod member;
pub mod message;
pub mod room;
pub mod event;
pub mod trigger;
pub mod room_triggers;
pub mod friend_triggers;
pub mod clock;
pub mod types;
pub mod sorting;
pub mod store;
pub mod chat;
pub mod connection;
pub mod session;
pub mod api;
pub mod ui;
