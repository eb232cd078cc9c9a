//! The session and notification state of the surrounding pages.

use vstd::prelude::*;
use vstd::string::*;
use crate::auth::{LoginResponse, RenewTokenResponse};
use crate::user::UserInfo;

verus! {

impl Default for UserInfo {
    fn default() -> (r: UserInfo)
        ensures
            r.id == 0,
            r.username@.len() == 0,
            r.nickname@.len() == 0,
            r.avatar@.len() == 0,
            r.bio@.len() == 0,
            r.role@.len() == 0,
            !r.deleted,
            r.create_at == 0,
    {
        UserInfo {
            id: 0,
            username: String::new(),
            nickname: String::new(),
            avatar: String::new(),
            bio: String::new(),
            role: String::new(),
            deleted: false,
            create_at: 0,
        }
    }
}

/// Who is logged in, and with which access token.
pub struct AuthState {
    pub authorized: bool,
    pub user: UserInfo,
    pub token: String,
}

pub enum AuthAction {
    /// A successful login.
    Login(LoginResponse),
    /// A renewed access token; the user stays.
    Renew(RenewTokenResponse),
    /// Logout.
    Clear,
}

impl Default for AuthState {
    fn default() -> (r: AuthState)
        ensures
            !r.authorized,
            r.user.id == 0,
            r.token@.len() == 0,
    {
        AuthState { authorized: false, user: UserInfo::default(), token: String::new() }
    }
}

impl AuthState {
    pub fn reduce(&mut self, action: AuthAction)
        ensures
            match action {
                AuthAction::Login(data) => final(self).authorized && final(self).user == data.user
                    && final(self).token == data.access_token,
                AuthAction::Renew(data) => final(self).authorized == old(self).authorized && final(self).user
                    == old(self).user && final(self).token == data.access_token,
                AuthAction::Clear => !final(self).authorized && final(self).user.id == 0 && final(self).token@.len()
                    == 0,
            },
    {
        match action {
            AuthAction::Login(data) => {
                self.authorized = true;
                self.user = data.user;
                self.token = data.access_token;
            },
            AuthAction::Renew(data) => {
                self.token = data.access_token;
            },
            AuthAction::Clear => {
                *self = AuthState::default();
            },
        }
    }
}

/// The transient notification.
pub struct ToastState {
    pub open: bool,
    pub color: String,
    pub message: String,
}

pub enum ToastAction {
    Info(String),
    Error(String),
    Close,
}

impl Default for ToastState {
    fn default() -> (r: ToastState)
        ensures
            !r.open,
            r.color@.len() == 0,
            r.message@.len() == 0,
    {
        ToastState { open: false, color: String::new(), message: String::new() }
    }
}

impl ToastState {
    /// Show an information or an error, or close the notification.
    pub fn reduce(&mut self, action: ToastAction)
        ensures
            match action {
                ToastAction::Info(m) => final(self).open && final(self).message == m && final(self).color@
                    == "bg-sky-600"@,
                ToastAction::Error(m) => final(self).open && final(self).message == m && final(self).color@
                    == "bg-orange-600"@,
                ToastAction::Close => !final(self).open && final(self).message@.len() == 0 && final(self).color@.len()
                    == 0,
            },
    {
        match action {
            ToastAction::Info(message) => {
                *self = ToastState { open: true, message, color: String::from_str("bg-sky-600") };
            },
            ToastAction::Error(message) => {
                *self = ToastState { open: true, message, color: String::from_str("bg-orange-600") };
            },
            ToastAction::Close => {
                *self = ToastState::default();
            },
        }
    }
}

} // verus!
