//! User records and the administrative user payloads.

use vstd::prelude::*;
use crate::validator::{
    check_length, check_range, len_within, valid_id_seq, validate_id_vec,
    validate_user_role, ValidationError,
};

verus! {

/// A user as the server describes it; `create_at` is in microseconds since
/// the Unix epoch, UTC.
#[derive(Clone, Debug)]
pub struct UserInfo {
    pub id: i64,
    pub username: String,
    pub nickname: String,
    pub avatar: String,
    pub bio: String,
    pub role: String,
    pub deleted: bool,
    pub create_at: i64,
}

/// An accepted user role.
pub open spec fn valid_role(role: Seq<char>) -> bool {
    role == "admin"@ || role == "user"@
}

/// An optional string field, checked only when present.
pub open spec fn opt_len_within(s: Option<String>, min: int, max: int) -> bool {
    match s {
        Some(v) => len_within(v@, min, max),
        None => true,
    }
}

fn check_opt_length(s: &Option<String>, min: usize, max: usize, message: &str) -> (r: Result<(), ValidationError>)
    ensures
        r is Ok <==> opt_len_within(*s, min as int, max as int),
{
    match s {
        Some(v) => check_length(v.as_str(), min, max, message),
        None => Ok(()),
    }
}

pub struct CreateUserRequest {
    pub username: String,
    pub password: String,
    pub role: String,
}

impl CreateUserRequest {
    pub open spec fn is_valid(&self) -> bool {
        &&& len_within(self.username@, 2, 50)
        &&& len_within(self.password@, 6, 50)
        &&& valid_role(self.role@)
    }

    pub fn validate(&self) -> (r: Result<(), ValidationError>)
        ensures
            r is Ok <==> self.is_valid(),
    {
        check_length(self.username.as_str(), 2, 50, "must be between 2 and 50 characters")?;
        check_length(self.password.as_str(), 6, 50, "must be between 6 and 50 characters")?;
        validate_user_role(self.role.as_str())
    }
}

pub struct CreateUserResponse {
    pub user: UserInfo,
}

pub struct DeleteUsersRequest {
    pub user_ids: Vec<i64>,
}

impl DeleteUsersRequest {
    pub open spec fn is_valid(&self) -> bool {
        valid_id_seq(self.user_ids@)
    }

    pub fn validate(&self) -> (r: Result<(), ValidationError>)
        ensures
            r is Ok <==> self.is_valid(),
    {
        validate_id_vec(&self.user_ids)
    }
}

pub struct DeleteUsersResponse {
    pub message: String,
}

pub struct UpdateUserRequest {
    pub user_id: i64,
    pub username: Option<String>,
    pub password: Option<String>,
    pub nickname: Option<String>,
    pub avatar: Option<String>,
    pub bio: Option<String>,
    pub role: Option<String>,
    pub deleted: Option<bool>,
}

impl UpdateUserRequest {
    pub open spec fn is_valid(&self) -> bool {
        &&& self.user_id >= 1
        &&& opt_len_within(self.username, 2, 50)
        &&& opt_len_within(self.password, 6, 50)
        &&& opt_len_within(self.nickname, 2, 50)
        &&& opt_len_within(self.avatar, 1, 200)
        &&& opt_len_within(self.bio, 1, 200)
        &&& match self.role {
            Some(r) => valid_role(r@),
            None => true,
        }
    }

    pub fn validate(&self) -> (r: Result<(), ValidationError>)
        ensures
            r is Ok <==> self.is_valid(),
    {
        check_range(self.user_id, 1, i64::MAX, "user id is invalid")?;
        check_opt_length(&self.username, 2, 50, "must be between 2 and 50 characters")?;
        check_opt_length(&self.password, 6, 50, "must be between 6 and 50 characters")?;
        check_opt_length(&self.nickname, 2, 50, "must be between 2 and 50 characters")?;
        check_opt_length(&self.avatar, 1, 200, "must be between 1 and 200 characters")?;
        check_opt_length(&self.bio, 1, 200, "must be between 1 and 200 characters")?;
        match &self.role {
            Some(role) => validate_user_role(role.as_str()),
            None => Ok(()),
        }
    }
}

pub struct UpdateUserResponse {
    pub user: UserInfo,
}

pub struct ListUsersRequest {
    pub page_id: Option<i64>,
    pub page_size: Option<i64>,
}

impl ListUsersRequest {
    pub open spec fn is_valid(&self) -> bool {
        &&& match self.page_id {
            Some(p) => p >= 1,
            None => true,
        }
        &&& match self.page_size {
            Some(p) => 5 <= p <= 50,
            None => true,
        }
    }

    pub fn validate(&self) -> (r: Result<(), ValidationError>)
        ensures
            r is Ok <==> self.is_valid(),
    {
        if let Some(p) = self.page_id {
            check_range(p, 1, i64::MAX, "must be greater than 1")?;
        }
        if let Some(p) = self.page_size {
            check_range(p, 5, 50, "must be between 5 and 50")?;
        }
        Ok(())
    }
}

pub struct ListUsersResponse {
    pub total: i64,
    pub users: Vec<UserInfo>,
}

pub struct GetUserByNameRequest {
    pub username: String,
}

impl GetUserByNameRequest {
    pub open spec fn is_valid(&self) -> bool {
        len_within(self.username@, 2, 50)
    }

    pub fn validate(&self) -> (r: Result<(), ValidationError>)
        ensures
            r is Ok <==> self.is_valid(),
    {
        check_length(self.username.as_str(), 2, 50, "must be between 2 and 50 characters")
    }
}

pub struct GetUserByNameResponse {
    pub user: Option<UserInfo>,
}

} // verus!
