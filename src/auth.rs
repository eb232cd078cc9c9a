//! Register, login, token renewal and logout payloads.

use vstd::prelude::*;
use crate::user::UserInfo;
use crate::validator::{check_length, len_within, ValidationError};

verus! {

pub struct RegisterRequest {
    pub username: String,
    pub password: String,
    pub code: String,
}

impl RegisterRequest {
    pub open spec fn is_valid(&self) -> bool {
        &&& len_within(self.username@, 2, 50)
        &&& len_within(self.password@, 6, 50)
        &&& len_within(self.code@, 1, 50)
    }

    pub fn validate(&self) -> (r: Result<(), ValidationError>)
        ensures
            r is Ok <==> self.is_valid(),
    {
        check_length(self.username.as_str(), 2, 50, "must be between 2 and 50 characters")?;
        check_length(self.password.as_str(), 6, 50, "must be between 6 and 50 characters")?;
        check_length(self.code.as_str(), 1, 50, "must be between 1 and 50 characters")
    }
}

pub struct RegisterResponse {
    pub user: UserInfo,
}

pub struct LoginRequest {
    pub username: String,
    pub password: String,
}

impl LoginRequest {
    pub open spec fn is_valid(&self) -> bool {
        &&& len_within(self.username@, 2, 50)
        &&& len_within(self.password@, 6, 50)
    }

    pub fn validate(&self) -> (r: Result<(), ValidationError>)
        ensures
            r is Ok <==> self.is_valid(),
    {
        check_length(self.username.as_str(), 2, 50, "must be between 2 and 50 characters")?;
        check_length(self.password.as_str(), 6, 50, "must be between 6 and 50 characters")
    }
}

pub struct LoginResponse {
    pub user: UserInfo,
    pub access_token: String,
}

pub struct RenewTokenResponse {
    pub access_token: String,
}

pub struct LogoutResponse {
    pub message: String,
}

} // verus!
