//! Room membership records and payloads.

use vstd::prelude::*;
use vstd::string::*;
use crate::validator::{check_id, valid_id_seq, validate_id_vec, ValidationError};

verus! {

/// A member of one room. `rank` is `owner`, `manager` or `member`;
/// `join_at` is in microseconds since the Unix epoch, UTC.
#[derive(Clone, Debug)]
pub struct MemberInfo {
    pub id: i64,
    pub name: String,
    pub avatar: String,
    pub rank: String,
    pub join_at: i64,
}

/// A non-empty, duplicate-free list of positive ids with at least `min` entries.
pub fn check_id_list(ids: &Vec<i64>, min: usize, message: &str) -> (r: Result<(), ValidationError>)
    ensures
        r is Ok <==> (ids@.len() >= min && valid_id_seq(ids@)),
{
    if ids.len() < min {
        return Err(ValidationError { code: String::from_str("length"), message: String::from_str(message) });
    }
    validate_id_vec(ids)
}

pub struct AddMembersRequest {
    pub room_id: i64,
    pub member_ids: Vec<i64>,
}

impl AddMembersRequest {
    pub open spec fn is_valid(&self) -> bool {
        &&& self.room_id >= 1
        &&& self.member_ids@.len() >= 1
        &&& valid_id_seq(self.member_ids@)
    }

    pub fn validate(&self) -> (r: Result<(), ValidationError>)
        ensures
            r is Ok <==> self.is_valid(),
    {
        check_id(self.room_id)?;
        check_id_list(&self.member_ids, 1, "must have at least 1 members")
    }
}

pub struct AddMembersResponse {
    pub room_id: i64,
    pub members: Vec<MemberInfo>,
}

pub struct DeleteMembersRequest {
    pub room_id: i64,
    pub member_ids: Vec<i64>,
}

impl DeleteMembersRequest {
    pub open spec fn is_valid(&self) -> bool {
        &&& self.room_id >= 1
        &&& self.member_ids@.len() >= 1
        &&& valid_id_seq(self.member_ids@)
    }

    pub fn validate(&self) -> (r: Result<(), ValidationError>)
        ensures
            r is Ok <==> self.is_valid(),
    {
        check_id(self.room_id)?;
        check_id_list(&self.member_ids, 1, "must have at least 1 members")
    }
}

pub struct DeleteMembersResponse {
    pub room_id: i64,
    pub member_ids: Vec<i64>,
}

} // verus!
