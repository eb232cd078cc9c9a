//! Invitation codes.

use vstd::prelude::*;
use vstd::string::*;
use crate::validator::ValidationError;

verus! {

/// An invitation code; `expire_at` is in microseconds since the Unix epoch, UTC.
pub struct Invitation {
    pub code: String,
    pub expire_at: i64,
}

pub struct CreateInvitationRequest {
    pub length: usize,
    pub days: u64,
}

impl CreateInvitationRequest {
    pub open spec fn is_valid(&self) -> bool {
        self.length >= 4 && self.days >= 1
    }

    pub fn validate(&self) -> (r: Result<(), ValidationError>)
        ensures
            r is Ok <==> self.is_valid(),
    {
        if self.length < 4 {
            return Err(ValidationError {
                code: String::from_str("range"),
                message: String::from_str("must be greater than 3"),
            });
        }
        if self.days < 1 {
            return Err(ValidationError {
                code: String::from_str("range"),
                message: String::from_str("must be greater than 0"),
            });
        }
        Ok(())
    }
}

pub struct CreateInvitationResponse {
    pub invitation: Invitation,
}

} // verus!
