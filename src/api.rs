//! What the HTTP helpers make of a server reply.

use vstd::prelude::*;

verus! {

/// How a failed request is surfaced.
#[derive(Debug)]
pub enum ApiError {
    /// A message shown to the user.
    Toast(String),
    /// Logged to the console only.
    Console,
    /// The session expired.
    Expire,
}

/// Which attempt a reply answers.
#[derive(Clone, Copy, Debug, PartialEq, Eq, Structural)]
pub enum Attempt {
    /// An unauthenticated request (register, login, token renewal, logout).
    Public,
    /// An authenticated request, first try.
    First,
    /// An authenticated request, resent with a renewed token.
    Resent,
}

/// What to do with a reply.
#[derive(Debug)]
pub enum Reply {
    /// Decode the body as the answer.
    Decode,
    /// Renew the access token, then resend.
    RenewAndResend,
    /// Fail with this error.
    Fail(ApiError),
}

/// Decide what a reply means: a success is decoded; 400 carries a message
/// for the user; 402 on an authenticated first try asks for a token renewal,
/// and on a resend means the session expired; anything else is logged.
pub fn classify_reply(ok: bool, status: u16, message: String, attempt: Attempt) -> (r: Reply)
    ensures
        ok ==> r is Decode,
        !ok && status == 400 ==> r == Reply::Fail(ApiError::Toast(message)),
        !ok && status == 402 && attempt == Attempt::First ==> r is RenewAndResend,
        !ok && status == 402 && attempt == Attempt::Resent ==> r == Reply::Fail(ApiError::Expire),
        !ok && status == 402 && attempt == Attempt::Public ==> r == Reply::Fail(ApiError::Console),
        !ok && status != 400 && status != 402 ==> r == Reply::Fail(ApiError::Console),
{
    if ok {
        Reply::Decode
    } else if status == 400 {
        Reply::Fail(ApiError::Toast(message))
    } else if status == 402 {
        match attempt {
            Attempt::First => Reply::RenewAndResend,
            Attempt::Resent => Reply::Fail(ApiError::Expire),
            Attempt::Public => Reply::Fail(ApiError::Console),
        }
    } else {
        Reply::Fail(ApiError::Console)
    }
}

} // verus!
