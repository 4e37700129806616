//! The authenticated user.

pub mod response;

use vstd::prelude::*;
use crate::error::ClientError;
use response::UserResponseSchema;

verus! {

/// Path of the authenticated user.
pub const USER_PATH: &'static str = "user";

/// Path of the organizations of the authenticated user.
pub const USER_ORGANIZATIONS_PATH: &'static str = "user/organizations";

/// The user a `user` answer names.
///
/// The endpoint answers 200 with a `null` body rather than 401 when the
/// session is missing or expired, so an absent user means the session is
/// not live.
pub fn require_user(answer: Option<UserResponseSchema>) -> (r: Result<UserResponseSchema, ClientError>)
    ensures
        match answer {
            Some(u) => r == Ok::<UserResponseSchema, ClientError>(u),
            None => r == Err::<UserResponseSchema, ClientError>(ClientError::Unauthorized),
        },
{
    match answer {
        Some(user) => Ok(user),
        None => Err(ClientError::Unauthorized),
    }
}

} // verus!
