//! Error classification of the first client.

use vstd::prelude::*;
use crate::error::{
    ApiErrorBody, ApiErrorCode, ClientError, ErrorBodyRead, STATUS_INTERNAL_SERVER_ERROR, STATUS_NOT_FOUND, STATUS_UNAUTHORIZED,
    is_success, other_status_error, spec_is_success,
};

pub use crate::client::Env;

verus! {

/// Decides whether an HTTP answer is a success, and which error it is
/// otherwise.
///
/// Like the current classification, except that a 404 is always a bare
/// [`ClientError::NotFound`], whatever its body says.
pub fn map_to_burn_central_err(status: u16, body: ErrorBodyRead) -> (r: Result<(), ClientError>)
    ensures
        r is Ok <==> spec_is_success(status),
        status == STATUS_NOT_FOUND ==> r == Err::<(), ClientError>(ClientError::NotFound),
        status == STATUS_UNAUTHORIZED ==> r == Err::<(), ClientError>(ClientError::Unauthorized),
        status == STATUS_INTERNAL_SERVER_ERROR ==> r == Err::<(), ClientError>(
            ClientError::InternalServerError,
        ),
        !spec_is_success(status) && status != STATUS_NOT_FOUND && status != STATUS_UNAUTHORIZED
            && status != STATUS_INTERNAL_SERVER_ERROR ==> r == Err::<(), ClientError>(
            other_status_error(status, body),
        ),
        r == Err::<(), ClientError>(ClientError::Unauthorized) ==> status == STATUS_UNAUTHORIZED,
        !spec_is_success(status) && status != STATUS_NOT_FOUND && status != STATUS_UNAUTHORIZED
            && status != STATUS_INTERNAL_SERVER_ERROR ==> match body {
            ErrorBodyRead::Parsed(b) => r == Err::<(), ClientError>(ClientError::ApiError { status, body: b }),
            ErrorBodyRead::Unparsed(m) => r == Err::<(), ClientError>(
                ClientError::ApiError { status, body: ApiErrorBody { code: ApiErrorCode::Unknown, message: m } },
            ),
            ErrorBodyRead::Unreadable(m) => r == Err::<(), ClientError>(ClientError::UnknownError(m)),
        },
{
    if is_success(status) {
        Ok(())
    } else if status == STATUS_NOT_FOUND {
        Err(ClientError::NotFound)
    } else if status == STATUS_UNAUTHORIZED {
        Err(ClientError::Unauthorized)
    } else if status == STATUS_INTERNAL_SERVER_ERROR {
        Err(ClientError::InternalServerError)
    } else {
        Err(match body {
            ErrorBodyRead::Parsed(b) => ClientError::ApiError { status, body: b },
            ErrorBodyRead::Unparsed(m) => ClientError::ApiError {
                status,
                body: crate::error::ApiErrorBody { code: crate::error::ApiErrorCode::Unknown, message: m },
            },
            ErrorBodyRead::Unreadable(m) => ClientError::UnknownError(m),
        })
    }
}

} // verus!
