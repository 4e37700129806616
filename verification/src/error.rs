//! Errors the client reports, and how an HTTP answer becomes one.

use vstd::prelude::*;

verus! {

/// Machine-readable code of an API error, as the server names it.
#[derive(Clone, Debug, PartialEq, Eq)]
pub enum ApiErrorCode {
    /// A code the server sent, kept as written.
    Named(String),
    /// No code could be read.
    Unknown,
}

/// The `{"code", "message"}` envelope the API answers errors with.
#[derive(Clone, Debug, PartialEq, Eq)]
pub struct ApiErrorBody {
    pub code: ApiErrorCode,
    pub message: String,
}

/// Errors returned by the client.
#[derive(Clone, Debug, PartialEq, Eq)]
pub enum ClientError {
    /// The resource does not exist.
    NotFound,
    /// The resource does not exist, and the server said why.
    NotFoundWithCode(ApiErrorCode),
    /// The credentials were rejected or the session is dead.
    Unauthorized,
    /// The server failed.
    InternalServerError,
    /// Any other unsuccessful answer, with its HTTP status.
    ApiError { status: u16, body: ApiErrorBody },
    /// The request failed before an answer arrived, or its body was unreadable.
    UnknownError(String),
    /// The login answer carried no usable session cookie.
    BadSessionId,
    /// A body could not be encoded or decoded as JSON.
    JsonError(String),
}

/// What became of the body of an unsuccessful answer.
#[derive(Clone, Debug, PartialEq, Eq)]
pub enum ErrorBodyRead {
    /// The body was read and decoded as an [`ApiErrorBody`].
    Parsed(ApiErrorBody),
    /// The body was read but is not an [`ApiErrorBody`]; the decoder's message.
    Unparsed(String),
    /// The body could not be read; the reader's message.
    Unreadable(String),
}

pub const STATUS_UNAUTHORIZED: u16 = 401;

pub const STATUS_NOT_FOUND: u16 = 404;

pub const STATUS_INTERNAL_SERVER_ERROR: u16 = 500;

pub const STATUS_BAD_REQUEST: u16 = 400;

pub const STATUS_NO_CONTENT: u16 = 204;

/// A status in the 2xx class.
pub open spec fn spec_is_success(status: u16) -> bool {
    200 <= status <= 299
}

/// Whether `status` reports success (it lies in 200–299).
pub fn is_success(status: u16) -> (b: bool)
    ensures
        b == spec_is_success(status),
{
    200 <= status && status <= 299
}

/// The error an unsuccessful answer with some other status stands for.
pub open spec fn other_status_error(status: u16, body: ErrorBodyRead) -> ClientError {
    match body {
        ErrorBodyRead::Parsed(b) => ClientError::ApiError { status, body: b },
        ErrorBodyRead::Unparsed(m) => ClientError::ApiError {
            status,
            body: ApiErrorBody { code: ApiErrorCode::Unknown, message: m },
        },
        ErrorBodyRead::Unreadable(m) => ClientError::UnknownError(m),
    }
}

/// The error an HTTP answer stands for, or `None` when it is a success.
pub open spec fn response_error(status: u16, body: ErrorBodyRead) -> Option<ClientError> {
    if spec_is_success(status) {
        None
    } else if status == STATUS_NOT_FOUND {
        Some(
            match body {
                ErrorBodyRead::Parsed(b) => ClientError::NotFoundWithCode(b.code),
                _ => ClientError::NotFound,
            },
        )
    } else if status == STATUS_UNAUTHORIZED {
        Some(ClientError::Unauthorized)
    } else if status == STATUS_INTERNAL_SERVER_ERROR {
        Some(ClientError::InternalServerError)
    } else {
        Some(other_status_error(status, body))
    }
}

/// Decides whether an HTTP answer is a success, and which error it is
/// otherwise.
///
/// A 2xx answer succeeds. A 404 reports the code of its body when the body
/// is an API error envelope. A 401 and a 500 are reported as such. Any
/// other status is an [`ClientError::ApiError`] carrying the envelope, or an
/// unknown-code envelope holding the decoder's message when the body is not
/// one; a body that cannot be read is an unknown error.
pub fn map_to_tracel_err(status: u16, body: ErrorBodyRead) -> (r: Result<(), ClientError>)
    ensures
        r == match response_error(status, body) {
            None => Ok::<(), ClientError>(()),
            Some(e) => Err(e),
        },
        r is Ok <==> spec_is_success(status),
        !spec_is_success(status) && status == STATUS_NOT_FOUND ==> r == match body {
            ErrorBodyRead::Parsed(b) => Err::<(), ClientError>(ClientError::NotFoundWithCode(b.code)),
            _ => Err(ClientError::NotFound),
        },
        status == STATUS_UNAUTHORIZED ==> r == Err::<(), ClientError>(ClientError::Unauthorized),
        status == STATUS_INTERNAL_SERVER_ERROR ==> r == Err::<(), ClientError>(
            ClientError::InternalServerError,
        ),
        !spec_is_success(status) && status != STATUS_NOT_FOUND && status != STATUS_UNAUTHORIZED
            && status != STATUS_INTERNAL_SERVER_ERROR ==> r == Err::<(), ClientError>(
            other_status_error(status, body),
        ),
        r == Err::<(), ClientError>(ClientError::Unauthorized) ==> status == STATUS_UNAUTHORIZED,
        !spec_is_success(status) && status != STATUS_NOT_FOUND && status != STATUS_UNAUTHORIZED
            && status != STATUS_INTERNAL_SERVER_ERROR ==> match body {
            ErrorBodyRead::Parsed(b) => r == Err::<(), ClientError>(ClientError::ApiError { status, body: b }),
            ErrorBodyRead::Unparsed(m) => r == Err::<(), ClientError>(
                ClientError::ApiError { status, body: ApiErrorBody { code: ApiErrorCode::Unknown, message: m } },
            ),
            ErrorBodyRead::Unreadable(m) => r == Err::<(), ClientError>(ClientError::UnknownError(m)),
        },
{
    if is_success(status) {
        Ok(())
    } else if status == STATUS_NOT_FOUND {
        match body {
            ErrorBodyRead::Parsed(b) => Err(ClientError::NotFoundWithCode(b.code)),
            _ => Err(ClientError::NotFound),
        }
    } else if status == STATUS_UNAUTHORIZED {
        Err(ClientError::Unauthorized)
    } else if status == STATUS_INTERNAL_SERVER_ERROR {
        Err(ClientError::InternalServerError)
    } else {
        Err(match body {
            ErrorBodyRead::Parsed(b) => ClientError::ApiError { status, body: b },
            ErrorBodyRead::Unparsed(m) => ClientError::ApiError {
                status,
                body: ApiErrorBody { code: ApiErrorCode::Unknown, message: m },
            },
            ErrorBodyRead::Unreadable(m) => ClientError::UnknownError(m),
        })
    }
}

/// The error a failed request stands for: an API error with an unknown code
/// when the failure carries an HTTP status, an unknown error otherwise; the
/// failure's message is kept either way.
pub fn from_transport_error(status: Option<u16>, message: String) -> (e: ClientError)
    ensures
        e == match status {
            Some(s) => ClientError::ApiError {
                status: s,
                body: ApiErrorBody { code: ApiErrorCode::Unknown, message },
            },
            None => ClientError::UnknownError(message),
        },
{
    match status {
        Some(s) => ClientError::ApiError {
            status: s,
            body: ApiErrorBody { code: ApiErrorCode::Unknown, message },
        },
        None => ClientError::UnknownError(message),
    }
}


/// Only a 401 is reported as rejected credentials, only a 500 as a server
/// failure, and only a 404 as a missing resource. Every other unsuccessful
/// status keeps itself and the envelope it came with: an error carries the
/// status it answers, and nothing but an unreadable body loses it.
pub proof fn lemma_statuses_are_kept(status: u16, body: ErrorBodyRead)
    ensures
        response_error(status, body) == Some(ClientError::Unauthorized) ==> status == STATUS_UNAUTHORIZED,
        response_error(status, body) == Some(ClientError::InternalServerError) ==> status
            == STATUS_INTERNAL_SERVER_ERROR,
        (response_error(status, body) matches Some(ClientError::NotFound)) ==> status == STATUS_NOT_FOUND,
        (response_error(status, body) matches Some(ClientError::NotFoundWithCode(_))) ==> status
            == STATUS_NOT_FOUND,
        response_error(status, body) matches Some(ClientError::ApiError { status: s, body: _ }) ==> s
            == status,
        !spec_is_success(status) && status != STATUS_NOT_FOUND && status != STATUS_UNAUTHORIZED
            && status != STATUS_INTERNAL_SERVER_ERROR && body is Parsed ==> response_error(status, body)
            == Some(ClientError::ApiError { status, body: body->Parsed_0 }),
        !spec_is_success(status) && status != STATUS_NOT_FOUND && status != STATUS_UNAUTHORIZED
            && status != STATUS_INTERNAL_SERVER_ERROR && body is Unparsed ==> response_error(status, body)
            == Some(
            ClientError::ApiError {
                status,
                body: ApiErrorBody { code: ApiErrorCode::Unknown, message: body->Unparsed_0 },
            },
        ),
        response_error(status, body) is None <==> spec_is_success(status),
{
}

} // verus!
