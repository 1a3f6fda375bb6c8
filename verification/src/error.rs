//! The errors that the library reports.

use vstd::prelude::*;

verus! {

/// Why the token codec refused.
#[derive(Debug, Clone, Copy, PartialEq, Eq, Structural)]
pub enum AuthError {
    /// The claims could not be signed.
    Signing,
    /// The token is malformed, carries a wrong signature, lacks a claim or
    /// has expired.
    InvalidToken,
}

/// Why a repository call failed.
#[derive(Debug, Clone)]
pub enum StorageError {
    /// The row that was asked for does not exist.
    RowNotFound,
    /// The datastore refused or could not be reached.
    Database(String),
}

/// The request was malformed.
pub const BAD_REQUEST: u16 = 400;

/// The credentials or the token were not accepted.
pub const UNAUTHORIZED: u16 = 401;

/// The email or the username is taken.
pub const CONFLICT: u16 = 409;

/// The server failed.
pub const INTERNAL_SERVER_ERROR: u16 = 500;

/// The resource was created.
pub const CREATED: u16 = 201;

/// The uniform error answer of the service: an HTTP status and a message.
#[derive(Debug, Clone, PartialEq)]
pub struct APIErrorResponse {
    status: u16,
    message: String,
}

/// What services return.
pub type APIResult<T> = Result<T, APIErrorResponse>;

/// An error answer as a plain value.
pub struct APIErrorView {
    pub status: int,
    pub message: Seq<char>,
}

impl View for APIErrorResponse {
    type V = APIErrorView;

    closed spec fn view(&self) -> APIErrorView {
        APIErrorView { status: self.status as int, message: self.message@ }
    }
}

/// The answer to bad credentials and to a token that is not accepted.
pub open spec fn unauthorized_view() -> APIErrorView {
    APIErrorView { status: UNAUTHORIZED as int, message: "Unauthorized"@ }
}

/// The answer to a failed login, whatever made it fail.
pub open spec fn invalid_login_view() -> APIErrorView {
    APIErrorView { status: UNAUTHORIZED as int, message: "Invalid email or password"@ }
}

/// The answer to a registration whose email or username is taken.
pub open spec fn conflict_view() -> APIErrorView {
    APIErrorView { status: CONFLICT as int, message: "Email or username already exists"@ }
}

/// The answer to a failure of the datastore.
pub open spec fn storage_error_view(err: StorageError) -> APIErrorView {
    match err {
        StorageError::RowNotFound => APIErrorView {
            status: INTERNAL_SERVER_ERROR as int,
            message: "Row not found"@,
        },
        StorageError::Database(message) => APIErrorView {
            status: INTERNAL_SERVER_ERROR as int,
            message: message@,
        },
    }
}

/// The answer to a failure of the token codec.
pub open spec fn auth_error_view(err: AuthError) -> APIErrorView {
    match err {
        AuthError::Signing => APIErrorView {
            status: INTERNAL_SERVER_ERROR as int,
            message: "Token could not be signed"@,
        },
        AuthError::InvalidToken => unauthorized_view(),
    }
}

/// The answer is the 400 that reports `fault`, or none where there is no
/// fault.
pub open spec fn reports_fault(r: Option<APIErrorResponse>, fault: Option<Seq<char>>) -> bool {
    match (r, fault) {
        (Some(e), Some(message)) => e@ == (APIErrorView { status: BAD_REQUEST as int, message }),
        (None, None) => true,
        _ => false,
    }
}

impl APIErrorResponse {
    /// An error answer with the given status and message.
    pub fn new(status: u16, message: String) -> (r: Self)
        ensures
            r@.status == status,
            r@.message == message@,
    {
        Self { status, message }
    }

    /// The HTTP status.
    pub fn status(&self) -> (r: u16)
        ensures
            r == self@.status,
    {
        self.status
    }

    /// The message.
    pub fn message(&self) -> (r: &str)
        ensures
            r@ == self@.message,
    {
        self.message.as_str()
    }

    /// The 400 that reports a fault in what the client sent.
    pub fn bad_request(message: &str) -> (r: Self)
        ensures
            r@ == (APIErrorView { status: BAD_REQUEST as int, message: message@ }),
    {
        Self { status: BAD_REQUEST, message: message.to_owned() }
    }

    /// The answer to bad credentials and to a token that is not accepted.
    pub fn unauthorized() -> (r: Self)
        ensures
            r@ == unauthorized_view(),
    {
        Self { status: UNAUTHORIZED, message: "Unauthorized".to_owned() }
    }

    /// The answer to a failed login, whatever made it fail.
    pub fn invalid_login() -> (r: Self)
        ensures
            r@ == invalid_login_view(),
    {
        Self { status: UNAUTHORIZED, message: "Invalid email or password".to_owned() }
    }

    /// The answer to a registration whose email or username is taken.
    pub fn conflict() -> (r: Self)
        ensures
            r@ == conflict_view(),
    {
        Self { status: CONFLICT, message: "Email or username already exists".to_owned() }
    }

    /// The answer to a failure of the datastore: status 500 with the
    /// datastore's message.
    pub fn from_storage(err: StorageError) -> (r: Self)
        ensures
            r@ == storage_error_view(err),
    {
        match err {
            StorageError::RowNotFound => Self {
                status: INTERNAL_SERVER_ERROR,
                message: "Row not found".to_owned(),
            },
            StorageError::Database(message) => Self { status: INTERNAL_SERVER_ERROR, message },
        }
    }

    /// The answer to a failure of the token codec: status 500 where signing
    /// failed, the uniform 401 where a token was not accepted.
    pub fn from_auth(err: AuthError) -> (r: Self)
        ensures
            r@ == auth_error_view(err),
    {
        match err {
            AuthError::Signing => Self {
                status: INTERNAL_SERVER_ERROR,
                message: "Token could not be signed".to_owned(),
            },
            AuthError::InvalidToken => Self::unauthorized(),
        }
    }
}

} // verus!
