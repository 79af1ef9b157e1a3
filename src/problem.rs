use crate::auth::AuthError;
use crate::error::RequestError;
use vstd::prelude::*;

verus! {

/// Every failure a request can end in.
#[derive(Debug, Clone)]
pub enum Failure {
    Auth(AuthError),
    Request(RequestError),
    MalformedRequestBody { reason: String },
    NotFound,
    MethodNotAllowed,
    Internal,
}

/// The title a problem carries.
#[derive(Debug, Clone, Copy, PartialEq, Eq, Structural)]
pub enum ProblemTitle {
    /// No title.
    Absent,
    /// The status code's standard reason phrase.
    StatusReason,
    InvalidCredentials,
    InvalidRequestBody,
}

/// The human-readable detail a problem carries.
#[derive(Debug, Clone)]
pub enum ProblemDetail {
    Absent,
    /// "the payload must not exceed this many bytes"
    SizeLimit(usize),
    /// Why the request body could not be read.
    BodyError(String),
}

/// The wire error: a status code, a short title and an optional detail.
#[derive(Debug, Clone)]
pub struct Problem {
    pub status: u16,
    pub title: ProblemTitle,
    pub detail: ProblemDetail,
}

pub const STATUS_BAD_REQUEST: u16 = 400;
pub const STATUS_UNAUTHORIZED: u16 = 401;
pub const STATUS_NOT_FOUND: u16 = 404;
pub const STATUS_METHOD_NOT_ALLOWED: u16 = 405;
pub const STATUS_PAYLOAD_TOO_LARGE: u16 = 413;
pub const STATUS_INTERNAL_SERVER_ERROR: u16 = 500;

/// The status code a failure is reported with.
pub open spec fn status_of(f: Failure) -> u16 {
    match f {
        Failure::Auth(_) => STATUS_UNAUTHORIZED,
        Failure::Request(RequestError::PayloadTooLarge { .. }) => STATUS_PAYLOAD_TOO_LARGE,
        Failure::MalformedRequestBody { .. } => STATUS_BAD_REQUEST,
        Failure::NotFound => STATUS_NOT_FOUND,
        Failure::MethodNotAllowed => STATUS_METHOD_NOT_ALLOWED,
        Failure::Internal => STATUS_INTERNAL_SERVER_ERROR,
    }
}

/// The title a failure is reported with.
pub open spec fn title_of(f: Failure) -> ProblemTitle {
    match f {
        Failure::Auth(_) => ProblemTitle::InvalidCredentials,
        Failure::Request(_) => ProblemTitle::Absent,
        Failure::MalformedRequestBody { .. } => ProblemTitle::InvalidRequestBody,
        _ => ProblemTitle::StatusReason,
    }
}

/// Maps a failure to the problem the client sees. Authorization failures never
/// say which check failed, and internal failures carry no detail.
pub fn pack(failure: Failure) -> (r: Problem)
    ensures
        r.status == status_of(failure),
        r.title == title_of(failure),
        match failure {
            Failure::Request(RequestError::PayloadTooLarge { limit }) => r.detail matches ProblemDetail::SizeLimit(l)
                && l == limit,
            Failure::MalformedRequestBody { reason } => r.detail matches ProblemDetail::BodyError(s) && s@
                == reason@,
            _ => r.detail is Absent,
        },
{
    match failure {
        Failure::Auth(AuthError::InvalidCredentials) => Problem {
            status: STATUS_UNAUTHORIZED,
            title: ProblemTitle::InvalidCredentials,
            detail: ProblemDetail::Absent,
        },
        Failure::Request(RequestError::PayloadTooLarge { limit }) => Problem {
            status: STATUS_PAYLOAD_TOO_LARGE,
            title: ProblemTitle::Absent,
            detail: ProblemDetail::SizeLimit(limit),
        },
        Failure::MalformedRequestBody { reason } => Problem {
            status: STATUS_BAD_REQUEST,
            title: ProblemTitle::InvalidRequestBody,
            detail: ProblemDetail::BodyError(reason),
        },
        Failure::NotFound => Problem {
            status: STATUS_NOT_FOUND,
            title: ProblemTitle::StatusReason,
            detail: ProblemDetail::Absent,
        },
        Failure::MethodNotAllowed => Problem {
            status: STATUS_METHOD_NOT_ALLOWED,
            title: ProblemTitle::StatusReason,
            detail: ProblemDetail::Absent,
        },
        Failure::Internal => Problem {
            status: STATUS_INTERNAL_SERVER_ERROR,
            title: ProblemTitle::StatusReason,
            detail: ProblemDetail::Absent,
        },
    }
}

impl Failure {
    pub fn from_auth(e: AuthError) -> (r: Failure)
        ensures
            r == Failure::Auth(e),
    {
        Failure::Auth(e)
    }

    pub fn from_request(e: RequestError) -> (r: Failure)
        ensures
            r == Failure::Request(e),
    {
        Failure::Request(e)
    }
}

} // verus!
