//! The closed set of failures that the client reports, and the one mapping
//! from raw transport outcomes into it.

use crate::text::{decimal, decimal_string};
use vstd::prelude::*;
use vstd::string::*;

verus! {

/// Errors returned by the client.
#[derive(Debug, Clone, PartialEq, Eq)]
pub enum ApiError {
    /// The API token is invalid, missing, or lacks permission.
    Unauthorized,
    /// The requested resource was not found.
    NotFound,
    /// An address could not be parsed.
    InvalidUrl(String),
    /// A local I/O error occurred while a download was written.
    Io(String),
    /// A network-level error occurred.
    Network(String),
    /// The request timed out.
    Timeout,
    /// The response body could not be decoded.
    Deserialization(String),
    /// The server returned a pagination URL with a different scheme than the
    /// configured base URL, typically `http` instead of `https`: the server
    /// sits behind a proxy that terminates TLS and does not trust its
    /// forwarded headers.
    SchemeMismatch {
        /// Scheme the client is configured with.
        expected: String,
        /// Scheme the server returned.
        returned: String,
    },
    /// The server returned an unexpected status code.
    Server {
        /// HTTP status code.
        status: u16,
        /// Error message.
        message: String,
    },
}

/// An [`ApiError`] as a mathematical value.
pub enum ApiErrorView {
    Unauthorized,
    NotFound,
    InvalidUrl(Seq<char>),
    Io(Seq<char>),
    Network(Seq<char>),
    Timeout,
    Deserialization(Seq<char>),
    SchemeMismatch { expected: Seq<char>, returned: Seq<char> },
    Server { status: u16, message: Seq<char> },
}

impl View for ApiError {
    type V = ApiErrorView;

    open spec fn view(&self) -> ApiErrorView {
        match self {
            ApiError::Unauthorized => ApiErrorView::Unauthorized,
            ApiError::NotFound => ApiErrorView::NotFound,
            ApiError::InvalidUrl(detail) => ApiErrorView::InvalidUrl(detail@),
            ApiError::Io(detail) => ApiErrorView::Io(detail@),
            ApiError::Network(detail) => ApiErrorView::Network(detail@),
            ApiError::Timeout => ApiErrorView::Timeout,
            ApiError::Deserialization(detail) => ApiErrorView::Deserialization(detail@),
            ApiError::SchemeMismatch { expected, returned } => ApiErrorView::SchemeMismatch {
                expected: expected@,
                returned: returned@,
            },
            ApiError::Server { status, message } => ApiErrorView::Server {
                status: *status,
                message: message@,
            },
        }
    }
}

/// How one exchange with the server failed, as the transport saw it and
/// before it is classified.
#[derive(Debug, Clone, PartialEq, Eq)]
pub enum Failure {
    /// The server answered with a status that is not a success.
    Status(u16),
    /// The request deadline elapsed.
    Timeout,
    /// The body was not the JSON that was expected.
    Json(String),
    /// The downloaded bytes could not be written.
    Io(String),
    /// Any other transport failure: refused connection, DNS, TLS.
    Other(String),
}

/// A [`Failure`] as a mathematical value.
pub enum FailureView {
    Status(u16),
    Timeout,
    Json(Seq<char>),
    Io(Seq<char>),
    Other(Seq<char>),
}

impl View for Failure {
    type V = FailureView;

    open spec fn view(&self) -> FailureView {
        match self {
            Failure::Status(status) => FailureView::Status(*status),
            Failure::Timeout => FailureView::Timeout,
            Failure::Json(detail) => FailureView::Json(detail@),
            Failure::Io(detail) => FailureView::Io(detail@),
            Failure::Other(detail) => FailureView::Other(detail@),
        }
    }
}

/// The error that a failed exchange is reported as. 401 and 403 are one
/// error, since the client cannot act differently on them.
pub open spec fn classified(failure: FailureView) -> ApiErrorView {
    match failure {
        FailureView::Status(status) => if status == 401 || status == 403 {
            ApiErrorView::Unauthorized
        } else if status == 404 {
            ApiErrorView::NotFound
        } else {
            ApiErrorView::Server { status, message: "unexpected status code"@ }
        },
        FailureView::Timeout => ApiErrorView::Timeout,
        FailureView::Json(detail) => ApiErrorView::Deserialization(detail),
        FailureView::Io(detail) => ApiErrorView::Io(detail),
        FailureView::Other(detail) => ApiErrorView::Network(detail),
    }
}

/// The process exit code of an error: 2 for a rejected credential, 3 for a
/// missing resource, 4 for what lies between client and server, 1 otherwise.
pub open spec fn exit_code_of(error: ApiErrorView) -> u8 {
    match error {
        ApiErrorView::Unauthorized => 2,
        ApiErrorView::NotFound => 3,
        ApiErrorView::InvalidUrl(_) => 4,
        ApiErrorView::Io(_) => 4,
        ApiErrorView::Network(_) => 4,
        ApiErrorView::Timeout => 4,
        ApiErrorView::SchemeMismatch { .. } => 4,
        ApiErrorView::Deserialization(_) => 1,
        ApiErrorView::Server { .. } => 1,
    }
}

/// The message of an error, as it is shown to the user.
pub open spec fn message_of(error: ApiErrorView) -> Seq<char> {
    match error {
        ApiErrorView::Unauthorized => "unauthorized: invalid or missing API token"@,
        ApiErrorView::NotFound => "not found"@,
        ApiErrorView::InvalidUrl(detail) => "invalid URL: "@ + detail,
        ApiErrorView::Io(detail) => "I/O error: "@ + detail,
        ApiErrorView::Network(_) => "network error"@,
        ApiErrorView::Timeout => "request timed out"@,
        ApiErrorView::Deserialization(detail) => "failed to deserialize response: "@ + detail,
        ApiErrorView::SchemeMismatch { expected, returned } =>
            "server returned pagination URL with scheme \""@ + returned
            + "\" but client uses \""@ + expected
            + "\"; configure your server to trust proxy headers (e.g. PAPERLESS_PROXY_SSL_HEADER)"@,
        ApiErrorView::Server { status, message } => "server error ("@ + decimal(status as nat)
            + "): "@ + message,
    }
}

impl ApiError {
    /// Classifies a failed exchange. The mapping is total and does not depend
    /// on the operation that made the request.
    pub fn classify(failure: Failure) -> (error: ApiError)
        ensures
            error@ == classified(failure@),
    {
        match failure {
            Failure::Status(status) => {
                if status == 401 || status == 403 {
                    ApiError::Unauthorized
                } else if status == 404 {
                    ApiError::NotFound
                } else {
                    ApiError::Server {
                        status,
                        message: String::from_str("unexpected status code"),
                    }
                }
            },
            Failure::Timeout => ApiError::Timeout,
            Failure::Json(detail) => ApiError::Deserialization(detail),
            Failure::Io(detail) => ApiError::Io(detail),
            Failure::Other(detail) => ApiError::Network(detail),
        }
    }

    /// The exit code by which a script tells the kinds of failure apart.
    pub fn exit_code(&self) -> (code: u8)
        ensures
            code == exit_code_of(self@),
    {
        match self {
            ApiError::Unauthorized => 2,
            ApiError::NotFound => 3,
            ApiError::InvalidUrl(_)
            | ApiError::Io(_)
            | ApiError::Network(_)
            | ApiError::Timeout
            | ApiError::SchemeMismatch { .. } => 4,
            ApiError::Deserialization(_) | ApiError::Server { .. } => 1,
        }
    }

    /// The message of this error.
    pub fn message(&self) -> (text: String)
        ensures
            text@ == message_of(self@),
    {
        match self {
            ApiError::Unauthorized => String::from_str(
                "unauthorized: invalid or missing API token",
            ),
            ApiError::NotFound => String::from_str("not found"),
            ApiError::InvalidUrl(detail) => String::from_str("invalid URL: ").concat(
                detail.as_str(),
            ),
            ApiError::Io(detail) => String::from_str("I/O error: ").concat(detail.as_str()),
            ApiError::Network(_) => String::from_str("network error"),
            ApiError::Timeout => String::from_str("request timed out"),
            ApiError::Deserialization(detail) => String::from_str(
                "failed to deserialize response: ",
            ).concat(detail.as_str()),
            ApiError::SchemeMismatch { expected, returned } => String::from_str(
                "server returned pagination URL with scheme \"",
            ).concat(returned.as_str()).concat("\" but client uses \"").concat(
                expected.as_str(),
            ).concat(
                "\"; configure your server to trust proxy headers (e.g. PAPERLESS_PROXY_SSL_HEADER)",
            ),
            ApiError::Server { status, message } => {
                let code: u64 = *status as u64;
                String::from_str("server error (").concat(decimal_string(code).as_str()).concat(
                    "): ",
                ).concat(message.as_str())
            },
        }
    }
}

} // verus!
