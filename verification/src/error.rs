//! Error types for the framework and the JSON-RPC / LSP error codes.
//!
//! Handlers return [`Result<T>`]. A request handler that fails with one of
//! the [`Error::Response`] helpers has that error sent back to the client as
//! a JSON-RPC error response.

pub mod codes;

use crate::strings::{concat2, concat3};
use crate::transport::{signed_decimal, signed_decimal_string};
use vstd::prelude::*;

verus! {

/// A JSON-RPC error object, as it appears inside an error response.
#[derive(Debug, Clone, PartialEq)]
pub struct ResponseError {
    /// A number indicating the error type that occurred.
    pub code: i64,
    /// A short, human-readable description of the error.
    pub message: String,
    /// Optional structured detail about the error.
    pub data: Option<serde_json::Value>,
}

/// The crate-wide error type. Transport and serialization failures are kept
/// apart from [`ResponseError`]s, which are meant for the client.
#[derive(Debug)]
pub enum Error {
    /// An I/O error from the underlying transport.
    Io(std::io::Error),
    /// A (de)serialization error.
    Serde(serde_json::Error),
    /// A protocol-level violation (bad framing, malformed message, ...).
    Protocol(String),
    /// An error destined to be returned to the client as a JSON-RPC error.
    Response(ResponseError),
}

/// Crate result alias.
pub type Result<T, E = Error> = std::result::Result<T, E>;

/// Whether `e` is a response error with `code`, `message` and no data.
pub open spec fn is_response_error(e: Error, code: i64, message: Seq<char>) -> bool {
    e matches Error::Response(r) && r.code == code && r.message@ == message && r.data is None
}

/// The text of an I/O error (`<std::io::Error as Display>`); what it says
/// depends on the error and the platform, so nothing is claimed about it.
#[verifier::external_body]
fn io_error_text(e: &std::io::Error) -> String {
    e.to_string()
}

/// The text of a JSON error (`<serde_json::Error as Display>`); nothing is
/// claimed about it.
#[verifier::external_body]
fn json_error_text(e: &serde_json::Error) -> String {
    e.to_string()
}

fn owned(s: &str) -> (r: String)
    ensures
        r@ == s@,
{
    s.to_owned()
}

impl Error {
    /// Whether `r` is what the client is told of this error: a response
    /// error itself; `INTERNAL_ERROR` for a transport or (de)serialization
    /// failure, which the peer cannot act on (their text is the failure's
    /// own); `INTERNAL_ERROR` with the message of a protocol failure. Never
    /// data beyond what a response error carried.
    pub open spec fn answered_as(self, r: ResponseError) -> bool {
        match self {
            Error::Response(e) => r.code == e.code && r.message@ == e.message@ && r.data == e.data,
            Error::Serde(_) => r.code == codes::INTERNAL_ERROR && r.data is None,
            Error::Io(_) => r.code == codes::INTERNAL_ERROR && r.data is None,
            Error::Protocol(m) => r.code == codes::INTERNAL_ERROR && r.message@ == m@
                && r.data is None,
        }
    }

    /// A [`Error::Response`] with a raw code and message and no data.
    pub fn response(code: i64, message: &str) -> (r: Self)
        ensures
            is_response_error(r, code, message@),
    {
        Error::Response(ResponseError { code, message: owned(message), data: None })
    }

    /// A protocol-level violation that is not safe to attribute to one
    /// request.
    pub fn protocol(message: &str) -> (r: Self)
        ensures
            r matches Error::Protocol(m) && m@ == message@,
    {
        Error::Protocol(owned(message))
    }

    /// `-32601`: the requested method has no handler.
    pub fn method_not_found(message: &str) -> (r: Self)
        ensures
            is_response_error(r, codes::METHOD_NOT_FOUND, message@),
    {
        Error::response(codes::METHOD_NOT_FOUND, message)
    }

    /// `-32602`: the params could not be understood by the handler.
    pub fn invalid_params(message: &str) -> (r: Self)
        ensures
            is_response_error(r, codes::INVALID_PARAMS, message@),
    {
        Error::response(codes::INVALID_PARAMS, message)
    }

    /// `-32600`: the request was structurally invalid for the current state.
    pub fn invalid_request(message: &str) -> (r: Self)
        ensures
            is_response_error(r, codes::INVALID_REQUEST, message@),
    {
        Error::response(codes::INVALID_REQUEST, message)
    }

    /// `-32603`: an unexpected internal failure.
    pub fn internal(message: &str) -> (r: Self)
        ensures
            is_response_error(r, codes::INTERNAL_ERROR, message@),
    {
        Error::response(codes::INTERNAL_ERROR, message)
    }

    /// `-32002`: a request arrived before `initialize` completed.
    pub fn server_not_initialized() -> (r: Self)
        ensures
            is_response_error(r, codes::SERVER_NOT_INITIALIZED, "server not initialized"@),
    {
        Error::response(codes::SERVER_NOT_INITIALIZED, "server not initialized")
    }

    /// `-32800`: the request was cancelled.
    pub fn request_cancelled() -> (r: Self)
        ensures
            is_response_error(r, codes::REQUEST_CANCELLED, "request cancelled"@),
    {
        Error::response(codes::REQUEST_CANCELLED, "request cancelled")
    }

    /// `-32801`: the document changed out from under this request; the
    /// client should re-issue it against the new content.
    pub fn content_modified() -> (r: Self)
        ensures
            is_response_error(r, codes::CONTENT_MODIFIED, "content modified"@),
    {
        Error::response(codes::CONTENT_MODIFIED, "content modified")
    }

    /// `-32802`: the server cancelled the request itself (LSP 3.17).
    pub fn server_cancelled() -> (r: Self)
        ensures
            is_response_error(r, codes::SERVER_CANCELLED, "server cancelled the request"@),
    {
        Error::response(codes::SERVER_CANCELLED, "server cancelled the request")
    }

    /// `-32803`: the request failed for a reason that is neither the
    /// client's fault nor a crash (LSP 3.17).
    pub fn request_failed(message: &str) -> (r: Self)
        ensures
            is_response_error(r, codes::REQUEST_FAILED, message@),
    {
        Error::response(codes::REQUEST_FAILED, message)
    }

    /// Attach structured `data` to a response error; other variants are
    /// returned unchanged.
    pub fn with_data(self, data: serde_json::Value) -> (r: Self)
        ensures
            match self {
                Error::Response(e) => r matches Error::Response(f) && f.code == e.code
                    && f.message@ == e.message@ && f.data == Some(data),
                _ => r == self,
            },
    {
        match self {
            Error::Response(e) => Error::Response(
                ResponseError { code: e.code, message: e.message, data: Some(data) },
            ),
            other => other,
        }
    }

    /// The error's text: `io error: ` or `serialization error: ` followed by
    /// what the failure says of itself (not stated here), `protocol error: `
    /// and the message, or `response error `, the code, `: ` and the
    /// message.
    pub fn to_string(&self) -> (r: String)
        ensures
            match self {
                Error::Io(_) => "io error: "@.is_prefix_of(r@),
                Error::Serde(_) => "serialization error: "@.is_prefix_of(r@),
                Error::Protocol(m) => r@ == "protocol error: "@ + m@,
                Error::Response(e) => r@ == "response error "@ + signed_decimal(e.code as int)
                    + ": "@ + e.message@,
            },
    {
        match self {
            Error::Io(e) => {
                let detail = io_error_text(e);
                let r = concat2("io error: ", detail.as_str());
                proof {
                    assert(r@.subrange(0, "io error: "@.len() as int) =~= "io error: "@);
                }
                r
            },
            Error::Serde(e) => {
                let detail = json_error_text(e);
                let r = concat2("serialization error: ", detail.as_str());
                proof {
                    assert(r@.subrange(0, "serialization error: "@.len() as int)
                        =~= "serialization error: "@);
                }
                r
            },
            Error::Protocol(m) => concat2("protocol error: ", m.as_str()),
            Error::Response(e) => {
                let code = signed_decimal_string(e.code);
                let head = concat3("response error ", code.as_str(), ": ");
                concat2(head.as_str(), e.message.as_str())
            },
        }
    }

    /// The error's own text, without the kind prefix of
    /// [`to_string`](Self::to_string): what the I/O or JSON failure says of
    /// itself (not stated here), or the message of a protocol or response
    /// error.
    pub fn detail(&self) -> (r: String)
        ensures
            self matches Error::Protocol(m) ==> r@ == m@,
            self matches Error::Response(e) ==> r@ == e.message@,
    {
        match self {
            Error::Io(e) => io_error_text(e),
            Error::Serde(e) => json_error_text(e),
            Error::Protocol(m) => m.clone(),
            Error::Response(e) => e.message.clone(),
        }
    }

    /// The [`ResponseError`] to send back to the client for this error. A
    /// response error is sent as it is; a transport, (de)serialization or
    /// protocol failure becomes `INTERNAL_ERROR`, carrying the failure's text
    /// and no data.
    pub fn into_response_error(self) -> (r: ResponseError)
        ensures
            self.answered_as(r),
    {
        match self {
            Error::Response(e) => e,
            Error::Serde(e) => ResponseError {
                code: codes::INTERNAL_ERROR,
                message: json_error_text(&e),
                data: None,
            },
            Error::Io(e) => ResponseError {
                code: codes::INTERNAL_ERROR,
                message: io_error_text(&e),
                data: None,
            },
            Error::Protocol(message) => ResponseError {
                code: codes::INTERNAL_ERROR,
                message,
                data: None,
            },
        }
    }
}

impl From<std::io::Error> for Error {
    fn from(e: std::io::Error) -> (r: Self) {
        Error::Io(e)
    }
}

impl vstd::std_specs::convert::FromSpecImpl<std::io::Error> for Error {
    open spec fn obeys_from_spec() -> bool {
        true
    }

    open spec fn from_spec(e: std::io::Error) -> Self {
        Error::Io(e)
    }
}

impl From<serde_json::Error> for Error {
    fn from(e: serde_json::Error) -> (r: Self) {
        Error::Serde(e)
    }
}

impl vstd::std_specs::convert::FromSpecImpl<serde_json::Error> for Error {
    open spec fn obeys_from_spec() -> bool {
        true
    }

    open spec fn from_spec(e: serde_json::Error) -> Self {
        Error::Serde(e)
    }
}

impl From<ResponseError> for Error {
    fn from(e: ResponseError) -> (r: Self) {
        Error::Response(e)
    }
}

impl vstd::std_specs::convert::FromSpecImpl<ResponseError> for Error {
    open spec fn obeys_from_spec() -> bool {
        true
    }

    open spec fn from_spec(e: ResponseError) -> Self {
        Error::Response(e)
    }
}

} // verus!
