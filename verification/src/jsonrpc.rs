//! JSON-RPC 2.0 message model used by the LSP wire protocol.
//!
//! Three message shapes travel over the connection: a [`Request`] has an
//! `id` and expects a [`Response`]; a [`Notification`] has no `id`; a
//! [`Response`] carries the `id` of the request it answers. [`classify`]
//! decides which shape an incoming object is by the presence of its
//! `method` and `id` members.

use crate::error::{Error, ResponseError};
use crate::strings::concat2;
use crate::transport::{signed_decimal, signed_decimal_string};
use vstd::prelude::*;

verus! {

/// The JSON-RPC protocol version string carried by every message.
pub const JSONRPC_VERSION: &'static str = "2.0";

/// A request identifier: an integer or a string, per JSON-RPC.
#[derive(Debug, Clone, Hash)]
pub enum RequestId {
    /// Numeric id (the common case for LSP clients).
    Number(i64),
    /// String id.
    String(String),
}

/// The identity of a request id, for reasoning about sets of ids.
pub ghost enum IdKey {
    /// A numeric id.
    Number(i64),
    /// A string id, by its characters.
    Text(Seq<char>),
}

impl RequestId {
    /// The identity of this id: two ids are equal exactly when their keys
    /// are.
    pub open spec fn key(&self) -> IdKey {
        match self {
            RequestId::Number(n) => IdKey::Number(*n),
            RequestId::String(s) => IdKey::Text(s@),
        }
    }
}

impl PartialEq for RequestId {
    fn eq(&self, other: &Self) -> (r: bool) {
        match (self, other) {
            (RequestId::Number(a), RequestId::Number(b)) => *a == *b,
            (RequestId::String(a), RequestId::String(b)) => *a == *b,
            _ => false,
        }
    }
}

impl Eq for RequestId {}

impl vstd::std_specs::cmp::PartialEqSpecImpl for RequestId {
    open spec fn obeys_eq_spec() -> bool {
        true
    }

    open spec fn eq_spec(&self, other: &Self) -> bool {
        self.key() == other.key()
    }
}

/// How an incoming message's `id` member looked on the wire.
#[derive(Debug, Clone, PartialEq)]
pub enum RawId {
    /// JSON `null`.
    Null,
    /// A number that is an `i64`.
    Integer(i64),
    /// A number that is not an `i64` (fractional or out of range).
    OtherNumber,
    /// A string.
    Text(String),
    /// Any other JSON value, with its JSON rendering.
    Other(String),
}

impl RequestId {
    /// The id's text: a number in decimal, or the string itself.
    pub fn to_string(&self) -> (r: String)
        ensures
            match self {
                RequestId::Number(n) => r@ == signed_decimal(*n as int),
                RequestId::String(s) => r@ == s@,
            },
    {
        match self {
            RequestId::Number(n) => signed_decimal_string(*n),
            RequestId::String(s) => s.clone(),
        }
    }
}

/// The message of the protocol error for an `id` member that is no
/// request id.
pub open spec fn bad_id_message(id: RawId) -> Seq<char> {
    match id {
        RawId::OtherNumber => "request id is not an integer"@,
        RawId::Null => "invalid request id: "@ + "null"@,
        RawId::Other(text) => "invalid request id: "@ + text@,
        _ => Seq::empty(),
    }
}

impl RequestId {
    /// The request id an `id` member denotes: an `i64` number or a string.
    /// Any other number fails with "request id is not an integer"; any
    /// other value (JSON `null` included) fails with "invalid request id: "
    /// followed by its JSON rendering.
    pub fn from_raw(id: RawId) -> (r: Result<RequestId, Error>)
        ensures
            match id {
                RawId::Integer(n) => r == Ok::<RequestId, Error>(RequestId::Number(n)),
                RawId::Text(s) => r matches Ok(RequestId::String(t)) && t@ == s@,
                RawId::OtherNumber => r matches Err(Error::Protocol(m)) && m@
                    == "request id is not an integer"@,
                RawId::Null => r matches Err(Error::Protocol(m)) && m@ == "invalid request id: "@
                    + "null"@,
                RawId::Other(text) => r matches Err(Error::Protocol(m)) && m@
                    == "invalid request id: "@ + text@,
            },
    {
        match id {
            RawId::Integer(n) => Ok(RequestId::Number(n)),
            RawId::Text(s) => Ok(RequestId::String(s)),
            RawId::OtherNumber => Err(Error::protocol("request id is not an integer")),
            RawId::Null => {
                Err(Error::Protocol(concat2("invalid request id: ", "null")))
            },
            RawId::Other(text) => {
                Err(Error::Protocol(concat2("invalid request id: ", text.as_str())))
            },
        }
    }
}

/// A request: a method invocation that expects a matching [`Response`].
#[derive(Debug, Clone, PartialEq)]
pub struct Request {
    /// Correlation id echoed back in the response.
    pub id: RequestId,
    /// The method to invoke (e.g. `"textDocument/hover"`).
    pub method: String,
    /// Method parameters, if any.
    pub params: Option<serde_json::Value>,
}

/// A notification: a method invocation with no response.
#[derive(Debug, Clone, PartialEq)]
pub struct Notification {
    /// The method being notified (e.g. `"textDocument/didOpen"`).
    pub method: String,
    /// Method parameters, if any.
    pub params: Option<serde_json::Value>,
}

/// A response to a [`Request`]. Exactly one of `result` / `error` is set.
#[derive(Debug, Clone, PartialEq)]
pub struct Response {
    /// The id of the request being answered; `None` only when the id of a
    /// malformed request could not be determined.
    pub id: Option<RequestId>,
    /// The success payload (may be JSON `null`).
    pub result: Option<serde_json::Value>,
    /// The failure payload.
    pub error: Option<ResponseError>,
}

impl Response {
    /// A success response for `id` carrying `result`.
    pub fn success(id: RequestId, result: serde_json::Value) -> (r: Self)
        ensures
            r.id == Some(id),
            r.result == Some(result),
            r.error is None,
    {
        Response { id: Some(id), result: Some(result), error: None }
    }

    /// An error response for `id`.
    pub fn error(id: Option<RequestId>, error: ResponseError) -> (r: Self)
        ensures
            r.id == id,
            r.result is None,
            r.error == Some(error),
    {
        Response { id, result: None, error: Some(error) }
    }
}

/// Any message that can appear on the connection.
#[derive(Debug, Clone, PartialEq)]
pub enum Message {
    /// A request expecting a response.
    Request(Request),
    /// A response to an earlier request.
    Response(Response),
    /// A fire-and-forget notification.
    Notification(Notification),
}

impl From<Request> for Message {
    fn from(r: Request) -> (m: Self) {
        Message::Request(r)
    }
}

impl vstd::std_specs::convert::FromSpecImpl<Request> for Message {
    open spec fn obeys_from_spec() -> bool {
        true
    }

    open spec fn from_spec(r: Request) -> Self {
        Message::Request(r)
    }
}

impl From<Response> for Message {
    fn from(r: Response) -> (m: Self) {
        Message::Response(r)
    }
}

impl vstd::std_specs::convert::FromSpecImpl<Response> for Message {
    open spec fn obeys_from_spec() -> bool {
        true
    }

    open spec fn from_spec(r: Response) -> Self {
        Message::Response(r)
    }
}

impl From<Notification> for Message {
    fn from(n: Notification) -> (m: Self) {
        Message::Notification(n)
    }
}

impl vstd::std_specs::convert::FromSpecImpl<Notification> for Message {
    open spec fn obeys_from_spec() -> bool {
        true
    }

    open spec fn from_spec(n: Notification) -> Self {
        Message::Notification(n)
    }
}

/// The members of an incoming JSON object that decide what message it is.
#[derive(Debug, Clone, PartialEq)]
pub struct RawMessage {
    /// The `id` member, if present.
    pub id: Option<RawId>,
    /// The `method` member, if present.
    pub method: Option<String>,
    /// The `params` member, if present.
    pub params: Option<serde_json::Value>,
    /// The `result` member, if present.
    pub result: Option<serde_json::Value>,
    /// The `error` member, if present.
    pub error: Option<ResponseError>,
}

/// The request id a raw `id` member denotes, if it is a valid one.
pub open spec fn raw_id_key(id: RawId) -> Option<IdKey> {
    match id {
        RawId::Integer(n) => Some(IdKey::Number(n)),
        RawId::Text(s) => Some(IdKey::Text(s@)),
        _ => None,
    }
}

/// Whether an `id` member is present and not `null`.
pub open spec fn has_id(id: Option<RawId>) -> bool {
    id matches Some(i) && !(i is Null)
}

/// Classify an incoming object. With a `method` member it is a request if
/// it also has a non-null `id` (which must be a valid request id), else a
/// notification. Without a `method` it is a response, whose id is `None`
/// when absent or `null`.
pub fn classify(raw: RawMessage) -> (r: Result<Message, Error>)
    ensures
        match raw.method {
            Some(method) => if has_id(raw.id) {
                match raw_id_key(raw.id->0) {
                    Some(key) => r matches Ok(Message::Request(q)) && q.id.key() == key
                        && q.method@ == method@ && q.params == raw.params,
                    None => r matches Err(Error::Protocol(m)) && m@ == bad_id_message(
                        raw.id->0,
                    ),
                }
            } else {
                r matches Ok(Message::Notification(n)) && n.method@ == method@ && n.params
                    == raw.params
            },
            None => if has_id(raw.id) {
                match raw_id_key(raw.id->0) {
                    Some(key) => r matches Ok(Message::Response(p)) && p.id matches Some(i)
                        && i.key() == key && p.result == raw.result && p.error == raw.error,
                    None => r matches Err(Error::Protocol(m)) && m@ == bad_id_message(
                        raw.id->0,
                    ),
                }
            } else {
                r matches Ok(Message::Response(p)) && p.id is None && p.result == raw.result
                    && p.error == raw.error
            },
        },
{
    let RawMessage { id, method, params, result, error } = raw;
    let present = match &id {
        Some(RawId::Null) => false,
        Some(_) => true,
        None => false,
    };
    match method {
        Some(method) => {
            if present {
                match id {
                    Some(raw_id) => {
                        match RequestId::from_raw(raw_id) {
                            Ok(id) => Ok(Message::Request(Request { id, method, params })),
                            Err(e) => Err(e),
                        }
                    },
                    None => Ok(Message::Notification(Notification { method, params })),
                }
            } else {
                Ok(Message::Notification(Notification { method, params }))
            }
        },
        None => {
            let id = if present {
                match id {
                    Some(raw_id) => match RequestId::from_raw(raw_id) {
                        Ok(id) => Some(id),
                        Err(e) => {
                            return Err(e);
                        },
                    },
                    None => None,
                }
            } else {
                None
            };
            Ok(Message::Response(Response { id, result, error }))
        },
    }
}

} // verus!
