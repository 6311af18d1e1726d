//! The decisions of the server runtime: which handler a method reaches,
//! what the `initialize`/`shutdown`/`exit` lifecycle allows, and the
//! bookkeeping that answers each request exactly once.
//!
//! The runtime itself (reading frames, running handlers, writing replies)
//! drives these decisions; every choice it makes about a message is made
//! here.

pub mod lifecycle;
pub mod routes;
pub mod table;

pub use lifecycle::{Lifecycle, NotificationAction, RequestAction};
pub use routes::{route_notification, route_request, NotificationRoute, RequestRoute};
pub use table::RequestTable;

use crate::error::{codes, is_response_error, Error, ResponseError};
use crate::strings::{concat2, concat3};
use crate::jsonrpc::{Message, RequestId, Response};
use crate::server::lifecycle::parse_error_response;
use crate::server::table::claim;
use vstd::prelude::*;

verus! {

/// An LSP server bound to a byte transport, with its runtime limits.
///
/// Build it over a reader and a writer with [`Server::new`], adjust the
/// limits, and hand it to the runtime.
#[derive(Debug)]
pub struct Server<R, W> {
    reader: R,
    writer: W,
    max_concurrent_requests: Option<usize>,
    outbound_queue_limit: Option<usize>,
}

impl<R, W> Server<R, W> {
    /// The reader.
    pub closed spec fn reader(&self) -> R {
        self.reader
    }

    /// The writer.
    pub closed spec fn writer(&self) -> W {
        self.writer
    }

    /// How many request handlers may run at once (`None`: no limit).
    pub closed spec fn max_concurrent_requests(&self) -> Option<usize> {
        self.max_concurrent_requests
    }

    /// How many client-originated messages may wait unwritten (`None`: no
    /// limit).
    pub closed spec fn outbound_queue_limit(&self) -> Option<usize> {
        self.outbound_queue_limit
    }

    /// Build a server over an arbitrary reader and writer, with no limits.
    pub fn new(reader: R, writer: W) -> (r: Self)
        ensures
            r.reader() == reader,
            r.writer() == writer,
            r.max_concurrent_requests() is None,
            r.outbound_queue_limit() is None,
    {
        Server { reader, writer, max_concurrent_requests: None, outbound_queue_limit: None }
    }

    /// Cap how many request handlers may execute concurrently. Excess
    /// requests still get their own task at once, so cancellation and the
    /// lifecycle work as usual, but wait their turn before their handler
    /// body runs.
    pub fn with_max_concurrent_requests(self, limit: usize) -> (r: Self)
        ensures
            r.reader() == self.reader(),
            r.writer() == self.writer(),
            r.max_concurrent_requests() == Some(limit),
            r.outbound_queue_limit() == self.outbound_queue_limit(),
    {
        Server { max_concurrent_requests: Some(limit), ..self }
    }

    /// Cap how many client-originated messages may sit unwritten in the
    /// output queue. Responses the protocol owes the client are never
    /// dropped and do not observe the cap.
    pub fn with_outbound_queue_limit(self, limit: usize) -> (r: Self)
        ensures
            r.reader() == self.reader(),
            r.writer() == self.writer(),
            r.max_concurrent_requests() == self.max_concurrent_requests(),
            r.outbound_queue_limit() == Some(limit),
    {
        Server { outbound_queue_limit: Some(limit), ..self }
    }

    /// Take the server apart: reader, writer, handler limit, queue limit.
    pub fn into_parts(self) -> (r: (R, W, Option<usize>, Option<usize>))
        ensures
            r == (self.reader(), self.writer(), self.max_concurrent_requests(),
                self.outbound_queue_limit()),
    {
        (self.reader, self.writer, self.max_concurrent_requests, self.outbound_queue_limit)
    }
}

/// What the message loop does after reading one frame.
#[derive(Debug)]
pub enum ReadStep {
    /// Stop serving, with this outcome.
    Stop(Result<(), Error>),
    /// Send this response and read on.
    Reply(Response),
    /// Handle this message.
    Handle(Message),
}

/// The loop's step for the outcome of reading one message: `Ok(None)` at a
/// clean end of input between frames. A body that was framed intact but is
/// no message fails with a (de)serialization error: it is answered with a
/// `ParseError` carrying that error's text, and the connection goes on. Any
/// other failure (bad framing, input ending mid-frame, I/O) desynchronises
/// the stream and stops the loop with that error; a clean end stops it
/// successfully.
pub fn read_step(outcome: Result<Option<Message>, Error>) -> (r: ReadStep)
    ensures
        match outcome {
            Ok(Some(m)) => r == ReadStep::Handle(m),
            Ok(None) => r == ReadStep::Stop(Ok(())),
            Err(Error::Serde(_)) => r matches ReadStep::Reply(resp) && resp.id is None
                && resp.result is None && (resp.error matches Some(x) && x.code
                == codes::PARSE_ERROR && x.data is None),
            Err(e) => r == ReadStep::Stop(Err(e)),
        },
{
    match outcome {
        Ok(Some(m)) => ReadStep::Handle(m),
        Ok(None) => ReadStep::Stop(Ok(())),
        Err(Error::Serde(e)) => {
            let error = Error::Serde(e);
            ReadStep::Reply(parse_error_response(error.detail()))
        },
        Err(e) => ReadStep::Stop(Err(e)),
    }
}

/// Whether a request with `id` may start: a client must not reuse the id of
/// a request still in flight, and such a request is refused rather than
/// allowed to take over the running request's entry.
pub fn admit_request<T>(in_flight: &RequestTable<T>, id: &RequestId) -> (r: Result<(), Error>)
    ensures
        !in_flight@.contains_key(id.key()) ==> r is Ok,
        in_flight@.contains_key(id.key()) ==> (r matches Err(e) && is_response_error(
            e,
            codes::INVALID_REQUEST,
            "request id is already in flight"@,
        )),
{
    if in_flight.contains(id) {
        Err(Error::invalid_request("request id is already in flight"))
    } else {
        Ok(())
    }
}

/// The message of the answer to a request for a method nothing handles.
pub open spec fn unknown_method_message(method: Seq<char>) -> Seq<char> {
    "method not found: "@ + method
}

/// The answer to a request for `method` when no handler takes it (its
/// route is [`RequestRoute::Custom`] and the backend adds none):
/// `METHOD_NOT_FOUND`, naming the method.
pub fn unknown_method(method: &str) -> (r: Error)
    ensures
        is_response_error(r, codes::METHOD_NOT_FOUND, unknown_method_message(method@)),
{
    let message = concat2("method not found: ", method);
    Error::method_not_found(message.as_str())
}

/// A request for a method nothing handles is answered, on the wire, with
/// code `METHOD_NOT_FOUND` (-32601), the message naming the method, and no
/// data.
pub proof fn lemma_unknown_method_answer(method: Seq<char>, e: Error, sent: ResponseError)
    requires
        is_response_error(e, codes::METHOD_NOT_FOUND, unknown_method_message(method)),
        e.answered_as(sent),
    ensures
        sent.code == -32601,
        sent.message@ == unknown_method_message(method),
        sent.data is None,
{
}

/// The response a request handler's outcome becomes.
pub fn response_for(id: RequestId, outcome: Result<serde_json::Value, Error>) -> (r: Response)
    ensures
        r.id == Some(id),
        match outcome {
            Ok(value) => r.result == Some(value) && r.error is None,
            Err(e) => r.result is None && (r.error matches Some(x) && e.answered_as(x)),
        },
{
    match outcome {
        Ok(value) => Response::success(id, value),
        Err(err) => Response::error(Some(id), err.into_response_error()),
    }
}

/// A request handler has finished: claim the right to answer. If the
/// request is still in flight its entry is removed and the response to send
/// is returned; if a cancellation got there first, there is nothing to
/// send.
pub fn finish_request<T>(
    in_flight: &mut RequestTable<T>,
    id: RequestId,
    outcome: Result<serde_json::Value, Error>,
) -> (r: Option<Response>)
    ensures
        final(in_flight)@ == claim(old(in_flight)@, id.key()).1,
        r is Some <==> old(in_flight)@.contains_key(id.key()),
        r matches Some(resp) ==> resp.id == Some(id) && match outcome {
            Ok(value) => resp.result == Some(value) && resp.error is None,
            Err(e) => resp.result is None && (resp.error matches Some(x) && e.answered_as(x)),
        },
{
    match in_flight.remove(&id) {
        Some(_) => Some(response_for(id, outcome)),
        None => None,
    }
}

/// `$/cancelRequest` for `id`: if the request is still in flight, remove
/// its entry and return it, with the `RequestCancelled` response to send;
/// otherwise (already answered, or never seen) do nothing.
pub fn cancel_request<T>(in_flight: &mut RequestTable<T>, id: RequestId) -> (r: Option<(T, Response)>)
    ensures
        final(in_flight)@ == claim(old(in_flight)@, id.key()).1,
        r is Some <==> old(in_flight)@.contains_key(id.key()),
        r matches Some((entry, resp)) ==> entry == old(in_flight)@[id.key()] && resp.id == Some(id)
            && resp.result is None && (resp.error matches Some(e) && e.code
            == codes::REQUEST_CANCELLED && e.message@ == "request cancelled"@ && e.data is None),
{
    match in_flight.remove(&id) {
        Some(entry) => {
            let response = Response::error(
                Some(id),
                Error::request_cancelled().into_response_error(),
            );
            Some((entry, response))
        },
        None => None,
    }
}

/// A response from the client to a request this server sent: its pending
/// entry, if the request is still waiting (an unknown or `null` id, or a
/// request already given up on, has none).
pub fn resolve_response<T>(pending: &mut RequestTable<T>, response: &Response) -> (r: Option<T>)
    ensures
        match response.id {
            Some(id) => (r, final(pending)@) == claim(old(pending)@, id.key()),
            None => r is None && final(pending)@ == old(pending)@,
        },
{
    match &response.id {
        Some(id) => pending.remove(id),
        None => None,
    }
}

/// The message of the error a server-to-client request for `method` ends
/// with when no response came within `waited`.
pub open spec fn timed_out_message(method: Seq<char>, waited: Seq<char>) -> Seq<char> {
    "no response to `"@ + method + "` within "@ + waited
}

/// A server-to-client request for `method` got no response within
/// `waited` (the wait as written for people, such as `5s`): its pending
/// entry is dropped, so a late response finds nothing to resolve, and the
/// caller gets `REQUEST_FAILED` naming the method and the wait.
pub fn request_timed_out<T>(
    pending: &mut RequestTable<T>,
    id: &RequestId,
    method: &str,
    waited: &str,
) -> (r: Error)
    ensures
        final(pending)@ == claim(old(pending)@, id.key()).1,
        is_response_error(r, codes::REQUEST_FAILED, timed_out_message(method@, waited@)),
{
    let _ = pending.remove(id);
    let head = concat3("no response to `", method, "` within ");
    let message = concat2(head.as_str(), waited);
    Error::request_failed(message.as_str())
}

/// What a client's response to a server-to-client request carries: its
/// error as [`Error::Response`], or else its result (`None` standing for
/// JSON `null`).
pub fn response_payload(response: Response) -> (r: Result<Option<serde_json::Value>, Error>)
    ensures
        match response.error {
            Some(e) => r matches Err(Error::Response(x)) && x == e,
            None => r == Ok::<Option<serde_json::Value>, Error>(response.result),
        },
{
    match response.error {
        Some(e) => Err(Error::Response(e)),
        None => Ok(response.result),
    }
}

/// Whether one more client-originated message may be queued, with `depth`
/// messages waiting and an optional `limit` (without one, only a queue
/// as deep as `usize::MAX` is full). Responses owed to the client never
/// consult this.
pub fn check_outbound_capacity(depth: usize, limit: Option<usize>) -> (r: Result<(), Error>)
    ensures
        r is Ok <==> depth < (match limit {
            Some(l) => l,
            None => usize::MAX,
        }),
        r matches Err(e) ==> is_response_error(
            e,
            codes::INTERNAL_ERROR,
            "outbound queue limit reached; the client is not draining output"@,
        ),
{
    let cap = match limit {
        Some(l) => l,
        None => usize::MAX,
    };
    if depth >= cap {
        Err(Error::internal("outbound queue limit reached; the client is not draining output"))
    } else {
        Ok(())
    }
}

} // verus!
