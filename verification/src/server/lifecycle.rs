//! The `initialize` / `shutdown` / `exit` lifecycle of a connection.
//!
//! `initialize` must come first: any other request before it is answered
//! with `ServerNotInitialized`, and notifications before it are dropped
//! (`exit` excepted). A second `initialize` is rejected. After `shutdown`,
//! feature requests are refused. `exit` ends the connection; it is a clean
//! end only after `shutdown`.

use crate::error::{codes, is_response_error, Error, ResponseError};
use crate::jsonrpc::Response;
use crate::server::routes::{
    notification_route, request_route, route_notification, route_request, NotificationRoute,
    RequestRoute,
};
use crate::strings::str_eq;
use vstd::prelude::*;

verus! {

/// Where a connection stands in its lifecycle.
pub ghost struct LifecycleState {
    /// `initialize` has succeeded.
    pub initialized: bool,
    /// `shutdown` has been received after a successful `initialize`.
    pub shutdown_requested: bool,
}

/// What the lifecycle decides for a request.
pub ghost enum RequestDecision {
    /// Refuse: the server is not initialized.
    NotInitialized,
    /// Refuse: `initialize` was already answered successfully.
    AlreadyInitialized,
    /// Refuse: `shutdown` was received.
    ShuttingDown,
    /// Run the backend's `initialize`.
    Initialize,
    /// Run the backend's `shutdown`.
    Shutdown,
    /// Run this feature handler.
    Dispatch(RequestRoute),
}

/// The lifecycle's decision for a request with method `m` in state `s`.
pub open spec fn request_decision(s: LifecycleState, m: Seq<char>) -> RequestDecision {
    if m == "initialize"@ {
        if s.initialized {
            RequestDecision::AlreadyInitialized
        } else {
            RequestDecision::Initialize
        }
    } else if m == "shutdown"@ {
        if s.initialized {
            RequestDecision::Shutdown
        } else {
            RequestDecision::NotInitialized
        }
    } else if !s.initialized {
        RequestDecision::NotInitialized
    } else if s.shutdown_requested {
        RequestDecision::ShuttingDown
    } else {
        RequestDecision::Dispatch(request_route(m))
    }
}

/// The state after a request with method `m` is received in state `s`.
pub open spec fn after_request(s: LifecycleState, m: Seq<char>) -> LifecycleState {
    if m == "shutdown"@ && s.initialized {
        LifecycleState { shutdown_requested: true, ..s }
    } else {
        s
    }
}

/// The state after each of the request methods `ms` in turn, from `s`.
pub open spec fn after_requests(s: LifecycleState, ms: Seq<Seq<char>>) -> LifecycleState
    decreases ms.len(),
{
    if ms.len() == 0 {
        s
    } else {
        after_request(after_requests(s, ms.drop_last()), ms.last())
    }
}

/// What the lifecycle decides for a notification.
pub ghost enum NotificationDecision {
    /// End the connection cleanly.
    ExitClean,
    /// End the connection with an error: `exit` came without `shutdown`.
    ExitWithoutShutdown,
    /// Cancel the request the params name.
    CancelRequest,
    /// Tell the backend the client is ready.
    Initialized,
    /// Run this notification handler.
    Dispatch(NotificationRoute),
    /// Drop the notification.
    Ignore,
}

/// The lifecycle's decision for a notification with method `m` in state
/// `s`.
pub open spec fn notification_decision(s: LifecycleState, m: Seq<char>) -> NotificationDecision {
    if m == "exit"@ {
        if s.shutdown_requested {
            NotificationDecision::ExitClean
        } else {
            NotificationDecision::ExitWithoutShutdown
        }
    } else if m == "$/cancelRequest"@ {
        NotificationDecision::CancelRequest
    } else if m == "initialized"@ {
        if s.initialized {
            NotificationDecision::Initialized
        } else {
            NotificationDecision::Ignore
        }
    } else if s.initialized {
        NotificationDecision::Dispatch(notification_route(m))
    } else {
        NotificationDecision::Ignore
    }
}

/// What the message loop does with a request.
#[derive(Debug)]
pub enum RequestAction {
    /// Answer at once with this error.
    Reject(Error),
    /// Run the backend's `initialize`, then report its outcome with
    /// [`Lifecycle::initialize_succeeded`] when it succeeds.
    Initialize,
    /// Run the backend's `shutdown`.
    Shutdown,
    /// Run this feature handler.
    Dispatch(RequestRoute),
}

/// What the message loop does with a notification.
#[derive(Debug)]
pub enum NotificationAction {
    /// Stop the loop; the connection ends with this outcome.
    Exit(Result<(), Error>),
    /// Cancel the request named by the params.
    CancelRequest,
    /// Tell the backend the client is ready.
    Initialized,
    /// Run this notification handler.
    Dispatch(NotificationRoute),
    /// Drop the notification.
    Ignore,
}

/// The message of the error a connection ends with when `exit` arrives
/// without a prior `shutdown`.
pub open spec fn exit_without_shutdown_message() -> Seq<char> {
    "exit received without a prior shutdown request"@
}

/// Whether `a` carries out decision `d`.
pub open spec fn request_action_is(a: RequestAction, d: RequestDecision) -> bool {
    match d {
        RequestDecision::NotInitialized => a matches RequestAction::Reject(e) && is_response_error(
            e,
            codes::SERVER_NOT_INITIALIZED,
            "server not initialized"@,
        ),
        RequestDecision::AlreadyInitialized => a matches RequestAction::Reject(e)
            && is_response_error(e, codes::INVALID_REQUEST, "server already initialized"@),
        RequestDecision::ShuttingDown => a matches RequestAction::Reject(e) && is_response_error(
            e,
            codes::INVALID_REQUEST,
            "server is shutting down"@,
        ),
        RequestDecision::Initialize => a is Initialize,
        RequestDecision::Shutdown => a is Shutdown,
        RequestDecision::Dispatch(route) => a matches RequestAction::Dispatch(r) && r == route,
    }
}

/// Whether `a` carries out decision `d`.
pub open spec fn notification_action_is(a: NotificationAction, d: NotificationDecision) -> bool {
    match d {
        NotificationDecision::ExitClean => a matches NotificationAction::Exit(Ok(())),
        NotificationDecision::ExitWithoutShutdown => a matches NotificationAction::Exit(
            Err(Error::Protocol(m)),
        ) && m@ == exit_without_shutdown_message(),
        NotificationDecision::CancelRequest => a is CancelRequest,
        NotificationDecision::Initialized => a is Initialized,
        NotificationDecision::Dispatch(route) => a matches NotificationAction::Dispatch(r) && r
            == route,
        NotificationDecision::Ignore => a is Ignore,
    }
}

/// The lifecycle state of one connection.
#[derive(Debug, Clone)]
pub struct Lifecycle {
    initialized: bool,
    shutdown_requested: bool,
}

impl Lifecycle {
    /// The state, as a value.
    pub closed spec fn view(&self) -> LifecycleState {
        LifecycleState {
            initialized: self.initialized,
            shutdown_requested: self.shutdown_requested,
        }
    }

    /// A fresh connection: not initialized, no shutdown.
    pub fn new() -> (r: Self)
        ensures
            r@ == (LifecycleState { initialized: false, shutdown_requested: false }),
    {
        Lifecycle { initialized: false, shutdown_requested: false }
    }

    /// Whether `initialize` has succeeded.
    pub fn is_initialized(&self) -> (r: bool)
        ensures
            r == self@.initialized,
    {
        self.initialized
    }

    /// Whether `shutdown` has been received.
    pub fn is_shutdown_requested(&self) -> (r: bool)
        ensures
            r == self@.shutdown_requested,
    {
        self.shutdown_requested
    }

    /// Record that the backend's `initialize` succeeded.
    pub fn initialize_succeeded(&mut self)
        ensures
            final(self)@ == (LifecycleState { initialized: true, ..old(self)@ }),
    {
        self.initialized = true;
    }

    /// Decide what to do with a request with method `method`.
    pub fn on_request(&mut self, method: &str) -> (r: RequestAction)
        ensures
            request_action_is(r, request_decision(old(self)@, method@)),
            final(self)@ == after_request(old(self)@, method@),
    {
        if str_eq(method, "initialize") {
            proof {
                lemma_initialize_is_not_shutdown();
            }
            if self.initialized {
                RequestAction::Reject(Error::invalid_request("server already initialized"))
            } else {
                RequestAction::Initialize
            }
        } else if str_eq(method, "shutdown") {
            if self.initialized {
                self.shutdown_requested = true;
                RequestAction::Shutdown
            } else {
                RequestAction::Reject(Error::server_not_initialized())
            }
        } else if !self.initialized {
            RequestAction::Reject(Error::server_not_initialized())
        } else if self.shutdown_requested {
            RequestAction::Reject(Error::invalid_request("server is shutting down"))
        } else {
            RequestAction::Dispatch(route_request(method))
        }
    }

    /// Decide what to do with a notification with method `method`.
    pub fn on_notification(&self, method: &str) -> (r: NotificationAction)
        ensures
            notification_action_is(r, notification_decision(self@, method@)),
    {
        if str_eq(method, "exit") {
            if self.shutdown_requested {
                NotificationAction::Exit(Ok(()))
            } else {
                NotificationAction::Exit(
                    Err(Error::protocol("exit received without a prior shutdown request")),
                )
            }
        } else if str_eq(method, "$/cancelRequest") {
            NotificationAction::CancelRequest
        } else if str_eq(method, "initialized") {
            if self.initialized {
                NotificationAction::Initialized
            } else {
                NotificationAction::Ignore
            }
        } else if self.initialized {
            NotificationAction::Dispatch(route_notification(method))
        } else {
            NotificationAction::Ignore
        }
    }
}

proof fn lemma_initialize_is_not_shutdown()
    ensures
        "initialize"@ != "shutdown"@,
{
    reveal_strlit("initialize");
    reveal_strlit("shutdown");
    assert("initialize"@.len() != "shutdown"@.len());
}

/// Until `initialize` succeeds, no feature request is run and no
/// notification reaches a handler.
pub proof fn lemma_nothing_runs_before_initialize(s: LifecycleState, m: Seq<char>)
    requires
        !s.initialized,
    ensures
        !(request_decision(s, m) is Dispatch),
        !(request_decision(s, m) is Shutdown),
        !(notification_decision(s, m) is Dispatch),
        !(notification_decision(s, m) is Initialized),
        after_request(s, m) == s,
{
}

/// Once `shutdown` has been received, it stays received and no feature
/// request is run again, whatever requests follow.
pub proof fn lemma_shutdown_is_final(s: LifecycleState, ms: Seq<Seq<char>>)
    requires
        s.shutdown_requested,
    ensures
        after_requests(s, ms).shutdown_requested,
        after_requests(s, ms).initialized == s.initialized,
        forall|i: int|
            0 <= i < ms.len() ==> !(request_decision(after_requests(s, ms.take(i)), #[trigger] ms[i])
                is Dispatch),
    decreases ms.len(),
{
    if ms.len() > 0 {
        lemma_shutdown_is_final(s, ms.drop_last());
        assert forall|i: int| 0 <= i < ms.len() implies !(request_decision(
            after_requests(s, ms.take(i)),
            #[trigger] ms[i],
        ) is Dispatch) by {
            if i < ms.len() - 1 {
                assert(ms.drop_last().take(i) =~= ms.take(i));
                assert(ms.drop_last()[i] == ms[i]);
            } else {
                assert(ms.take(i) =~= ms.drop_last());
            }
        }
    }
}

/// `exit` ends the connection cleanly exactly when `shutdown` came first;
/// `initialize` is answered at most once successfully.
pub proof fn lemma_exit_and_initialize(s: LifecycleState)
    ensures
        notification_decision(s, "exit"@) is ExitClean <==> s.shutdown_requested,
        notification_decision(s, "exit"@) is ExitWithoutShutdown <==> !s.shutdown_requested,
        s.initialized ==> request_decision(s, "initialize"@) is AlreadyInitialized,
        !s.initialized ==> request_decision(s, "initialize"@) is Initialize,
{
}

/// The response a message whose frame was read intact but whose body could
/// not be decoded gets: a `ParseError` with no id. The connection goes on.
pub fn parse_error_response(message: String) -> (r: Response)
    ensures
        r.id is None,
        r.result is None,
        r.error matches Some(e) && e.code == codes::PARSE_ERROR && e.message@ == message@
            && e.data is None,
{
    Response::error(None, ResponseError { code: codes::PARSE_ERROR, message, data: None })
}

} // verus!
