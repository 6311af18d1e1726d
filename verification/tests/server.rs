use rusty_lsp::error::{codes, Error};
use rusty_lsp::jsonrpc::{Message, Notification, RequestId, Response};
use rusty_lsp::server::lifecycle::parse_error_response;
use rusty_lsp::server::{
    admit_request, cancel_request, check_outbound_capacity, finish_request, resolve_response,
    read_step, request_timed_out, response_payload, unknown_method, route_notification, route_request, Lifecycle,
    NotificationAction, NotificationRoute, ReadStep, RequestAction, RequestRoute, RequestTable,
    Server,
};

fn code_of(action: RequestAction) -> i64 {
    match action {
        RequestAction::Reject(Error::Response(e)) => e.code,
        other => panic!("expected a rejection, got {other:?}"),
    }
}

#[test]
fn requests_route_to_their_typed_handlers() {
    assert_eq!(route_request("textDocument/hover"), RequestRoute::Hover);
    assert_eq!(route_request("textDocument/declaration"), RequestRoute::Declaration);
    assert_eq!(route_request("textDocument/typeDefinition"), RequestRoute::TypeDefinition);
    assert_eq!(route_request("textDocument/implementation"), RequestRoute::Implementation);
    assert_eq!(
        route_request("textDocument/documentHighlight"),
        RequestRoute::DocumentHighlight
    );
    assert_eq!(
        route_request("textDocument/semanticTokens/full/delta"),
        RequestRoute::SemanticTokensFullDelta
    );
    assert_eq!(route_request("typeHierarchy/subtypes"), RequestRoute::Subtypes);
    assert_eq!(route_request("test/custom"), RequestRoute::Custom);
    assert_eq!(route_request("textdocument/hover"), RequestRoute::Custom);
}

#[test]
fn notifications_route_to_their_typed_handlers() {
    assert_eq!(route_notification("textDocument/didOpen"), NotificationRoute::DidOpen);
    assert_eq!(route_notification("$/setTrace"), NotificationRoute::SetTrace);
    assert_eq!(
        route_notification("notebookDocument/didClose"),
        NotificationRoute::DidCloseNotebook
    );
    assert_eq!(route_notification("test/slow_note"), NotificationRoute::Custom);
}

#[test]
fn requests_before_initialize_are_rejected() {
    let mut lifecycle = Lifecycle::new();
    assert_eq!(code_of(lifecycle.on_request("textDocument/hover")), codes::SERVER_NOT_INITIALIZED);
    assert_eq!(code_of(lifecycle.on_request("shutdown")), codes::SERVER_NOT_INITIALIZED);
    assert!(!lifecycle.is_shutdown_requested());
    assert!(matches!(lifecycle.on_notification("textDocument/didOpen"), NotificationAction::Ignore));
    assert!(matches!(lifecycle.on_notification("initialized"), NotificationAction::Ignore));
}

#[test]
fn second_initialize_is_rejected() {
    let mut lifecycle = Lifecycle::new();
    assert!(matches!(lifecycle.on_request("initialize"), RequestAction::Initialize));
    lifecycle.initialize_succeeded();
    assert!(lifecycle.is_initialized());
    match lifecycle.on_request("initialize") {
        RequestAction::Reject(Error::Response(e)) => {
            assert_eq!(e.code, codes::INVALID_REQUEST);
            assert_eq!(e.message, "server already initialized");
        }
        other => panic!("unexpected {other:?}"),
    }
}

#[test]
fn failed_initialize_leaves_the_server_uninitialized() {
    let mut lifecycle = Lifecycle::new();
    assert!(matches!(lifecycle.on_request("initialize"), RequestAction::Initialize));
    // The backend failed: `initialize_succeeded` is not called.
    assert!(matches!(lifecycle.on_request("initialize"), RequestAction::Initialize));
}

#[test]
fn shutdown_rejects_further_requests_then_exit_stops_server() {
    let mut lifecycle = Lifecycle::new();
    lifecycle.on_request("initialize");
    lifecycle.initialize_succeeded();
    assert!(matches!(
        lifecycle.on_request("textDocument/hover"),
        RequestAction::Dispatch(RequestRoute::Hover)
    ));
    assert!(matches!(lifecycle.on_request("shutdown"), RequestAction::Shutdown));
    assert!(lifecycle.is_shutdown_requested());
    match lifecycle.on_request("textDocument/hover") {
        RequestAction::Reject(Error::Response(e)) => {
            assert_eq!(e.code, codes::INVALID_REQUEST);
            assert_eq!(e.message, "server is shutting down");
        }
        other => panic!("unexpected {other:?}"),
    }
    assert!(matches!(lifecycle.on_notification("exit"), NotificationAction::Exit(Ok(()))));
}

#[test]
fn exit_without_shutdown_is_an_error() {
    let mut lifecycle = Lifecycle::new();
    lifecycle.on_request("initialize");
    lifecycle.initialize_succeeded();
    assert!(matches!(
        lifecycle.on_notification("exit"),
        NotificationAction::Exit(Err(Error::Protocol(_)))
    ));
    // Before initialize too.
    assert!(matches!(
        Lifecycle::new().on_notification("exit"),
        NotificationAction::Exit(Err(_))
    ));
}

#[test]
fn initialized_and_cancel_notifications_are_recognised() {
    let mut lifecycle = Lifecycle::new();
    assert!(matches!(lifecycle.on_notification("$/cancelRequest"), NotificationAction::CancelRequest));
    lifecycle.on_request("initialize");
    lifecycle.initialize_succeeded();
    assert!(matches!(lifecycle.on_notification("initialized"), NotificationAction::Initialized));
    assert!(matches!(
        lifecycle.on_notification("workspace/didChangeConfiguration"),
        NotificationAction::Dispatch(NotificationRoute::DidChangeConfiguration)
    ));
    assert!(matches!(
        lifecycle.on_notification("custom/thing"),
        NotificationAction::Dispatch(NotificationRoute::Custom)
    ));
}

#[test]
fn request_table_answers_each_request_exactly_once() {
    let mut table: RequestTable<&'static str> = RequestTable::new();
    assert!(table.is_empty());
    assert!(table.insert_new(RequestId::Number(1), "one"));
    assert!(table.insert_new(RequestId::String("two".to_owned()), "two"));
    assert!(!table.insert_new(RequestId::Number(1), "again"));
    assert!(table.contains(&RequestId::Number(1)));
    // The handler finishing claims the entry; a cancel after it finds nothing.
    let first = finish_request(&mut table, RequestId::Number(1), Ok(serde_json::Value::Null));
    assert!(first.is_some());
    assert!(cancel_request(&mut table, RequestId::Number(1)).is_none());
    // A cancel first, then the handler finishing: only the cancel answers.
    let cancelled = cancel_request(&mut table, RequestId::String("two".to_owned())).unwrap();
    assert_eq!(cancelled.0, "two");
    let error = cancelled.1.error.unwrap();
    assert_eq!(error.code, codes::REQUEST_CANCELLED);
    assert!(finish_request(
        &mut table,
        RequestId::String("two".to_owned()),
        Ok(serde_json::Value::Null)
    )
    .is_none());
    assert!(table.is_empty());
}

#[test]
fn duplicate_request_id_is_rejected_without_disturbing_the_original() {
    let mut table: RequestTable<u32> = RequestTable::new();
    table.insert_new(RequestId::Number(5), 50);
    match admit_request(&table, &RequestId::Number(5)) {
        Err(Error::Response(e)) => {
            assert_eq!(e.code, codes::INVALID_REQUEST);
            assert_eq!(e.message, "request id is already in flight");
        }
        other => panic!("unexpected {other:?}"),
    }
    assert!(admit_request(&table, &RequestId::Number(6)).is_ok());
    assert_eq!(table.remove(&RequestId::Number(5)), Some(50));
}

#[test]
fn handler_errors_become_error_responses() {
    let mut table: RequestTable<()> = RequestTable::new();
    table.insert_new(RequestId::Number(9), ());
    let response = finish_request(
        &mut table,
        RequestId::Number(9),
        Err(Error::method_not_found("nope")),
    )
    .unwrap();
    assert_eq!(response.id, Some(RequestId::Number(9)));
    assert_eq!(response.error.unwrap().code, codes::METHOD_NOT_FOUND);
}

#[test]
fn drain_hands_back_every_entry() {
    let mut table: RequestTable<u8> = RequestTable::new();
    table.insert_new(RequestId::Number(1), 10);
    table.insert_new(RequestId::Number(2), 20);
    let mut drained: Vec<u8> = table.drain().into_iter().map(|(_, v)| v).collect();
    drained.sort();
    assert_eq!(drained, vec![10, 20]);
    assert!(table.is_empty());
}

#[test]
fn client_responses_resolve_their_pending_request() {
    let mut pending: RequestTable<&'static str> = RequestTable::new();
    pending.insert_new(RequestId::Number(1), "waiter");
    let unknown = Response::success(RequestId::Number(2), serde_json::Value::Null);
    assert_eq!(resolve_response(&mut pending, &unknown), None);
    let reply = Response::success(RequestId::Number(1), serde_json::Value::Bool(true));
    assert_eq!(resolve_response(&mut pending, &reply), Some("waiter"));
    assert_eq!(resolve_response(&mut pending, &reply), None);
    assert_eq!(
        response_payload(reply).unwrap(),
        Some(serde_json::Value::Bool(true))
    );
    let failed = Response::error(Some(RequestId::Number(3)), Error::request_failed("x").into_response_error());
    assert!(matches!(response_payload(failed), Err(Error::Response(e)) if e.code == codes::REQUEST_FAILED));
}

#[test]
fn outbound_queue_limit_rejects_client_traffic_at_the_cap() {
    assert!(check_outbound_capacity(0, Some(1)).is_ok());
    match check_outbound_capacity(1, Some(1)) {
        Err(Error::Response(e)) => assert_eq!(e.code, codes::INTERNAL_ERROR),
        other => panic!("unexpected {other:?}"),
    }
    assert!(check_outbound_capacity(1_000_000, None).is_ok());
}

#[test]
fn malformed_body_gets_a_parse_error_without_id() {
    let response = parse_error_response("expected value".to_owned());
    assert_eq!(response.id, None);
    let error = response.error.unwrap();
    assert_eq!(error.code, codes::PARSE_ERROR);
    assert_eq!(error.message, "expected value");
}

#[test]
fn server_builder_records_its_limits() {
    let server = Server::new(1u8, 2u8)
        .with_max_concurrent_requests(4)
        .with_outbound_queue_limit(16);
    assert_eq!(server.into_parts(), (1, 2, Some(4), Some(16)));
    assert_eq!(Server::new((), ()).into_parts(), ((), (), None, None));
}

#[test]
fn read_outcomes_decide_the_loop_step() {
    assert!(matches!(read_step(Ok(None)), ReadStep::Stop(Ok(()))));
    assert!(matches!(
        read_step(Err(Error::protocol("bad header"))),
        ReadStep::Stop(Err(Error::Protocol(m))) if m == "bad header"
    ));
    let note = Message::Notification(Notification { method: "x".to_owned(), params: None });
    assert!(matches!(read_step(Ok(Some(note))), ReadStep::Handle(Message::Notification(n)) if n.method == "x"));
    let serde = serde_json::from_str::<serde_json::Value>("{").unwrap_err();
    let text = serde.to_string();
    match read_step(Err(Error::Serde(serde))) {
        ReadStep::Reply(response) => {
            assert!(response.id.is_none() && response.result.is_none());
            let error = response.error.expect("an error");
            assert_eq!(error.code, codes::PARSE_ERROR);
            assert_eq!(error.message, text);
            assert!(error.data.is_none());
        }
        other => panic!("expected a reply, got {other:?}"),
    }
}

#[test]
fn unknown_methods_are_answered_method_not_found() {
    let method = "textDocument/definitelyNotAMethod";
    assert_eq!(route_request(method), RequestRoute::Custom);
    let answer = unknown_method(method).into_response_error();
    assert_eq!(answer.code, codes::METHOD_NOT_FOUND);
    assert_eq!(answer.message, "method not found: textDocument/definitelyNotAMethod");
    assert!(answer.data.is_none());
}

#[test]
fn a_timed_out_request_fails_and_a_late_reply_finds_nothing() {
    let mut pending: RequestTable<&'static str> = RequestTable::new();
    pending.insert_new(RequestId::Number(7), "waiter");
    pending.insert_new(RequestId::Number(8), "other");
    let err = request_timed_out(&mut pending, &RequestId::Number(7), "workspace/configuration", "5s");
    match err {
        Error::Response(e) => {
            assert_eq!(e.code, codes::REQUEST_FAILED);
            assert_eq!(e.message, "no response to `workspace/configuration` within 5s");
            assert_eq!(e.data, None);
        }
        other => panic!("unexpected error {other:?}"),
    }
    let late = Response::success(RequestId::Number(7), serde_json::Value::Null);
    assert_eq!(resolve_response(&mut pending, &late), None);
    let reply = Response::success(RequestId::Number(8), serde_json::Value::Null);
    assert_eq!(resolve_response(&mut pending, &reply), Some("other"));
    assert!(pending.is_empty());
}
