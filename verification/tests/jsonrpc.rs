use rusty_lsp::error::{codes, Error};
use rusty_lsp::jsonrpc::{classify, Message, RawId, RawMessage, RequestId, Response};

fn value(text: &str) -> serde_json::Value {
    serde_json::from_str(text).unwrap()
}

#[test]
fn classifies_request() {
    let msg = classify(RawMessage {
        id: Some(RawId::Integer(1)),
        method: Some("hover".to_owned()),
        params: Some(value(r#"{"x": 1}"#)),
        result: None,
        error: None,
    })
    .unwrap();
    let Message::Request(req) = msg else {
        panic!("expected request")
    };
    assert_eq!(req.id, RequestId::Number(1));
    assert_eq!(req.method, "hover");
    assert_eq!(req.params, Some(value(r#"{"x": 1}"#)));
}

#[test]
fn classifies_notification_by_absent_id() {
    let msg = classify(RawMessage {
        id: None,
        method: Some("didOpen".to_owned()),
        params: Some(value("{}")),
        result: None,
        error: None,
    })
    .unwrap();
    let Message::Notification(note) = msg else {
        panic!("expected notification")
    };
    assert_eq!(note.method, "didOpen");
}

#[test]
fn classifies_response_by_absent_method() {
    let msg = classify(RawMessage {
        id: Some(RawId::Text("abc".to_owned())),
        method: None,
        params: None,
        result: Some(value("42")),
        error: None,
    })
    .unwrap();
    let Message::Response(resp) = msg else {
        panic!("expected response")
    };
    assert_eq!(resp.id, Some(RequestId::String("abc".to_owned())));
    assert_eq!(resp.result, Some(value("42")));
    assert!(resp.error.is_none());
}

#[test]
fn response_with_null_id_has_none() {
    let msg = classify(RawMessage {
        id: Some(RawId::Null),
        method: None,
        params: None,
        result: None,
        error: Some(rusty_lsp::error::ResponseError {
            code: -32700,
            message: "x".to_owned(),
            data: None,
        }),
    })
    .unwrap();
    let Message::Response(resp) = msg else {
        panic!("expected response")
    };
    assert_eq!(resp.id, None);
    assert_eq!(resp.error.unwrap().code, -32700);
}

#[test]
fn request_with_a_fractional_id_is_rejected() {
    let result = classify(RawMessage {
        id: Some(RawId::OtherNumber),
        method: Some("hover".to_owned()),
        params: None,
        result: None,
        error: None,
    });
    assert!(matches!(result, Err(Error::Protocol(_))));
}

#[test]
fn notification_with_null_id_is_a_notification() {
    let msg = classify(RawMessage {
        id: Some(RawId::Null),
        method: Some("exit".to_owned()),
        params: None,
        result: None,
        error: None,
    })
    .unwrap();
    assert!(matches!(msg, Message::Notification(n) if n.method == "exit"));
}

#[test]
fn success_and_error_responses_carry_exactly_one_payload() {
    let ok = Response::success(RequestId::Number(7), value(r#"{"ok": true}"#));
    assert_eq!(ok.id, Some(RequestId::Number(7)));
    assert!(ok.error.is_none());
    let err = Response::error(
        None,
        Error::invalid_params("bad").into_response_error(),
    );
    assert!(err.result.is_none());
    assert_eq!(err.error.unwrap().code, codes::INVALID_PARAMS);
}

#[test]
fn request_ids_compare_by_kind_and_value() {
    assert_eq!(RequestId::Number(3), RequestId::Number(3));
    assert_ne!(RequestId::Number(3), RequestId::String("3".to_owned()));
    assert_eq!(
        RequestId::from_raw(RawId::Text("a".to_owned())).unwrap(),
        RequestId::String("a".to_owned())
    );
    assert!(RequestId::from_raw(RawId::Other("[1]".to_owned())).is_err());
}

#[test]
fn request_ids_render_as_their_number_or_string() {
    assert_eq!(RequestId::Number(42).to_string(), "42");
    assert_eq!(RequestId::Number(-7).to_string(), "-7");
    assert_eq!(RequestId::String("abc".to_owned()).to_string(), "abc");
}

#[test]
fn invalid_ids_are_refused_with_their_message() {
    let raw = RawMessage {
        id: Some(RawId::Other("true".to_owned())),
        method: Some("m".to_owned()),
        params: None,
        result: None,
        error: None,
    };
    assert!(matches!(classify(raw), Err(Error::Protocol(m)) if m == "invalid request id: true"));
    let raw = RawMessage {
        id: Some(RawId::OtherNumber),
        method: None,
        params: None,
        result: None,
        error: None,
    };
    assert!(matches!(classify(raw), Err(Error::Protocol(m)) if m == "request id is not an integer"));
}
