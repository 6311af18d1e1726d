use rusty_lsp::error::{codes, Error};

#[test]
fn helper_constructors_map_to_their_codes() {
    for (error, code) in [
        (Error::content_modified(), codes::CONTENT_MODIFIED),
        (Error::server_cancelled(), codes::SERVER_CANCELLED),
        (Error::request_failed("x"), codes::REQUEST_FAILED),
        (Error::request_cancelled(), codes::REQUEST_CANCELLED),
    ] {
        assert_eq!(error.into_response_error().code, code);
    }
}

#[test]
fn protocol_errors_become_internal_errors_with_their_message() {
    let response = Error::protocol("bad framing").into_response_error();
    assert_eq!(response.code, codes::INTERNAL_ERROR);
    assert_eq!(response.message, "bad framing");
    assert!(response.data.is_none());
}

#[test]
fn serde_errors_become_internal_errors() {
    let err = serde_json::from_str::<serde_json::Value>("{").unwrap_err();
    let response = Error::Serde(err).into_response_error();
    assert_eq!(response.code, codes::INTERNAL_ERROR);
    assert!(response.data.is_none());
}

#[test]
fn with_data_attaches_data_to_response_errors_only() {
    let data: serde_json::Value = serde_json::from_str("[1, 2]").unwrap();
    let response = Error::invalid_request("x").with_data(data.clone()).into_response_error();
    assert_eq!(response.data, Some(data.clone()));
    assert!(matches!(Error::protocol("p").with_data(data), Error::Protocol(m) if m == "p"));
}

#[test]
fn server_not_initialized_has_the_spec_code() {
    let response = Error::server_not_initialized().into_response_error();
    assert_eq!(response.code, -32002);
    assert_eq!(response.message, "server not initialized");
}

#[test]
fn errors_describe_themselves() {
    assert_eq!(Error::protocol("bad frame").to_string(), "protocol error: bad frame");
    assert_eq!(
        Error::invalid_params("missing uri").to_string(),
        "response error -32602: missing uri"
    );
    assert_eq!(Error::response(7, "odd").to_string(), "response error 7: odd");
    let io = Error::Io(std::io::Error::new(std::io::ErrorKind::Other, "pipe closed"));
    assert_eq!(io.to_string(), "io error: pipe closed");
    let serde = Error::Serde(serde_json::from_str::<u8>("x").unwrap_err());
    assert!(serde.to_string().starts_with("serialization error: "));
}
