use rusty_lsp::error::Error;
use rusty_lsp::transport::{
    append_frame, decimal_string, signed_decimal_string, HeaderReader, HeaderStep,
    MAX_CONTENT_LENGTH,
};

fn read_block(lines: &[&str]) -> Vec<HeaderStep> {
    let mut reader = HeaderReader::new();
    lines.iter().map(|line| reader.on_line(line)).collect()
}

#[test]
fn frame_header_reads_back_its_length() {
    let mut buf = Vec::new();
    append_frame(&mut buf, "{\"jsonrpc\":\"2.0\"}".as_bytes());
    let text = String::from_utf8(buf).unwrap();
    assert_eq!(text, "Content-Length: 17\r\n\r\n{\"jsonrpc\":\"2.0\"}");
    let steps = read_block(&["Content-Length: 17\r\n", "\r\n"]);
    assert!(matches!(steps[0], HeaderStep::Continue));
    assert!(matches!(steps[1], HeaderStep::Complete(17)));
}

#[test]
fn frames_are_appended_back_to_back() {
    let mut buf = b"x".to_vec();
    append_frame(&mut buf, b"ab");
    append_frame(&mut buf, b"");
    assert_eq!(buf, b"xContent-Length: 2\r\n\r\nabContent-Length: 0\r\n\r\n".to_vec());
}

#[test]
fn extra_headers_and_header_case_are_tolerated() {
    let steps = read_block(&[
        "content-type: application/vscode-jsonrpc; charset=utf-8\r\n",
        "CONTENT-LENGTH:   42  \r\n",
        "\r\n",
    ]);
    assert!(matches!(steps[0], HeaderStep::Continue));
    assert!(matches!(steps[1], HeaderStep::Continue));
    assert!(matches!(steps[2], HeaderStep::Complete(42)));
}

#[test]
fn lf_only_header_termination_is_accepted() {
    let steps = read_block(&["Content-Length: 5\n", "\n"]);
    assert!(matches!(steps[1], HeaderStep::Complete(5)));
}

#[test]
fn missing_content_length_is_an_error() {
    let steps = read_block(&["X-Other: 1\r\n", "\r\n"]);
    assert!(matches!(&steps[1], HeaderStep::Failed(Error::Protocol(m)) if m == "missing Content-Length header"));
}

#[test]
fn malformed_header_line_is_an_error() {
    let steps = read_block(&["garbage\r\n"]);
    assert!(matches!(&steps[0], HeaderStep::Failed(Error::Protocol(m)) if m == "malformed header line: \"garbage\""));
}

#[test]
fn invalid_content_length_is_an_error() {
    let steps = read_block(&["Content-Length: -1\r\n"]);
    assert!(matches!(&steps[0], HeaderStep::Failed(Error::Protocol(m)) if m == "invalid Content-Length: \"-1\""));
    let steps = read_block(&["Content-Length: +7\r\n", "\r\n"]);
    assert!(matches!(steps[1], HeaderStep::Complete(7)));
}

#[test]
fn oversized_content_length_is_rejected() {
    let line = format!("Content-Length: {}\r\n", MAX_CONTENT_LENGTH + 1);
    let steps = read_block(&[line.as_str(), "\r\n"]);
    let expected = format!("Content-Length {} exceeds limit", MAX_CONTENT_LENGTH + 1);
    assert!(matches!(&steps[1], HeaderStep::Failed(Error::Protocol(m)) if *m == expected));
    let line = format!("Content-Length: {}\r\n", MAX_CONTENT_LENGTH);
    let steps = read_block(&[line.as_str(), "\r\n"]);
    assert!(matches!(steps[1], HeaderStep::Complete(n) if n == MAX_CONTENT_LENGTH));
}

#[test]
fn eof_is_clean_only_between_frames() {
    let reader = HeaderReader::new();
    assert!(matches!(reader.on_eof(), Ok(None)));
    let mut reader = HeaderReader::new();
    reader.on_line("Content-Length: 3\r\n");
    assert!(matches!(reader.on_eof(), Err(Error::Protocol(_))));
}

#[test]
fn decimal_rendering_matches_std() {
    for n in [0u64, 7, 10, 99, 100, 12345, u64::MAX] {
        assert_eq!(decimal_string(n), n.to_string());
    }
    for n in [0i64, -1, 42, -32602, i64::MAX, i64::MIN] {
        assert_eq!(signed_decimal_string(n), n.to_string());
    }
}
