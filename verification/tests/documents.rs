use rusty_lsp::documents::Documents;
use rusty_lsp::lsp::{
    DidChangeTextDocumentParams, DidCloseTextDocumentParams, DidOpenTextDocumentParams, Position,
    PositionEncodingKind, Range, TextDocumentContentChangeEvent, TextDocumentIdentifier,
    TextDocumentItem, Uri, VersionedTextDocumentIdentifier,
};

fn open(uri: &str, text: &str) -> DidOpenTextDocumentParams {
    DidOpenTextDocumentParams {
        text_document: TextDocumentItem {
            uri: Uri::new(uri),
            language_id: "plaintext".to_owned(),
            version: 1,
            text: text.to_owned(),
        },
    }
}

fn change(
    uri: &str,
    version: i32,
    changes: Vec<TextDocumentContentChangeEvent>,
) -> DidChangeTextDocumentParams {
    DidChangeTextDocumentParams {
        text_document: VersionedTextDocumentIdentifier { uri: Uri::new(uri), version },
        content_changes: changes,
    }
}

fn full(text: &str) -> TextDocumentContentChangeEvent {
    TextDocumentContentChangeEvent { range: None, text: text.to_owned() }
}

fn edit(start: (u32, u32), end: (u32, u32), text: &str) -> TextDocumentContentChangeEvent {
    TextDocumentContentChangeEvent {
        range: Some(Range::new(Position::new(start.0, start.1), Position::new(end.0, end.1))),
        text: text.to_owned(),
    }
}

#[test]
fn open_then_get_round_trips() {
    let mut documents = Documents::new();
    documents.did_open(&open("file:///a", "hello"));
    let doc = documents.get("file:///a").expect("open");
    assert_eq!(doc.text, "hello");
    assert_eq!(doc.version, 1);
    assert_eq!(doc.language_id, "plaintext");
}

#[test]
fn full_sync_replaces_whole_text() {
    let mut documents = Documents::new();
    documents.did_open(&open("file:///a", "hello"));
    let params = change("file:///a", 2, vec![full("goodbye")]);
    assert!(documents.change_applies(&params));
    assert!(documents.did_change(&params));
    assert_eq!(documents.text("file:///a").as_deref(), Some("goodbye"));
}

#[test]
fn incremental_edits_apply_in_order_using_utf16_positions() {
    let mut documents = Documents::new();
    documents.did_open(&open("file:///a", "héllo world"));
    let params = change(
        "file:///a",
        2,
        vec![edit((0, 2), (0, 5), "y"), edit((0, 4), (0, 9), "there")],
    );
    assert!(documents.did_change(&params));
    assert_eq!(documents.text("file:///a").as_deref(), Some("héy there"));
}

#[test]
fn close_removes_the_document() {
    let mut documents = Documents::new();
    documents.did_open(&open("file:///a", "hello"));
    let closed = documents.did_close(&DidCloseTextDocumentParams {
        text_document: TextDocumentIdentifier { uri: Uri::new("file:///a") },
    });
    assert_eq!(closed.unwrap().text, "hello");
    assert!(documents.get("file:///a").is_none());
    assert!(documents.is_empty());
}

#[test]
fn stale_version_change_is_ignored() {
    let mut documents = Documents::new();
    documents.did_open(&open("file:///a", "v1 text"));
    assert!(documents.did_change(&change("file:///a", 5, vec![full("v5 text")])));
    let applied = documents.did_change(&change("file:///a", 3, vec![full("stale")]));
    assert!(!applied);
    assert_eq!(documents.text("file:///a").as_deref(), Some("v5 text"));
    assert_eq!(documents.get("file:///a").unwrap().version, 5);
}

#[test]
fn reopen_returns_the_previous_document() {
    let mut documents = Documents::new();
    assert!(documents.did_open(&open("file:///a", "first")).is_none());
    let previous = documents.did_open(&open("file:///a", "second")).expect("previously open");
    assert_eq!(previous.text, "first");
    assert_eq!(documents.text("file:///a").as_deref(), Some("second"));
    assert_eq!(documents.len(), 1);
}

#[test]
fn with_encoding_patches_edits_in_that_encoding() {
    let mut documents = Documents::with_encoding(PositionEncodingKind::Utf8);
    assert_eq!(documents.encoding(), PositionEncodingKind::Utf8);
    documents.did_open(&open("file:///a", "é😀x"));
    assert!(documents.did_change(&change("file:///a", 2, vec![edit((0, 6), (0, 7), "y")])));
    assert_eq!(documents.text("file:///a").as_deref(), Some("é😀y"));
}

#[test]
fn offset_and_position_helpers_use_the_negotiated_encoding() {
    let mut documents = Documents::new();
    documents.did_open(&open("file:///a", "é😀x\nsecond"));
    let offset = documents.offset_at("file:///a", Position::new(0, 3)).expect("open");
    assert_eq!(offset, 6);
    assert_eq!(documents.position_at("file:///a", offset), Some(Position::new(0, 3)));
    assert_eq!(documents.offset_at("file:///a", Position::new(1, 0)), Some(8));
    assert!(documents.offset_at("file:///missing", Position::new(0, 0)).is_none());
}

#[test]
fn line_offsets_follow_edits() {
    let mut documents = Documents::new();
    documents.did_open(&open("file:///a", "one\ntwo"));
    assert_eq!(documents.offset_at("file:///a", Position::new(1, 0)), Some(4));
    assert!(documents.did_change(&change("file:///a", 2, vec![edit((0, 0), (0, 0), "zero ")])));
    assert_eq!(documents.offset_at("file:///a", Position::new(1, 0)), Some(9));
}

#[test]
fn change_to_unopened_document_is_ignored() {
    let mut documents = Documents::new();
    assert!(!documents.did_change(&change("file:///never-opened", 2, vec![full("x")])));
    assert!(documents.get("file:///never-opened").is_none());
}

#[test]
fn raw_string_lookups_fall_back_to_the_normalized_spelling() {
    let mut documents = Documents::new();
    documents.did_open(&open("file:///a", "hello"));
    assert!(documents.get("FILE:///a").is_some());
    assert!(documents.text("file:///a").is_some());
    assert_eq!(documents.text("FILE:///a").map(|t| t.len()), Some(5));
    assert!(documents.get("file:///other").is_none());
}

#[test]
fn reversed_edit_range_is_reported_as_not_applicable() {
    let mut documents = Documents::new();
    documents.did_open(&open("file:///a", "hello"));
    let params = change("file:///a", 2, vec![edit((0, 4), (0, 1), "x")]);
    assert!(!documents.change_applies(&params));
    // A stale change does not apply, so it is acceptable whatever it holds.
    assert!(documents.change_applies(&change("file:///a", 0, vec![edit((0, 4), (0, 1), "x")])));
}

#[test]
fn uris_lists_every_open_document_once() {
    let mut documents = Documents::new();
    documents.did_open(&open("file:///a", "1"));
    documents.did_open(&open("file:///b", "2"));
    documents.did_open(&open("file:///a", "3"));
    let mut uris: Vec<String> = documents.uris().into_iter().map(|u| u.into_string()).collect();
    uris.sort();
    assert_eq!(uris, vec!["file:///a".to_owned(), "file:///b".to_owned()]);
}
