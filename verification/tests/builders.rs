use rusty_lsp::lsp::lifecycle::{capability_path_segments, negotiate_position_encoding};
use rusty_lsp::lsp::{
    code_action_kind, folding_range_kind, watch_kind, CodeAction, CodeLens, CompletionItem,
    CompletionItemKind, CompletionTextEdit, Diagnostic, DiagnosticSeverity, DocumentFilter,
    DocumentHighlight, DocumentHighlightKind, DocumentSymbol, Documentation, FileSystemWatcher,
    FoldingRange, GlobPattern, Hover, InitializeParams, InlayHint, InlayHintKind,
    InlayHintLabel, InlineCompletionInsertText, CapabilityValue, ClientCapabilities, InlineCompletionItem, InsertTextFormat, Location,
    MarkupContent, MarkupKind, Position, PositionEncodingKind, Range, Registration, StringValue,
    SymbolInformation, SymbolKind, TextDocumentEdit, TextEdit, Uri, WorkspaceFolder,
    WorkspaceSymbol, WorkspaceSymbolLocation,
};

fn range() -> Range {
    Range::new(Position::new(0, 0), Position::new(0, 3))
}

fn object(members: Vec<(&str, CapabilityValue)>) -> CapabilityValue {
    CapabilityValue::Object(members.into_iter().map(|(k, v)| (k.to_owned(), v)).collect())
}

fn capabilities(members: Vec<(&str, CapabilityValue)>) -> ClientCapabilities {
    ClientCapabilities { raw: members.into_iter().map(|(k, v)| (k.to_owned(), v)).collect() }
}

fn declared_encodings(names: Vec<CapabilityValue>) -> ClientCapabilities {
    capabilities(vec![(
        "general",
        object(vec![("positionEncodings", CapabilityValue::Array(names))]),
    )])
}

fn text(s: &str) -> CapabilityValue {
    CapabilityValue::Str(s.to_owned())
}

#[test]
fn position_encoding_negotiation_prefers_the_server_order() {
    let caps = declared_encodings(vec![text("utf-8"), text("utf-16"), text("not-a-real-one")]);
    assert_eq!(
        caps.position_encodings(),
        vec![PositionEncodingKind::Utf8, PositionEncodingKind::Utf16]
    );
    assert_eq!(
        caps.negotiate_position_encoding(&[PositionEncodingKind::Utf8]),
        PositionEncodingKind::Utf8
    );
    assert_eq!(
        caps.negotiate_position_encoding(&[PositionEncodingKind::Utf32]),
        PositionEncodingKind::Utf16 // unsupported preference falls back
    );
    // A client that declared nothing gets the mandatory default.
    let empty = ClientCapabilities::default();
    assert!(empty.position_encodings().is_empty());
    assert_eq!(
        empty.negotiate_position_encoding(&[PositionEncodingKind::Utf8]),
        PositionEncodingKind::Utf16
    );
}

#[test]
fn negotiation_over_a_supported_list_takes_the_first_preference_supported() {
    let supported = [PositionEncodingKind::Utf8, PositionEncodingKind::Utf16];
    assert_eq!(
        negotiate_position_encoding(&supported, &[PositionEncodingKind::Utf8]),
        PositionEncodingKind::Utf8
    );
    assert_eq!(
        negotiate_position_encoding(&supported, &[PositionEncodingKind::Utf32]),
        PositionEncodingKind::Utf16
    );
    assert_eq!(
        negotiate_position_encoding(&[], &[PositionEncodingKind::Utf8]),
        PositionEncodingKind::Utf16
    );
    assert_eq!(
        negotiate_position_encoding(
            &[PositionEncodingKind::Utf32, PositionEncodingKind::Utf8],
            &[PositionEncodingKind::Utf8, PositionEncodingKind::Utf32]
        ),
        PositionEncodingKind::Utf8
    );
}

#[test]
fn client_capabilities_get_and_supports_walk_dotted_paths() {
    let caps = capabilities(vec![(
        "textDocument",
        object(vec![
            ("definition", object(vec![("linkSupport", CapabilityValue::Bool(true))])),
            ("publishDiagnostics", object(vec![("versionSupport", CapabilityValue::Bool(false))])),
            ("hover", object(vec![])),
        ]),
    )]);

    assert_eq!(
        caps.get("textDocument.definition.linkSupport"),
        Some(&CapabilityValue::Bool(true))
    );
    assert!(caps.supports("textDocument.definition.linkSupport"));
    assert!(caps.supports("textDocument.hover")); // present, non-bool -> "yes"
    assert!(!caps.supports("textDocument.publishDiagnostics.versionSupport"));
    assert!(!caps.supports("textDocument.codeAction")); // missing entirely
    assert!(!caps.supports("workspace.applyEdit")); // missing top-level segment
}

#[test]
fn capability_walk_stops_at_null_and_at_non_objects() {
    let caps = capabilities(vec![
        ("experimental", CapabilityValue::Null),
        ("general", object(vec![("markdown", text("yes")), ("limit", CapabilityValue::Number("3".to_owned()))])),
    ]);
    assert_eq!(caps.get("experimental"), Some(&CapabilityValue::Null));
    assert!(!caps.supports("experimental"));
    assert!(caps.supports("general.markdown"));
    assert!(caps.supports("general.limit"));
    assert_eq!(caps.get("general.markdown.parser"), None);
    assert_eq!(caps.get("general.limit.x"), None);
    assert_eq!(caps.get("general").map(|v| matches!(v, CapabilityValue::Object(_))), Some(true));
    assert_eq!(caps.get(""), None);
}

#[test]
fn declared_encodings_skip_non_strings_and_keep_the_client_order() {
    let caps = declared_encodings(vec![
        CapabilityValue::Bool(true),
        text("utf-32"),
        CapabilityValue::Number("8".to_owned()),
        text("utf-8"),
    ]);
    assert_eq!(
        caps.position_encodings(),
        vec![PositionEncodingKind::Utf32, PositionEncodingKind::Utf8]
    );
    assert_eq!(
        caps.negotiate_position_encoding(&[PositionEncodingKind::Utf8, PositionEncodingKind::Utf32]),
        PositionEncodingKind::Utf8
    );
    let not_a_list = capabilities(vec![("general", object(vec![("positionEncodings", text("utf-8"))]))]);
    assert!(not_a_list.position_encodings().is_empty());
}

#[test]
fn hover_and_markup_builders() {
    let hover = Hover::markdown("# hi").with_range(range());
    assert_eq!(hover.contents, MarkupContent::markdown("# hi"));
    assert_eq!(hover.contents.kind, MarkupKind::Markdown);
    assert_eq!(hover.range, Some(range()));
    let plain = Hover::plain_text("text");
    assert_eq!(plain.contents.kind, MarkupKind::PlainText);
    assert_eq!(plain.contents.value, "text");
    assert_eq!(plain.range, None);
}

#[test]
fn completion_item_builders_set_one_field_each() {
    let item = CompletionItem::new("println!")
        .with_kind(CompletionItemKind::Snippet)
        .with_detail("macro")
        .with_text_edit(CompletionTextEdit::Edit(TextEdit::new(range(), "println!(\"$1\")$0")))
        .as_snippet()
        .with_data(serde_json::from_str("{\"id\": 7}").unwrap());
    assert_eq!(item.label, "println!");
    assert_eq!(item.kind, Some(CompletionItemKind::Snippet));
    assert_eq!(item.detail.as_deref(), Some("macro"));
    assert_eq!(item.insert_text_format, Some(InsertTextFormat::Snippet));
    assert!(item.filter_text.is_none());
    assert!(item.additional_text_edits.is_none());
    assert_eq!(item.data, Some(serde_json::from_str("{\"id\": 7}").unwrap()));
}

#[test]
fn document_highlight_and_folding_range_builders() {
    let highlight = DocumentHighlight::new(range()).with_kind(DocumentHighlightKind::Write);
    assert_eq!(highlight.kind, Some(DocumentHighlightKind::Write));
    assert_eq!(highlight.kind.unwrap().code(), 3);
    let folding = FoldingRange::new(2, 9).with_kind(folding_range_kind::REGION);
    assert_eq!(folding.start_line, 2);
    assert_eq!(folding.end_line, 9);
    assert_eq!(folding.kind.as_deref(), Some("region"));
    assert!(folding.start_character.is_none());
}

#[test]
fn document_filters_and_watchers() {
    let by_language = DocumentFilter::language("rust");
    assert_eq!(by_language.language.as_deref(), Some("rust"));
    assert!(by_language.pattern.is_none());
    let by_pattern = DocumentFilter::pattern("**/*.toml");
    assert_eq!(by_pattern.pattern.as_deref(), Some("**/*.toml"));
    assert!(by_pattern.scheme.is_none());
    let watcher = FileSystemWatcher::new(GlobPattern::from("**/*.rs".to_owned()))
        .with_kind(watch_kind::CREATE | watch_kind::DELETE);
    assert_eq!(watcher.kind, Some(5));
    assert_eq!(watch_kind::ALL, watch_kind::CREATE | watch_kind::CHANGE | watch_kind::DELETE);
    let registration = Registration::new("id-1", "workspace/didChangeWatchedFiles", None);
    assert_eq!(registration.method, "workspace/didChangeWatchedFiles");
}

#[test]
fn documentation_and_snippets() {
    assert_eq!(Documentation::plain_text("docs"), Documentation::String("docs".to_owned()));
    match Documentation::markdown("# docs") {
        Documentation::Markup(m) => assert_eq!(m.value, "# docs"),
        other => panic!("unexpected {other:?}"),
    }
    let snippet = StringValue::snippet("fn $1()");
    assert_eq!(snippet.kind, "snippet");
    assert_eq!(snippet.value, "fn $1()");
    let item = InlineCompletionItem::new(InlineCompletionInsertText::from("x".to_owned()));
    assert_eq!(item.insert_text, InlineCompletionInsertText::Plain("x".to_owned()));
    assert!(item.range.is_none());
}

#[test]
fn symbol_builders() {
    let location = Location { uri: Uri::new("file:///a.rs"), range: range() };
    let symbol = DocumentSymbol::new("main", SymbolKind::Function, range(), range());
    assert_eq!(symbol.name, "main");
    assert!(symbol.children.is_none());
    let info = SymbolInformation::new("main", SymbolKind::Function, location.clone());
    assert_eq!(info.location, location);
    let ws = WorkspaceSymbol::new("main", SymbolKind::Function, WorkspaceSymbolLocation::Full(location));
    assert_eq!(ws.kind, SymbolKind::Function);
    assert!(ws.data.is_none());
}

#[test]
fn edits_and_actions() {
    let edit = TextDocumentEdit::new(
        Uri::new("file:///a"),
        Some(3),
        vec![TextEdit::new(range(), "x"), TextEdit::new(range(), "y")],
    );
    assert_eq!(edit.text_document.version, Some(3));
    assert_eq!(edit.edits.len(), 2);
    assert_eq!(edit.edits[1].new_text, "y");
    assert!(edit.edits[0].annotation_id.is_none());
    let action = CodeAction::new("Fix it").with_kind(code_action_kind::QUICKFIX);
    assert_eq!(action.kind.as_deref(), Some("quickfix"));
    assert!(action.edit.is_none());
    let lens = CodeLens::new(range());
    assert!(lens.command.is_none());
    let diagnostic = Diagnostic::new(range(), DiagnosticSeverity::Warning, "unused").with_source("lint");
    assert_eq!(diagnostic.source.as_deref(), Some("lint"));
    assert_eq!(diagnostic.message, "unused");
    let hint = InlayHint::new(Position::new(1, 2), ": i32").with_kind(InlayHintKind::Type);
    assert_eq!(hint.label, InlayHintLabel::String(": i32".to_owned()));
    assert_eq!(hint.kind, Some(InlayHintKind::Type));
}

#[test]
fn workspace_roots_prefer_folders_then_root_uri() {
    let mut params = InitializeParams::default();
    assert!(params.workspace_roots().is_empty());
    params.root_uri = Some(Uri::new("file:///home/me/project"));
    let roots = params.workspace_roots();
    assert_eq!(roots.len(), 1);
    assert_eq!(roots[0].name, "project");
    params.workspace_folders = Some(vec![WorkspaceFolder {
        uri: Uri::new("file:///w"),
        name: "w".to_owned(),
    }]);
    let roots = params.workspace_roots();
    assert_eq!(roots.len(), 1);
    assert_eq!(roots[0].uri, Uri::new("file:///w"));
}

#[test]
fn capability_paths_split_on_dots() {
    assert_eq!(
        capability_path_segments("textDocument.definition.linkSupport"),
        vec!["textDocument", "definition", "linkSupport"]
    );
    assert_eq!(capability_path_segments("workspace"), vec!["workspace"]);
    assert_eq!(capability_path_segments(""), vec![""]);
    assert_eq!(capability_path_segments("a..b."), vec!["a", "", "b", ""]);
}
