use rusty_lsp::lsp::{
    Position, PositionEncodingKind, Range, SemanticTokensBuilder, SemanticTokensLegend,
};
use rusty_lsp::text::LineIndex;

fn legend() -> SemanticTokensLegend {
    SemanticTokensLegend {
        token_types: vec!["keyword".into(), "variable".into()],
        token_modifiers: vec!["declaration".into(), "readonly".into()],
    }
}

#[test]
fn delta_encodes_across_lines_and_within_a_line() {
    let mut builder = SemanticTokensBuilder::new(&legend());
    builder.push(2, 10, 4, "variable", &["readonly"]).unwrap();
    builder.push(0, 0, 3, "keyword", &[]).unwrap();
    builder.push(2, 4, 2, "keyword", &[]).unwrap();
    let tokens = builder.build(Some("r1".into()));
    assert_eq!(tokens.result_id.as_deref(), Some("r1"));
    assert_eq!(
        tokens.data,
        [
            0, 0, 3, 0, 0, // line 0 col 0: keyword
            2, 4, 2, 0, 0, // +2 lines, col 4: keyword
            0, 6, 4, 1, 2, // same line, +6 cols: variable, readonly bit
        ]
    );
}

#[test]
fn unknown_names_are_rejected() {
    let mut builder = SemanticTokensBuilder::new(&legend());
    assert!(builder.push(0, 0, 1, "nope", &[]).is_err());
    assert!(builder.push(0, 0, 1, "keyword", &["nope"]).is_err());
}

#[test]
fn push_range_splits_multi_line_tokens() {
    // A "comment" spanning three lines, with a multi-byte char on line 1.
    let legend = SemanticTokensLegend {
        token_types: vec!["comment".into()],
        token_modifiers: vec![],
    };
    let text = "abc\ndé\nxyz";
    let index = LineIndex::new(text);
    let mut builder = SemanticTokensBuilder::new(&legend);
    builder
        .push_range(
            text,
            &index,
            Range::new(Position::new(0, 1), Position::new(2, 2)),
            PositionEncodingKind::Utf16,
            "comment",
            &[],
        )
        .unwrap();
    let tokens = builder.build(None);
    assert_eq!(
        tokens.data,
        [
            0, 1, 2, 0, 0, // line 0: cols 1..3
            1, 0, 2, 0, 0, // line 1: cols 0..2 ("dé" is 2 UTF-16 units)
            1, 0, 2, 0, 0, // line 2: cols 0..2
        ]
    );
}

#[test]
fn unknown_names_report_the_first_missing_name() {
    let mut builder = SemanticTokensBuilder::new(&legend());
    let err = builder.push(0, 0, 1, "keyword", &["readonly", "nope", "gone"]).unwrap_err();
    match err {
        rusty_lsp::Error::Response(e) => {
            assert_eq!(e.code, rusty_lsp::error::codes::INTERNAL_ERROR);
            assert_eq!(e.message, "token modifier \"nope\" is not in the legend");
        }
        other => panic!("unexpected error {other:?}"),
    }
    let err = builder.push(0, 0, 1, "nope", &["gone"]).unwrap_err();
    match err {
        rusty_lsp::Error::Response(e) => {
            assert_eq!(e.message, "token type \"nope\" is not in the legend")
        }
        other => panic!("unexpected error {other:?}"),
    }
    // Nothing was added by the failed pushes.
    assert!(builder.build(None).data.is_empty());
}

#[test]
fn push_range_with_no_pieces_ignores_unknown_names() {
    let mut builder = SemanticTokensBuilder::new(&legend());
    let text = "abc";
    let index = LineIndex::new(text);
    // An empty range adds nothing, so the unknown name is never resolved.
    let result = builder.push_range(
        text,
        &index,
        Range::new(Position::new(0, 1), Position::new(0, 1)),
        PositionEncodingKind::Utf16,
        "nope",
        &[],
    );
    assert!(result.is_ok());
    // A range past the last line adds nothing either.
    let result = builder.push_range(
        text,
        &index,
        Range::new(Position::new(5, 0), Position::new(7, 3)),
        PositionEncodingKind::Utf16,
        "keyword",
        &[],
    );
    assert!(result.is_ok());
    assert!(builder.build(None).data.is_empty());
}

#[test]
fn push_raw_tokens_are_sorted_before_encoding() {
    let mut builder = SemanticTokensBuilder::new(&legend());
    builder.push_raw(1, 2, 1, 0, 0);
    builder.push_raw(0, 5, 2, 1, 3);
    builder.push_raw(1, 0, 1, 1, 0);
    assert_eq!(
        builder.build(None).data,
        [0, 5, 2, 1, 3, 1, 0, 1, 1, 0, 0, 2, 1, 0, 0]
    );
}
