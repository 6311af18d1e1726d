//! `textDocument/formatting`, `rangeFormatting`, and `onTypeFormatting` types.

use super::base::{Range, TextDocumentIdentifier, TextDocumentPositionParams};
use super::progress::WorkDoneProgressParams;
use vstd::prelude::*;

verus! {

/// Formatting preferences shared by all three formatting requests.
#[derive(Debug, Clone, PartialEq, Default)]
pub struct FormattingOptions {
    /// The number of spaces a tab represents.
    pub tab_size: u32,
    /// Whether to indent with spaces instead of tabs.
    pub insert_spaces: bool,
    /// Any additional editor-specific options not modelled above.
    pub extra: serde_json::Map<String, serde_json::Value>,
}

/// Parameters of `textDocument/formatting`.
#[derive(Debug, Clone, PartialEq)]
pub struct DocumentFormattingParams {
    /// The document to format.
    pub text_document: TextDocumentIdentifier,
    /// The client's formatting preferences.
    pub options: FormattingOptions,
    pub work_done: WorkDoneProgressParams,
}

/// Parameters of `textDocument/rangeFormatting`.
#[derive(Debug, Clone, PartialEq)]
pub struct DocumentRangeFormattingParams {
    /// The document to format.
    pub text_document: TextDocumentIdentifier,
    /// The range to format.
    pub range: Range,
    /// The client's formatting preferences.
    pub options: FormattingOptions,
}

/// Parameters of `textDocument/onTypeFormatting`.
#[derive(Debug, Clone, PartialEq)]
pub struct DocumentOnTypeFormattingParams {
    /// The document and position the triggering character was typed at.
    pub text_document_position: TextDocumentPositionParams,
    /// The character that was just typed, triggering this request.
    pub ch: String,
    /// The client's formatting preferences.
    pub options: FormattingOptions,
}

/// Options describing the server's `textDocument/onTypeFormatting` support.
#[derive(Debug, Clone, PartialEq, Eq, Default)]
pub struct DocumentOnTypeFormattingOptions {
    /// The character that triggers on-type formatting (e.g. `"}"`).
    pub first_trigger_character: String,
    /// Additional trigger characters.
    pub more_trigger_character: Vec<String>,
}

} // verus!

