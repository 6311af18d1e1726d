//! `textDocument/documentLink`, `documentColor`, and `colorPresentation`
//! types.

use super::base::{Range, TextDocumentIdentifier, Uri};
use vstd::prelude::*;

verus! {

/// Parameters of `textDocument/documentLink`.
#[derive(Debug, Clone, PartialEq, Eq)]
pub struct DocumentLinkParams {
    /// The document to find links in.
    pub text_document: TextDocumentIdentifier,
}

/// A clickable link anchored to a document range.
#[derive(Debug, Clone, PartialEq)]
pub struct DocumentLink {
    /// The range the link is anchored to.
    pub range: Range,
    /// The link's target. `None` until resolved, for servers that support
    /// `documentLink/resolve`.
    pub target: Option<Uri>,
    /// A tooltip shown when hovering the link.
    pub tooltip: Option<String>,
    /// Opaque data round-tripped through `documentLink/resolve`.
    pub data: Option<serde_json::Value>,
}

/// Options describing the server's `textDocument/documentLink` support.
#[derive(Debug, Clone, PartialEq, Eq, Default)]
pub struct DocumentLinkOptions {
    /// Whether the server supports `documentLink/resolve` for lazily filling
    /// in `target`.
    pub resolve_provider: Option<bool>,
}

/// Parameters of `textDocument/documentColor`.
#[derive(Debug, Clone, PartialEq, Eq)]
pub struct DocumentColorParams {
    /// The document to find color literals in.
    pub text_document: TextDocumentIdentifier,
}

/// One way to present/write a color in the source language (e.g. as a
/// hex literal, an `rgb()` call, or a named color).
#[derive(Debug, Clone, PartialEq)]
pub struct ColorPresentation {
    /// The presentation shown to the user (e.g. `"#FF0000"`).
    pub label: String,
    /// The edit to make when this presentation is chosen, if it differs from
    /// `label` itself.
    pub text_edit: Option<super::workspace::TextEdit>,
    /// Further edits to apply alongside `text_edit` (e.g. adding an import).
    pub additional_text_edits: Option<Vec<super::workspace::TextEdit>>,
}

} // verus!

