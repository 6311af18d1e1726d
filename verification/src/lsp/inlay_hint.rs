//! `textDocument/inlayHint` types.

use super::base::{Location, Position, Range, TextDocumentIdentifier};
use super::code_action::Command;
use super::enums::InlayHintKind;
use super::progress::WorkDoneProgressParams;
use super::signature::Documentation;
use vstd::prelude::*;

verus! {

/// Parameters of `textDocument/inlayHint`.
#[derive(Debug, Clone, PartialEq, Eq)]
pub struct InlayHintParams {
    /// The document to compute inlay hints for.
    pub text_document: TextDocumentIdentifier,
    /// The range to compute hints within.
    pub range: Range,
    pub work_done: WorkDoneProgressParams,
}

/// An inline annotation shown alongside a document's text — a type hint, a
/// parameter name, or similar.
#[derive(Debug, Clone, PartialEq)]
pub struct InlayHint {
    /// Where to render the hint.
    pub position: Position,
    /// The hint's text.
    pub label: InlayHintLabel,
    /// The hint's kind.
    pub kind: Option<InlayHintKind>,
    /// Edits that insert the hint's text literally into the document (used
    /// to support "accept this hint" editor actions).
    pub text_edits: Option<Vec<super::workspace::TextEdit>>,
    /// A tooltip shown when hovering the hint.
    pub tooltip: Option<Documentation>,
    /// Whether to render whitespace before the hint.
    pub padding_left: Option<bool>,
    /// Whether to render whitespace after the hint.
    pub padding_right: Option<bool>,
    /// Opaque data round-tripped through `inlayHint/resolve`.
    pub data: Option<serde_json::Value>,
}

impl InlayHint {
    /// An inlay hint from its position and label text.
    pub fn new(position: Position, label: &str) -> (r: Self)
        ensures
            r.position == position,
            r.label matches InlayHintLabel::String(l) && l@ == label@,
            r.kind is None,
            r.text_edits is None,
            r.tooltip is None,
            r.padding_left is None,
            r.padding_right is None,
            r.data is None,
    {
        InlayHint {
            position,
            label: InlayHintLabel::String(label.to_owned()),
            kind: None,
            text_edits: None,
            tooltip: None,
            padding_left: None,
            padding_right: None,
            data: None,
        }
    }

    /// Set the hint's kind.
    pub fn with_kind(self, kind: InlayHintKind) -> (r: Self)
        ensures
            r == (InlayHint { kind: Some(kind), ..self }),
    {
        InlayHint { kind: Some(kind), ..self }
    }
}

/// An [`InlayHint`]'s label: either plain text, or several clickable parts
/// (e.g. a type name that links to its declaration).
#[derive(Debug, Clone, PartialEq)]
pub enum InlayHintLabel {
    /// Plain label text.
    String(String),
    /// Several concatenated, individually-actionable parts.
    Parts(Vec<InlayHintLabelPart>),
}

/// One part of a multi-part [`InlayHintLabel`].
#[derive(Debug, Clone, PartialEq)]
pub struct InlayHintLabelPart {
    /// This part's text.
    pub value: String,
    /// A tooltip shown when hovering this part.
    pub tooltip: Option<Documentation>,
    /// A location this part navigates to when clicked (e.g. a type's
    /// declaration).
    pub location: Option<Location>,
    /// A command to run when this part is clicked, instead of navigating.
    pub command: Option<Command>,
}

/// Options describing the server's `textDocument/inlayHint` support.
#[derive(Debug, Clone, PartialEq, Eq, Default)]
pub struct InlayHintOptions {
    /// Whether the server reports work-done progress for this provider.
    pub work_done_progress: Option<bool>,
    /// Whether the server supports `inlayHint/resolve` for lazily filling in
    /// `tooltip`/`text_edits`.
    pub resolve_provider: Option<bool>,
}

} // verus!

