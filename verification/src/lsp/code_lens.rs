//! `textDocument/codeLens` types.

use super::base::{Range, TextDocumentIdentifier};
use super::code_action::Command;
use vstd::prelude::*;

verus! {

/// Parameters of `textDocument/codeLens`.
#[derive(Debug, Clone, PartialEq, Eq)]
pub struct CodeLensParams {
    /// The document to compute code lenses for.
    pub text_document: TextDocumentIdentifier,
}

/// An inline, actionable annotation anchored to a document range (e.g. a
/// "Run test" link above a test function).
#[derive(Debug, Clone, PartialEq)]
pub struct CodeLens {
    /// The range the lens is anchored to.
    pub range: Range,
    /// The command to run when the lens is activated. `None` until resolved,
    /// for servers that support `codeLens/resolve`.
    pub command: Option<Command>,
    /// Opaque data round-tripped through `codeLens/resolve`.
    pub data: Option<serde_json::Value>,
}

impl CodeLens {
    /// A code lens over `range` with no command yet (to be filled in by
    /// `codeLens/resolve`).
    pub fn new(range: Range) -> (r: Self)
        ensures
            r == (CodeLens { range, command: None, data: None }),
    {
        CodeLens { range, command: None, data: None }
    }
}

/// Options describing the server's `textDocument/codeLens` support.
#[derive(Debug, Clone, PartialEq, Eq, Default)]
pub struct CodeLensOptions {
    /// Whether the server supports `codeLens/resolve` for lazily filling in
    /// `command`.
    pub resolve_provider: Option<bool>,
}

} // verus!

