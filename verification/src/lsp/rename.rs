//! `textDocument/rename` and `textDocument/prepareRename` types.

use super::base::{Range, TextDocumentPositionParams};
use vstd::prelude::*;

verus! {

/// Parameters of `textDocument/rename`.
#[derive(Debug, Clone, PartialEq, Eq)]
pub struct RenameParams {
    /// The document and position of the symbol to rename.
    pub text_document_position: TextDocumentPositionParams,
    /// The symbol's new name.
    pub new_name: String,
}

/// The result of a `textDocument/prepareRename` request: whether (and how)
/// the symbol under the cursor can be renamed.
#[derive(Debug, Clone, PartialEq, Eq)]
pub enum PrepareRenameResponse {
    /// The range that will be renamed (the client fills the rename input
    /// with this range's current text).
    Range(Range),
    /// The range to rename, plus an explicit placeholder string to
    /// pre-populate the rename input with (when it should differ from the
    /// range's literal text).
    RangeWithPlaceholder {
        /// The range that will be renamed.
        range: Range,
        /// The text to pre-populate the rename input with.
        placeholder: String,
    },
    /// The symbol can be renamed using the client's default word-boundary
    /// detection, with no explicit range.
    DefaultBehavior {
        /// Always `true`; present only to distinguish this variant on the
        /// wire.
        default_behavior: bool,
    },
}

/// Options describing the server's `textDocument/rename` support.
#[derive(Debug, Clone, Copy, PartialEq, Eq, Default)]
pub struct RenameOptions {
    /// Whether the server supports `textDocument/prepareRename`.
    pub prepare_provider: Option<bool>,
}

} // verus!

