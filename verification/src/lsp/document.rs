//! Text-document synchronisation notification parameters.

use super::base::{Range, TextDocumentIdentifier, TextDocumentItem, VersionedTextDocumentIdentifier};
use super::enums::{TextDocumentSaveReason, TextDocumentSyncKind};
use vstd::prelude::*;

verus! {

/// Parameters of `textDocument/didOpen`.
#[derive(Debug, Clone, PartialEq, Eq)]
pub struct DidOpenTextDocumentParams {
    /// The document that was opened.
    pub text_document: TextDocumentItem,
}

/// Parameters of `textDocument/didChange`.
#[derive(Debug, Clone, PartialEq, Eq)]
pub struct DidChangeTextDocumentParams {
    /// The document that changed, with its new version.
    pub text_document: VersionedTextDocumentIdentifier,
    /// The content changes, applied in order.
    pub content_changes: Vec<TextDocumentContentChangeEvent>,
}

/// A single change to a text document.
///
/// When `range` is `Some`, only that range was replaced (incremental
/// sync). When it is `None`, `text` is the entire new document content
/// (full sync).
#[derive(Debug, Clone, PartialEq, Eq)]
pub struct TextDocumentContentChangeEvent {
    /// The range that was replaced, or `None` for a full-document update.
    pub range: Option<Range>,
    /// The new text for the range (or the whole document).
    pub text: String,
}

/// Parameters of `textDocument/didClose`.
#[derive(Debug, Clone, PartialEq, Eq)]
pub struct DidCloseTextDocumentParams {
    /// The document that was closed.
    pub text_document: TextDocumentIdentifier,
}

/// Parameters of `textDocument/didSave`.
#[derive(Debug, Clone, PartialEq, Eq)]
pub struct DidSaveTextDocumentParams {
    /// The document that was saved.
    pub text_document: TextDocumentIdentifier,
    /// The full document content, present only if the client is configured
    /// to include text on save.
    pub text: Option<String>,
}

/// Parameters of `textDocument/willSave` and `textDocument/willSaveWaitUntil`.
#[derive(Debug, Clone, PartialEq, Eq)]
pub struct WillSaveTextDocumentParams {
    /// The document about to be saved.
    pub text_document: TextDocumentIdentifier,
    /// What triggered the save.
    pub reason: TextDocumentSaveReason,
}

/// The full form of the server's text-document-sync capability, for when a
/// bare [`TextDocumentSyncKind`] is not expressive enough (e.g. to request
/// document text in `didSave`).
#[derive(Debug, Clone, Copy, PartialEq, Eq, Default, Structural)]
pub struct TextDocumentSyncOptions {
    /// Whether the server wants `didOpen`/`didClose` notifications.
    pub open_close: Option<bool>,
    /// How document changes are synced.
    pub change: Option<TextDocumentSyncKind>,
    /// Whether the server wants `willSave` notifications.
    pub will_save: Option<bool>,
    /// Whether the server wants `willSaveWaitUntil` requests.
    pub will_save_wait_until: Option<bool>,
    /// Whether the server wants `didSave` notifications, optionally with the
    /// saved text included.
    pub save: Option<SaveOptionsCapability>,
}

/// The `save` member of [`TextDocumentSyncOptions`]: a plain boolean or
/// [`SaveOptions`].
#[derive(Debug, Clone, Copy, PartialEq, Eq, Structural)]
pub enum SaveOptionsCapability {
    /// `true`/`false`: send (or don't send) `didSave`, without text.
    Simple(bool),
    /// Send `didSave` with the given options.
    Options(SaveOptions),
}

/// Options of the `didSave` notification.
#[derive(Debug, Clone, Copy, PartialEq, Eq, Default, Structural)]
pub struct SaveOptions {
    /// Ask the client to include the document's content in
    /// [`DidSaveTextDocumentParams::text`].
    pub include_text: Option<bool>,
}

/// The server's text-document-sync capability: a bare kind (the common
/// case) or the full [`TextDocumentSyncOptions`].
#[derive(Debug, Clone, Copy, PartialEq, Eq, Structural)]
pub enum TextDocumentSyncCapability {
    /// Just the change-sync kind; open/close notifications implied.
    Kind(TextDocumentSyncKind),
    /// The full options form.
    Options(TextDocumentSyncOptions),
}

impl From<TextDocumentSyncKind> for TextDocumentSyncCapability {
    fn from(kind: TextDocumentSyncKind) -> (r: Self) {
        TextDocumentSyncCapability::Kind(kind)
    }
}

impl vstd::std_specs::convert::FromSpecImpl<TextDocumentSyncKind> for TextDocumentSyncCapability {
    open spec fn obeys_from_spec() -> bool {
        true
    }

    open spec fn from_spec(kind: TextDocumentSyncKind) -> Self {
        TextDocumentSyncCapability::Kind(kind)
    }
}

impl From<TextDocumentSyncOptions> for TextDocumentSyncCapability {
    fn from(options: TextDocumentSyncOptions) -> (r: Self) {
        TextDocumentSyncCapability::Options(options)
    }
}

impl vstd::std_specs::convert::FromSpecImpl<TextDocumentSyncOptions> for TextDocumentSyncCapability {
    open spec fn obeys_from_spec() -> bool {
        true
    }

    open spec fn from_spec(options: TextDocumentSyncOptions) -> Self {
        TextDocumentSyncCapability::Options(options)
    }
}

} // verus!
