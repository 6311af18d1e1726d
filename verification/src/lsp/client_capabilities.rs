//! Typed views over sub-trees of [`crate::lsp::ClientCapabilities`].
//!
//! [`ClientCapabilities`](crate::lsp::ClientCapabilities) itself stays a raw
//! JSON tree by design (see its module doc comment in `lifecycle.rs`) — a
//! server author can always fall back to
//! [`get`](crate::lsp::ClientCapabilities::get)/[`supports`](crate::lsp::ClientCapabilities::supports)
//! for anything not modelled here. The types in this module are an additive,
//! typed convenience layer on top of that same data: methods like
//! [`ClientCapabilities::workspace`](crate::lsp::ClientCapabilities::workspace)
//! parse the relevant sub-tree into one of these structs, tolerating
//! malformed or absent data by falling back to the type's `Default` rather
//! than erroring — client-supplied data is untrusted, and a slightly-off
//! capability announcement shouldn't be able to crash a server.

use super::enums::{SymbolKind, SymbolTag};
use vstd::prelude::*;

verus! {

/// The common `{ dynamicRegistration?: boolean }` shape shared by many
/// capability groups that support nothing beyond opting into dynamic
/// registration via `client/registerCapability`.
#[derive(Debug, Clone, Copy, PartialEq, Eq, Default)]
pub struct DynamicRegistrationCapability {
    /// Whether the client supports dynamic registration for this method.
    pub dynamic_registration: Option<bool>,
}

/// The common `{ refreshSupport?: boolean }` shape shared by capability
/// groups that support a server asking the client to re-pull results (e.g.
/// `workspace/semanticTokens/refresh`).
#[derive(Debug, Clone, Copy, PartialEq, Eq, Default)]
pub struct RefreshSupportCapability {
    /// Whether the client honors the corresponding `workspace/*/refresh` request.
    pub refresh_support: Option<bool>,
}

/// The common `{ properties: string[] }` shape shared by capability groups
/// that support lazily resolving additional item properties (e.g.
/// `workspaceSymbol/resolve`, `codeAction/resolve`).
#[derive(Debug, Clone, PartialEq, Eq, Default)]
pub struct ResolveSupportCapability {
    /// The property names the client can resolve lazily.
    pub properties: Vec<String>,
}

/// The common `{ valueSet: T[] }` shape shared by capability groups that
/// enumerate which values of a tag-like enum the client understands (e.g.
/// `workspace.symbol.tagSupport`, `textDocument.documentSymbol.tagSupport`).
#[derive(Debug, Clone, PartialEq, Eq)]
// serde's automatic bound inference would otherwise require `T: Default`
// because of the `#[serde(default)]` field below, even though `Vec<T>`
// implements `Default` unconditionally — spelled out explicitly instead.
pub struct TagSupportCapability<T> {
    /// The tag values the client can render.
    pub value_set: Vec<T>,
}

// Manual `Default` instead of `#[derive(Default)]`: the derive would require
// `T: Default`, but the tag enums this is used with (e.g. `SymbolTag`) don't
// implement it — an empty `Vec<T>` needs no bound on `T` at all.
impl<T> Default for TagSupportCapability<T> {
    fn default() -> (r: Self)
        ensures
            r.value_set@ == Seq::<T>::empty(),
    {
        TagSupportCapability { value_set: Vec::new() }
    }
}

/// `ClientCapabilities.workspace`: capabilities that apply to the workspace
/// as a whole rather than to a single document.
#[derive(Debug, Clone, PartialEq, Eq, Default)]
pub struct WorkspaceClientCapabilities {
    /// The client supports applying batch edits via `workspace/applyEdit`.
    pub apply_edit: Option<bool>,
    /// Capabilities specific to `WorkspaceEdit`.
    pub workspace_edit: Option<WorkspaceEditClientCapabilities>,
    /// `workspace/didChangeConfiguration` capabilities.
    pub did_change_configuration: Option<DynamicRegistrationCapability>,
    /// `workspace/didChangeWatchedFiles` capabilities.
    pub did_change_watched_files: Option<DidChangeWatchedFilesClientCapabilities>,
    /// `workspace/symbol` capabilities.
    pub symbol: Option<WorkspaceSymbolClientCapabilities>,
    /// `workspace/executeCommand` capabilities.
    pub execute_command: Option<DynamicRegistrationCapability>,
    /// The client supports `workspace/workspaceFolders` (LSP 3.6).
    pub workspace_folders: Option<bool>,
    /// The client supports `workspace/configuration` (LSP 3.6).
    pub configuration: Option<bool>,
    /// The client honors `workspace/semanticTokens/refresh` (LSP 3.16).
    pub semantic_tokens: Option<RefreshSupportCapability>,
    /// The client honors `workspace/codeLens/refresh` (LSP 3.16).
    pub code_lens: Option<RefreshSupportCapability>,
    /// File-operation notification/request support (LSP 3.16).
    pub file_operations: Option<FileOperationClientCapabilities>,
    /// The client honors `workspace/inlineValue/refresh` (LSP 3.17).
    pub inline_value: Option<RefreshSupportCapability>,
    /// The client honors `workspace/inlayHint/refresh` (LSP 3.17).
    pub inlay_hint: Option<RefreshSupportCapability>,
    /// The client honors `workspace/diagnostic/refresh` (LSP 3.17).
    pub diagnostics: Option<RefreshSupportCapability>,
}

/// `ClientCapabilities.workspace.workspaceEdit`: capabilities specific to
/// `WorkspaceEdit` construction and application.
#[derive(Debug, Clone, PartialEq, Eq, Default)]
pub struct WorkspaceEditClientCapabilities {
    /// The client supports versioned document changes
    /// (`WorkspaceEdit::documentChanges`) over the plain `changes` map.
    pub document_changes: Option<bool>,
    /// Which resource operations (create/rename/delete) the client supports
    /// in a `WorkspaceEdit` (LSP 3.13).
    pub resource_operations: Vec<ResourceOperationKind>,
    /// How the client behaves if a resource operation in a `WorkspaceEdit`
    /// fails partway through (LSP 3.13).
    pub failure_handling: Option<FailureHandlingKind>,
    /// The client normalizes line endings when applying edits (LSP 3.16).
    pub normalizes_line_endings: Option<bool>,
    /// The client's support for `ChangeAnnotation`-grouped edits (LSP 3.16).
    pub change_annotation_support: Option<ChangeAnnotationSupportCapability>,
}

/// One kind of resource operation a `WorkspaceEdit` can contain (LSP 3.13).
#[derive(Debug, Clone, Copy, PartialEq, Eq)]
pub enum ResourceOperationKind {
    /// A file/folder creation.
    Create,
    /// A file/folder rename.
    Rename,
    /// A file/folder deletion.
    Delete,
}

/// How the client behaves if a resource operation in a `WorkspaceEdit` fails
/// partway through (LSP 3.13).
#[derive(Debug, Clone, Copy, PartialEq, Eq)]
pub enum FailureHandlingKind {
    /// Applying stops; earlier changes are left as-is.
    Abort,
    /// All changes are applied transactionally: all-or-nothing.
    Transactional,
    /// The client applies changes then undoes them all if any operation
    /// fails.
    Undo,
    /// Text edits are applied transactionally; resource operations are
    /// best-effort.
    TextOnlyTransactional,
}

/// `ClientCapabilities.workspace.workspaceEdit.changeAnnotationSupport`
/// (LSP 3.16).
#[derive(Debug, Clone, Copy, PartialEq, Eq, Default)]
pub struct ChangeAnnotationSupportCapability {
    /// The client groups edits by `ChangeAnnotation::label` in its UI.
    pub groups_on_label: Option<bool>,
}

/// `ClientCapabilities.workspace.didChangeWatchedFiles`.
#[derive(Debug, Clone, Copy, PartialEq, Eq, Default)]
pub struct DidChangeWatchedFilesClientCapabilities {
    /// Whether the client supports dynamic registration for this method.
    pub dynamic_registration: Option<bool>,
    /// The client supports [`super::registration::RelativePattern`] globs
    /// (LSP 3.17).
    pub relative_pattern_support: Option<bool>,
}

/// `ClientCapabilities.workspace.symbol`.
#[derive(Debug, Clone, PartialEq, Eq, Default)]
pub struct WorkspaceSymbolClientCapabilities {
    /// Whether the client supports dynamic registration for this method.
    pub dynamic_registration: Option<bool>,
    /// Which `SymbolKind`s the client understands.
    pub symbol_kind: Option<SymbolKindCapability>,
    /// Which `SymbolTag`s the client understands (LSP 3.16).
    pub tag_support: Option<TagSupportCapability<SymbolTag>>,
    /// Which `WorkspaceSymbol` properties the client can resolve lazily via
    /// `workspaceSymbol/resolve` (LSP 3.17).
    pub resolve_support: Option<ResolveSupportCapability>,
}

/// `ClientCapabilities.workspace.symbol.symbolKind`.
#[derive(Debug, Clone, PartialEq, Eq, Default)]
pub struct SymbolKindCapability {
    /// The `SymbolKind`s the client understands. Absent means the client
    /// only understands the LSP 1.0 range (`File` through
    /// `Array`); a server should degrade unknown kinds outside the set the
    /// client reports.
    pub value_set: Option<Vec<SymbolKind>>,
}

/// `ClientCapabilities.workspace.fileOperations` (LSP 3.16).
#[derive(Debug, Clone, Copy, PartialEq, Eq, Default)]
pub struct FileOperationClientCapabilities {
    /// Whether the client supports dynamic registration for these methods.
    pub dynamic_registration: Option<bool>,
    /// The client sends `workspace/didCreateFiles`.
    pub did_create: Option<bool>,
    /// The client sends `workspace/willCreateFiles`.
    pub will_create: Option<bool>,
    /// The client sends `workspace/didRenameFiles`.
    pub did_rename: Option<bool>,
    /// The client sends `workspace/willRenameFiles`.
    pub will_rename: Option<bool>,
    /// The client sends `workspace/didDeleteFiles`.
    pub did_delete: Option<bool>,
    /// The client sends `workspace/willDeleteFiles`.
    pub will_delete: Option<bool>,
}

} // verus!

