//! `workspace/*` types: multi-root workspace folders, pulling client
//! configuration, applying edits back to the client's buffers, watched-file
//! change notifications, and command execution.

use super::base::{Range, Uri};
use super::enums::FileChangeType;
use crate::json::empty_json_object;
use std::collections::HashMap;
use vstd::prelude::*;

verus! {

/// A single root folder in a (possibly multi-root) workspace.
#[derive(Debug, Clone, PartialEq, Eq, Hash)]
pub struct WorkspaceFolder {
    /// The folder's URI.
    pub uri: Uri,
    /// The folder's display name.
    pub name: String,
}

/// Parameters of the `workspace/didChangeWorkspaceFolders` notification.
#[derive(Debug, Clone, PartialEq, Eq)]
pub struct DidChangeWorkspaceFoldersParams {
    /// The added/removed folders.
    pub event: WorkspaceFoldersChangeEvent,
}

/// The folders added and removed since the last known state.
#[derive(Debug, Clone, PartialEq, Eq, Default)]
pub struct WorkspaceFoldersChangeEvent {
    /// Folders added to the workspace.
    pub added: Vec<WorkspaceFolder>,
    /// Folders removed from the workspace.
    pub removed: Vec<WorkspaceFolder>,
}

/// Parameters of a server-to-client `workspace/configuration` request: asks
/// for the value of one or more configuration sections.
#[derive(Debug, Clone, PartialEq, Eq)]
pub struct ConfigurationParams {
    /// The sections being requested.
    pub items: Vec<ConfigurationItem>,
}

/// One configuration section to look up, optionally scoped to a resource.
#[derive(Debug, Clone, PartialEq, Eq, Default)]
pub struct ConfigurationItem {
    /// Restrict the lookup to this resource, if given.
    pub scope_uri: Option<Uri>,
    /// The dotted configuration section to read (e.g. `"editor.tabSize"`).
    pub section: Option<String>,
}

/// A single textual edit: replace [`range`](Self::range) with
/// [`new_text`](Self::new_text).
#[derive(Debug, Clone, PartialEq, Eq)]
pub struct TextEdit {
    /// The range to replace.
    pub range: Range,
    /// The replacement text (empty string to delete the range).
    pub new_text: String,
}

impl TextEdit {
    /// Replace `range` with `new_text`.
    pub fn new(range: Range, new_text: &str) -> (r: Self)
        ensures
            r.range == range,
            r.new_text@ == new_text@,
    {
        TextEdit { range, new_text: new_text.to_owned() }
    }
}

/// A set of edits across one or more documents, sent to
/// `workspace/applyEdit` (and returned from `rename`, `willRenameFiles`,
/// code-action edits, …).
///
/// Two forms exist: the simple [`changes`](Self::changes) map, and the
/// richer [`document_changes`](Self::document_changes) list, which supports
/// versioned edits, file creates/renames/deletes, and change annotations.
/// Servers should prefer `document_changes` when the client advertises
/// `workspace.workspaceEdit.documentChanges`.
#[derive(Debug, Clone, PartialEq, Default)]
pub struct WorkspaceEdit {
    /// Per-document lists of edits to apply (the simple form).
    pub changes: Option<HashMap<Uri, Vec<TextEdit>>>,
    /// Ordered document edits and file operations (the rich form). Applied
    /// in order; a versioned edit lets the client refuse edits computed
    /// against stale text.
    pub document_changes: Option<Vec<DocumentChange>>,
    /// Descriptions for the annotation ids referenced by annotated edits
    /// and file operations, keyed by id (LSP 3.16).
    pub change_annotations: Option<HashMap<String, ChangeAnnotation>>,
    /// Any additional fields not modelled above.
    pub extra: serde_json::Map<String, serde_json::Value>,
}

impl WorkspaceEdit {
    /// An edit of one document, in the simple `changes` form: the only
    /// entry maps `uri` to `edits`. (Whether the map reports that entry
    /// rests on the key model of [`Uri`] hashing.)
    pub fn for_document(uri: Uri, edits: Vec<TextEdit>) -> (r: Self)
        ensures
            r.changes is Some,
            vstd::std_specs::hash::obeys_key_model::<Uri>() ==> r.changes->0@ == map![uri => edits],
            r.document_changes is None,
            r.change_annotations is None,
    {
        let mut changes: HashMap<Uri, Vec<TextEdit>> = HashMap::new();
        changes.insert(uri, edits);
        WorkspaceEdit {
            changes: Some(changes),
            document_changes: None,
            change_annotations: None,
            extra: empty_json_object(),
        }
    }

    /// An edit given as ordered document changes (text edits and file
    /// operations).
    pub fn with_document_changes(document_changes: Vec<DocumentChange>) -> (r: Self)
        ensures
            r.changes is None,
            r.document_changes == Some(document_changes),
            r.change_annotations is None,
    {
        WorkspaceEdit {
            changes: None,
            document_changes: Some(document_changes),
            change_annotations: None,
            extra: empty_json_object(),
        }
    }
}

/// One entry of [`WorkspaceEdit::document_changes`]: a textual edit to an
/// (optionally versioned) document, or a file create/rename/delete.
#[derive(Debug, Clone, PartialEq)]
pub enum DocumentChange {
    /// Textual edits to one document.
    Edit(TextDocumentEdit),
    /// A file create/rename/delete operation.
    Operation(ResourceOperation),
}

impl From<TextDocumentEdit> for DocumentChange {
    fn from(edit: TextDocumentEdit) -> (r: Self) {
        DocumentChange::Edit(edit)
    }
}

impl vstd::std_specs::convert::FromSpecImpl<TextDocumentEdit> for DocumentChange {
    open spec fn obeys_from_spec() -> bool {
        true
    }

    open spec fn from_spec(edit: TextDocumentEdit) -> Self {
        DocumentChange::Edit(edit)
    }
}

impl From<ResourceOperation> for DocumentChange {
    fn from(op: ResourceOperation) -> (r: Self) {
        DocumentChange::Operation(op)
    }
}

impl vstd::std_specs::convert::FromSpecImpl<ResourceOperation> for DocumentChange {
    open spec fn obeys_from_spec() -> bool {
        true
    }

    open spec fn from_spec(op: ResourceOperation) -> Self {
        DocumentChange::Operation(op)
    }
}

/// Textual edits scoped to one document, optionally pinned to the version
/// they were computed against.
#[derive(Debug, Clone, PartialEq)]
pub struct TextDocumentEdit {
    /// The document (and expected version) the edits apply to.
    pub text_document: OptionalVersionedTextDocumentIdentifier,
    /// The edits, possibly annotated.
    pub edits: Vec<AnnotatedTextEdit>,
}

impl TextDocumentEdit {
    /// Edits of the document `uri` at `version` (`None`: any version), each
    /// without a change annotation.
    pub fn new(uri: Uri, version: Option<i32>, edits: Vec<TextEdit>) -> (r: Self)
        ensures
            r.text_document == (OptionalVersionedTextDocumentIdentifier { uri, version }),
            r.edits@.len() == edits@.len(),
            forall|i: int|
                0 <= i < edits@.len() ==> #[trigger] r.edits@[i] == annotated_edit(
                    edits@[i],
                ),
    {
        let mut annotated: Vec<AnnotatedTextEdit> = Vec::new();
        let mut rest = edits;
        let ghost all = rest@;
        while rest.len() > 0
            invariant
                annotated@.len() + rest@.len() == all.len(),
                rest@ == all.skip(annotated@.len() as int),
                forall|i: int|
                    0 <= i < annotated@.len() ==> #[trigger] annotated@[i]
                        == annotated_edit(all[i]),
            decreases rest@.len(),
        {
            let edit = rest.remove(0);
            proof {
                assert(edit == all[annotated@.len() as int]);
                assert(rest@ =~= all.skip(annotated@.len() + 1int));
            }
            annotated.push(AnnotatedTextEdit::from(edit));
        }
        TextDocumentEdit {
            text_document: OptionalVersionedTextDocumentIdentifier { uri, version },
            edits: annotated,
        }
    }
}

/// Identifies a document plus the version an edit expects it to be at;
/// `version: None` (JSON `null`) means "apply regardless of version".
#[derive(Debug, Clone, PartialEq, Eq, Hash)]
pub struct OptionalVersionedTextDocumentIdentifier {
    /// The document URI.
    pub uri: Uri,
    /// The expected version, or `None` to skip the check. Required on the
    /// wire (as `null` when absent), per the spec.
    pub version: Option<i32>,
}

/// A [`TextEdit`] optionally tagged with a change-annotation id (LSP 3.16).
/// With no id it is wire-identical to a plain `TextEdit`.
#[derive(Debug, Clone, PartialEq, Eq)]
pub struct AnnotatedTextEdit {
    /// The range to replace.
    pub range: Range,
    /// The replacement text.
    pub new_text: String,
    /// The id of a [`ChangeAnnotation`] in
    /// [`WorkspaceEdit::change_annotations`] describing this edit.
    pub annotation_id: Option<String>,
}

impl From<TextEdit> for AnnotatedTextEdit {
    fn from(edit: TextEdit) -> (r: Self) {
        AnnotatedTextEdit { range: edit.range, new_text: edit.new_text, annotation_id: None }
    }
}

/// A text edit without a change annotation.
pub open spec fn annotated_edit(edit: TextEdit) -> AnnotatedTextEdit {
    AnnotatedTextEdit { range: edit.range, new_text: edit.new_text, annotation_id: None }
}

impl vstd::std_specs::convert::FromSpecImpl<TextEdit> for AnnotatedTextEdit {
    open spec fn obeys_from_spec() -> bool {
        true
    }

    open spec fn from_spec(edit: TextEdit) -> Self {
        AnnotatedTextEdit { range: edit.range, new_text: edit.new_text, annotation_id: None }
    }
}

/// A file create/rename/delete inside [`WorkspaceEdit::document_changes`],
/// discriminated on the wire by its `kind` field.
#[derive(Debug, Clone, PartialEq)]
pub enum ResourceOperation {
    /// Create a new file.
    Create(CreateFile),
    /// Rename a file.
    Rename(RenameFile),
    /// Delete a file.
    Delete(DeleteFile),
}

/// Create a file as part of a [`WorkspaceEdit`].
#[derive(Debug, Clone, PartialEq)]
pub struct CreateFile {
    /// The file to create.
    pub uri: Uri,
    /// Behaviour when the file already exists.
    pub options: Option<CreateFileOptions>,
    /// The id of a [`ChangeAnnotation`] describing this operation.
    pub annotation_id: Option<String>,
}

/// Options of a [`CreateFile`] operation.
#[derive(Debug, Clone, Copy, PartialEq, Eq, Default)]
pub struct CreateFileOptions {
    /// Overwrite an existing file. Wins over `ignore_if_exists`.
    pub overwrite: Option<bool>,
    /// Do nothing if the file already exists.
    pub ignore_if_exists: Option<bool>,
}

/// Rename a file as part of a [`WorkspaceEdit`].
#[derive(Debug, Clone, PartialEq)]
pub struct RenameFile {
    /// The file to rename.
    pub old_uri: Uri,
    /// The new location.
    pub new_uri: Uri,
    /// Behaviour when the target already exists.
    pub options: Option<CreateFileOptions>,
    /// The id of a [`ChangeAnnotation`] describing this operation.
    pub annotation_id: Option<String>,
}

/// Delete a file as part of a [`WorkspaceEdit`].
#[derive(Debug, Clone, PartialEq)]
pub struct DeleteFile {
    /// The file to delete.
    pub uri: Uri,
    /// Behaviour for folders and missing files.
    pub options: Option<DeleteFileOptions>,
    /// The id of a [`ChangeAnnotation`] describing this operation.
    pub annotation_id: Option<String>,
}

/// Options of a [`DeleteFile`] operation.
#[derive(Debug, Clone, Copy, PartialEq, Eq, Default)]
pub struct DeleteFileOptions {
    /// Delete folder contents recursively.
    pub recursive: Option<bool>,
    /// Do nothing if the file does not exist.
    pub ignore_if_not_exists: Option<bool>,
}

/// A description of a group of changes within a [`WorkspaceEdit`]
/// (LSP 3.16), shown by clients that let the user confirm edits.
#[derive(Debug, Clone, PartialEq, Eq)]
pub struct ChangeAnnotation {
    /// A human-readable label for the change group.
    pub label: String,
    /// Whether the client should ask the user to confirm before applying.
    pub needs_confirmation: Option<bool>,
    /// A longer description of the change.
    pub description: Option<String>,
}

/// Parameters of the server-to-client `workspace/applyEdit` request.
#[derive(Debug, Clone, PartialEq, Default)]
pub struct ApplyWorkspaceEditParams {
    /// An optional label describing the edit, for undo history.
    pub label: Option<String>,
    /// The edit to apply.
    pub edit: WorkspaceEdit,
}

/// Result of a `workspace/applyEdit` request.
#[derive(Debug, Clone, PartialEq, Eq, Default)]
pub struct ApplyWorkspaceEditResult {
    /// Whether the edit was applied. May be `false` if the client rejected
    /// it or a document's content did not match expectations.
    pub applied: bool,
    /// A human-readable explanation when `applied` is `false`.
    pub failure_reason: Option<String>,
    /// The index of the change that failed to apply, if identifiable.
    pub failed_change: Option<u32>,
}

/// Parameters of the `workspace/didChangeConfiguration` notification.
#[derive(Debug, Clone, PartialEq)]
pub struct DidChangeConfigurationParams {
    /// The new configuration settings. The shape is entirely server-defined,
    /// so it round-trips as raw JSON.
    pub settings: serde_json::Value,
}

/// Parameters of the `workspace/didChangeWatchedFiles` notification.
#[derive(Debug, Clone, PartialEq, Eq)]
pub struct DidChangeWatchedFilesParams {
    /// The files that changed.
    pub changes: Vec<FileEvent>,
}

/// One watched file's change.
#[derive(Debug, Clone, PartialEq, Eq)]
pub struct FileEvent {
    /// The file's URI.
    pub uri: Uri,
    /// How the file changed.
    pub typ: FileChangeType,
}

/// Parameters of the `workspace/executeCommand` request.
#[derive(Debug, Clone, PartialEq)]
pub struct ExecuteCommandParams {
    /// The command identifier, one of the strings the server advertised in
    /// [`ExecuteCommandOptions::commands`].
    pub command: String,
    /// Arguments for the command, if any.
    pub arguments: Option<Vec<serde_json::Value>>,
}

/// Options describing the server's `workspace/executeCommand` support,
/// advertised in [`crate::lsp::ServerCapabilities::execute_command_provider`].
#[derive(Debug, Clone, PartialEq, Eq, Default)]
pub struct ExecuteCommandOptions {
    /// The command identifiers the server accepts.
    pub commands: Vec<String>,
}

} // verus!

