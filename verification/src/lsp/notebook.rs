//! `notebookDocument/didOpen`/`didChange`/`didSave`/`didClose` types (LSP
//! 3.17): synchronising a notebook (an ordered list of cells, each backed by
//! its own text document) rather than a single flat document.
//!
//! A notebook's cells are also opened/closed as ordinary text documents
//! (their URIs appear in [`DidOpenNotebookDocumentParams::cell_text_documents`]
//! and [`DidCloseNotebookDocumentParams::cell_text_documents`]), so
//! `textDocument/*` requests against a cell work unchanged; these types only
//! cover the notebook-level structure layered on top.

use super::base::{TextDocumentIdentifier, TextDocumentItem, Uri, VersionedTextDocumentIdentifier};
use super::document::TextDocumentContentChangeEvent;
use super::enums::NotebookCellKind;
use vstd::prelude::*;

verus! {

/// A single cell within a [`NotebookDocument`].
#[derive(Debug, Clone, PartialEq)]
pub struct NotebookCell {
    /// Whether this is a markup or code cell.
    pub kind: NotebookCellKind,
    /// The URI of the text document backing this cell's content.
    pub document: Uri,
    /// Cell-specific metadata.
    pub metadata: Option<serde_json::Map<String, serde_json::Value>>,
    /// The result of the most recent execution of this cell, if any.
    pub execution_summary: Option<ExecutionSummary>,
}

/// The result of executing a [`NotebookCell`].
#[derive(Debug, Clone, Copy, PartialEq)]
pub struct ExecutionSummary {
    /// The cell's execution order among all cells executed so far.
    pub execution_order: u32,
    /// Whether the execution succeeded.
    pub success: Option<bool>,
}

/// A notebook document: an ordered list of cells plus notebook-level
/// metadata, identified by its own URI distinct from any cell's.
#[derive(Debug, Clone, PartialEq)]
pub struct NotebookDocument {
    /// The notebook document's URI.
    pub uri: Uri,
    /// The notebook type, e.g. `"jupyter-notebook"`.
    pub notebook_type: String,
    /// The notebook's version, incremented on every change.
    pub version: i32,
    /// Notebook-level metadata.
    pub metadata: Option<serde_json::Map<String, serde_json::Value>>,
    /// The notebook's cells, in display order.
    pub cells: Vec<NotebookCell>,
}

/// Identifies a notebook document by URI alone, without its version or
/// cells — used where the full [`NotebookDocument`] isn't needed (e.g.
/// `didSave`/`didClose`).
#[derive(Debug, Clone, PartialEq, Eq)]
pub struct NotebookDocumentIdentifier {
    /// The notebook document's URI.
    pub uri: Uri,
}

/// Identifies a notebook document by URI and version, without its cells —
/// used by `didChange`, which carries the cell delta separately.
#[derive(Debug, Clone, PartialEq, Eq)]
pub struct VersionedNotebookDocumentIdentifier {
    /// The notebook document's version, after the change it accompanies.
    pub version: i32,
    /// The notebook document's URI.
    pub uri: Uri,
}

/// Parameters of `notebookDocument/didOpen`.
#[derive(Debug, Clone, PartialEq)]
pub struct DidOpenNotebookDocumentParams {
    /// The notebook that was opened.
    pub notebook_document: NotebookDocument,
    /// The text documents backing each of the notebook's cells, opened
    /// alongside the notebook itself.
    pub cell_text_documents: Vec<TextDocumentItem>,
}

/// Parameters of `notebookDocument/didChange`.
#[derive(Debug, Clone, PartialEq)]
pub struct DidChangeNotebookDocumentParams {
    /// The notebook that changed, and its new version.
    pub notebook_document: VersionedNotebookDocumentIdentifier,
    /// The change itself.
    pub change: NotebookDocumentChangeEvent,
}

/// Parameters of `notebookDocument/didSave`.
#[derive(Debug, Clone, PartialEq, Eq)]
pub struct DidSaveNotebookDocumentParams {
    /// The notebook that was saved.
    pub notebook_document: NotebookDocumentIdentifier,
}

/// Parameters of `notebookDocument/didClose`.
#[derive(Debug, Clone, PartialEq, Eq)]
pub struct DidCloseNotebookDocumentParams {
    /// The notebook that was closed.
    pub notebook_document: NotebookDocumentIdentifier,
    /// The text documents backing each of the notebook's cells, closed
    /// alongside the notebook itself.
    pub cell_text_documents: Vec<TextDocumentIdentifier>,
}

/// The change carried by a `notebookDocument/didChange` notification: any
/// combination of notebook-level metadata, cell structure (added/removed/
/// reordered cells), cell-level metadata, and cell text content.
#[derive(Debug, Clone, PartialEq, Default)]
pub struct NotebookDocumentChangeEvent {
    /// The notebook's new metadata, if it changed.
    pub metadata: Option<serde_json::Map<String, serde_json::Value>>,
    /// Changes to the notebook's cells, if any.
    pub cells: Option<NotebookDocumentCellChanges>,
}

/// The cell-related portion of a [`NotebookDocumentChangeEvent`].
#[derive(Debug, Clone, PartialEq, Default)]
pub struct NotebookDocumentCellChanges {
    /// Cells added, removed, or reordered, and the text documents opened or
    /// closed as a result.
    pub structure: Option<NotebookDocumentCellStructureChange>,
    /// Cells whose own data (e.g. metadata) changed, without a structural
    /// change to the notebook.
    pub data: Option<Vec<NotebookCell>>,
    /// Text content changes within cells, addressed by each cell's own
    /// document URI and version.
    pub text_content: Option<Vec<NotebookCellTextContentChange>>,
}

/// A structural change to a notebook's cell list: `array` describes the
/// splice (matching [`Vec::splice`]'s `start`/`delete_count`/insert shape),
/// while `did_open`/`did_close` carry the text documents that were opened or
/// closed as a result — cells inserted here are also opened as text
/// documents, and cells removed here are also closed.
#[derive(Debug, Clone, PartialEq)]
pub struct NotebookDocumentCellStructureChange {
    /// The splice into the notebook's cell array.
    pub array: NotebookCellArrayChange,
    /// Text documents opened for any newly inserted cells.
    pub did_open: Option<Vec<TextDocumentItem>>,
    /// Text documents closed for any removed cells.
    pub did_close: Option<Vec<TextDocumentIdentifier>>,
}

/// A splice into a notebook's cell array: remove `delete_count` cells
/// starting at `start`, then insert `cells` (if any) in their place.
#[derive(Debug, Clone, PartialEq)]
pub struct NotebookCellArrayChange {
    /// The index of the first removed cell.
    pub start: u32,
    /// How many cells starting at `start` were removed.
    pub delete_count: u32,
    /// Cells inserted at `start` in their place, if any.
    pub cells: Option<Vec<NotebookCell>>,
}

/// A text content change within one cell's backing document.
#[derive(Debug, Clone, PartialEq)]
pub struct NotebookCellTextContentChange {
    /// The cell's text document and its new version.
    pub document: VersionedTextDocumentIdentifier,
    /// The edits to apply, in the same shape as `textDocument/didChange`.
    pub changes: Vec<TextDocumentContentChangeEvent>,
}

/// Options describing the server's notebook-document sync support.
#[derive(Debug, Clone, PartialEq, Default)]
pub struct NotebookDocumentSyncOptions {
    /// Which notebooks/cells this registration applies to. Kept as raw JSON
    /// — the spec's `NotebookDocumentFilterWithNotebook |
    /// NotebookDocumentFilterWithCells` union is deep and rarely branched on
    /// by servers; build entries with `serde_json::json!`, e.g.
    /// `json!({"notebookType": "jupyter-notebook"})`.
    pub notebook_selector: Vec<serde_json::Value>,
    /// Whether the server wants `notebookDocument/didSave` notifications.
    pub save: Option<bool>,
}

} // verus!

