//! `textDocument/moniker` types (LSP 3.16): stable symbol identifiers that
//! let tools correlate symbols across index formats (e.g. LSIF/SCIP) and
//! across projects.

use super::base::TextDocumentPositionParams;
use super::progress::{PartialResultParams, WorkDoneProgressParams};
use vstd::prelude::*;

verus! {

/// Parameters of `textDocument/moniker`.
#[derive(Debug, Clone, PartialEq, Eq)]
pub struct MonikerParams {
    pub text_document_position: TextDocumentPositionParams,
    pub work_done: WorkDoneProgressParams,
    pub partial_result: PartialResultParams,
}

/// How unique a moniker's identifier is.
#[derive(Debug, Clone, Copy, PartialEq, Eq)]
pub enum UniquenessLevel {
    /// Unique within the containing document only.
    Document,
    /// Unique within the containing project.
    Project,
    /// Unique within the publishing group (e.g. all projects of an org).
    Group,
    /// Unique within the moniker's scheme.
    Scheme,
    /// Globally unique.
    Global,
}

/// Whether the moniker names a symbol imported into, exported from, or local
/// to the project.
#[derive(Debug, Clone, Copy, PartialEq, Eq)]
pub enum MonikerKind {
    /// The moniker names a symbol imported into the project.
    Import,
    /// The moniker names a symbol exported from the project.
    Export,
    /// The moniker names a symbol local to the project (e.g. a local
    /// variable, made available for cross-document navigation only).
    Local,
}

/// A moniker: a stable, scheme-qualified identifier for a symbol.
#[derive(Debug, Clone, PartialEq, Eq)]
pub struct Moniker {
    /// The scheme the identifier is drawn from (e.g. `"tsc"`, `".NET"`).
    pub scheme: String,
    /// The identifier itself; opaque, interpreted within `scheme`.
    pub identifier: String,
    /// How unique the identifier is.
    pub unique: UniquenessLevel,
    /// Whether the symbol is imported, exported, or local.
    pub kind: Option<MonikerKind>,
}

} // verus!

