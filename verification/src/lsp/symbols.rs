//! `textDocument/documentSymbol` and `workspace/symbol` types.

use super::base::{Location, Range, TextDocumentIdentifier, Uri};
use super::enums::{SymbolKind, SymbolTag};
use super::progress::{PartialResultParams, WorkDoneProgressParams};
use vstd::prelude::*;

verus! {

/// Parameters of `textDocument/documentSymbol`.
#[derive(Debug, Clone, PartialEq, Eq)]
pub struct DocumentSymbolParams {
    /// The document to list symbols for.
    pub text_document: TextDocumentIdentifier,
    pub work_done: WorkDoneProgressParams,
    pub partial_result: PartialResultParams,
}

/// The result of a `textDocument/documentSymbol` request: either the modern
/// hierarchical form ([`DocumentSymbol`], preferred — nests methods inside
/// classes, etc.) or the older flat form ([`SymbolInformation`]).
#[derive(Debug, PartialEq)]
pub enum DocumentSymbolResponse {
    /// Hierarchical symbols, nested via [`DocumentSymbol::children`].
    Nested(Vec<DocumentSymbol>),
    /// A flat list of symbols, each with its own [`Location`].
    Flat(Vec<SymbolInformation>),
}

impl From<Vec<DocumentSymbol>> for DocumentSymbolResponse {
    fn from(symbols: Vec<DocumentSymbol>) -> (r: Self) {
        DocumentSymbolResponse::Nested(symbols)
    }
}

impl vstd::std_specs::convert::FromSpecImpl<Vec<DocumentSymbol>> for DocumentSymbolResponse {
    open spec fn obeys_from_spec() -> bool {
        true
    }

    open spec fn from_spec(symbols: Vec<DocumentSymbol>) -> Self {
        DocumentSymbolResponse::Nested(symbols)
    }
}

impl From<Vec<SymbolInformation>> for DocumentSymbolResponse {
    fn from(symbols: Vec<SymbolInformation>) -> (r: Self) {
        DocumentSymbolResponse::Flat(symbols)
    }
}

impl vstd::std_specs::convert::FromSpecImpl<Vec<SymbolInformation>> for DocumentSymbolResponse {
    open spec fn obeys_from_spec() -> bool {
        true
    }

    open spec fn from_spec(symbols: Vec<SymbolInformation>) -> Self {
        DocumentSymbolResponse::Flat(symbols)
    }
}

/// A symbol within a document, optionally nesting child symbols (e.g. a
/// class's methods and fields).
#[derive(Debug, PartialEq)]
pub struct DocumentSymbol {
    /// The symbol's name.
    pub name: String,
    /// Additional detail, e.g. a function's signature.
    pub detail: Option<String>,
    /// The symbol's kind.
    pub kind: SymbolKind,
    /// Tags qualifying the symbol (e.g. deprecated) — the modern form
    /// clients render (LSP 3.16).
    pub tags: Option<Vec<SymbolTag>>,
    /// Whether the symbol is deprecated. Prefer `tags` where the client
    /// supports it; kept for older clients.
    pub deprecated: Option<bool>,
    /// The symbol's full range (e.g. a function's entire body), used for
    /// operations like "expand selection".
    pub range: Range,
    /// The range that should be selected/highlighted when navigating to this
    /// symbol (typically just its name), a sub-range of [`range`](Self::range).
    pub selection_range: Range,
    /// Nested child symbols.
    pub children: Option<Vec<DocumentSymbol>>,
}

impl DocumentSymbol {
    /// A symbol with its name, kind, full range and selection range; no
    /// detail, tags or children.
    pub fn new(name: &str, kind: SymbolKind, range: Range, selection_range: Range) -> (r: Self)
        ensures
            r.name@ == name@,
            r.detail is None,
            r.kind == kind,
            r.tags is None,
            r.deprecated is None,
            r.range == range,
            r.selection_range == selection_range,
            r.children is None,
    {
        DocumentSymbol {
            name: name.to_owned(),
            detail: None,
            kind,
            tags: None,
            deprecated: None,
            range,
            selection_range,
            children: None,
        }
    }
}

/// A symbol anchored to a specific document location — the flat,
/// non-hierarchical symbol representation used by both
/// `textDocument/documentSymbol` (older clients) and `workspace/symbol`.
#[derive(Debug, Clone, PartialEq)]
pub struct SymbolInformation {
    /// The symbol's name.
    pub name: String,
    /// The symbol's kind.
    pub kind: SymbolKind,
    /// Tags qualifying the symbol (e.g. deprecated), preferred over
    /// `deprecated` by modern clients (LSP 3.16).
    pub tags: Option<Vec<SymbolTag>>,
    /// Whether the symbol is deprecated.
    pub deprecated: Option<bool>,
    /// The symbol's location.
    pub location: Location,
    /// The name of the symbol containing this one (e.g. a method's class),
    /// if any.
    pub container_name: Option<String>,
}

impl SymbolInformation {
    /// A flat symbol with its name, kind and location.
    pub fn new(name: &str, kind: SymbolKind, location: Location) -> (r: Self)
        ensures
            r.name@ == name@,
            r.kind == kind,
            r.tags is None,
            r.deprecated is None,
            r.location == location,
            r.container_name is None,
    {
        SymbolInformation {
            name: name.to_owned(),
            kind,
            tags: None,
            deprecated: None,
            location,
            container_name: None,
        }
    }
}

/// Parameters of `workspace/symbol`.
#[derive(Debug, Clone, PartialEq, Eq)]
pub struct WorkspaceSymbolParams {
    /// The user's search query. An empty string requests all symbols the
    /// server is willing to return.
    pub query: String,
    pub work_done: WorkDoneProgressParams,
    pub partial_result: PartialResultParams,
}

/// Result of `workspace/symbol`: either the pre-3.17 flat
/// [`SymbolInformation`] list or the 3.17 [`WorkspaceSymbol`] list (which
/// supports lazy range resolution via `workspaceSymbol/resolve`).
#[derive(Debug, Clone, PartialEq)]
pub enum WorkspaceSymbolResponse {
    /// The pre-3.17 form.
    Flat(Vec<SymbolInformation>),
    /// The 3.17 form, resolvable via `workspaceSymbol/resolve`.
    Full(Vec<WorkspaceSymbol>),
}

impl From<Vec<SymbolInformation>> for WorkspaceSymbolResponse {
    fn from(symbols: Vec<SymbolInformation>) -> (r: Self) {
        WorkspaceSymbolResponse::Flat(symbols)
    }
}

impl vstd::std_specs::convert::FromSpecImpl<Vec<SymbolInformation>> for WorkspaceSymbolResponse {
    open spec fn obeys_from_spec() -> bool {
        true
    }

    open spec fn from_spec(symbols: Vec<SymbolInformation>) -> Self {
        WorkspaceSymbolResponse::Flat(symbols)
    }
}

impl From<Vec<WorkspaceSymbol>> for WorkspaceSymbolResponse {
    fn from(symbols: Vec<WorkspaceSymbol>) -> (r: Self) {
        WorkspaceSymbolResponse::Full(symbols)
    }
}

impl vstd::std_specs::convert::FromSpecImpl<Vec<WorkspaceSymbol>> for WorkspaceSymbolResponse {
    open spec fn obeys_from_spec() -> bool {
        true
    }

    open spec fn from_spec(symbols: Vec<WorkspaceSymbol>) -> Self {
        WorkspaceSymbolResponse::Full(symbols)
    }
}

/// A workspace symbol (LSP 3.17). Unlike [`SymbolInformation`], its location
/// may initially carry only a URI, with the precise range filled in later by
/// `workspaceSymbol/resolve`.
#[derive(Debug, Clone, PartialEq)]
pub struct WorkspaceSymbol {
    /// The symbol's name.
    pub name: String,
    /// The symbol's kind.
    pub kind: SymbolKind,
    /// Tags qualifying the symbol (e.g. deprecated).
    pub tags: Option<Vec<SymbolTag>>,
    /// The name of the symbol containing this one, if any.
    pub container_name: Option<String>,
    /// Where the symbol lives; may be URI-only until resolved.
    pub location: WorkspaceSymbolLocation,
    /// Opaque data round-tripped through `workspaceSymbol/resolve`.
    pub data: Option<serde_json::Value>,
}

impl WorkspaceSymbol {
    /// A workspace symbol with its name, kind and location.
    pub fn new(name: &str, kind: SymbolKind, location: WorkspaceSymbolLocation) -> (r: Self)
        ensures
            r.name@ == name@,
            r.kind == kind,
            r.tags is None,
            r.container_name is None,
            r.location == location,
            r.data is None,
    {
        WorkspaceSymbol {
            name: name.to_owned(),
            kind,
            tags: None,
            container_name: None,
            location,
            data: None,
        }
    }
}

/// A [`WorkspaceSymbol`]'s location: a full [`Location`], or just a document
/// URI for servers that resolve the range lazily.
#[derive(Debug, Clone, PartialEq, Eq)]
pub enum WorkspaceSymbolLocation {
    /// A full location (URI + range).
    Full(Location),
    /// A URI-only location; the range arrives via `workspaceSymbol/resolve`.
    UriOnly {
        /// The document URI.
        uri: Uri,
    },
}

impl From<Location> for WorkspaceSymbolLocation {
    fn from(location: Location) -> (r: Self) {
        WorkspaceSymbolLocation::Full(location)
    }
}

impl vstd::std_specs::convert::FromSpecImpl<Location> for WorkspaceSymbolLocation {
    open spec fn obeys_from_spec() -> bool {
        true
    }

    open spec fn from_spec(location: Location) -> Self {
        WorkspaceSymbolLocation::Full(location)
    }
}

impl From<Uri> for WorkspaceSymbolLocation {
    fn from(uri: Uri) -> (r: Self) {
        WorkspaceSymbolLocation::UriOnly { uri }
    }
}

impl vstd::std_specs::convert::FromSpecImpl<Uri> for WorkspaceSymbolLocation {
    open spec fn obeys_from_spec() -> bool {
        true
    }

    open spec fn from_spec(uri: Uri) -> Self {
        WorkspaceSymbolLocation::UriOnly { uri }
    }
}



/// Options describing the server's `workspace/symbol` support, advertised in
/// [`crate::lsp::ServerCapabilities::workspace_symbol_provider`].
#[derive(Debug, Clone, Copy, PartialEq, Eq, Default)]
pub struct WorkspaceSymbolOptions {
    /// Whether the server resolves ranges lazily via
    /// `workspaceSymbol/resolve`.
    pub resolve_provider: Option<bool>,
}

} // verus!

