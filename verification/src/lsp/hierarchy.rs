//! `textDocument/prepareCallHierarchy`, `callHierarchy/incomingCalls`,
//! `callHierarchy/outgoingCalls`, `textDocument/prepareTypeHierarchy`,
//! `typeHierarchy/supertypes`, and `typeHierarchy/subtypes` types (LSP 3.16+
//! for call hierarchy, 3.17+ for type hierarchy).
//!
//! Both hierarchies follow the same two-step shape: a `prepare*` request
//! anchored at a text position returns the item(s) under the cursor, then
//! `incomingCalls`/`outgoingCalls` (or `supertypes`/`subtypes`) walk the
//! hierarchy from a previously returned item.

use super::base::{Range, TextDocumentPositionParams, Uri};
use super::enums::{SymbolKind, SymbolTag};
use super::progress::{PartialResultParams, WorkDoneProgressParams};
use vstd::prelude::*;

verus! {

/// Parameters of `textDocument/prepareCallHierarchy`.
#[derive(Debug, Clone, PartialEq, Eq)]
pub struct CallHierarchyPrepareParams {
    pub text_document_position: TextDocumentPositionParams,
    pub work_done: WorkDoneProgressParams,
}

/// One symbol reachable through the call hierarchy: returned by
/// `prepareCallHierarchy` and carried in [`CallHierarchyIncomingCall::from`]
/// / [`CallHierarchyOutgoingCall::to`].
#[derive(Debug, Clone, PartialEq)]
pub struct CallHierarchyItem {
    /// The symbol's name.
    pub name: String,
    /// The symbol's kind.
    pub kind: SymbolKind,
    /// Extra tags for this symbol (e.g. deprecated).
    pub tags: Vec<SymbolTag>,
    /// Additional detail, e.g. the symbol's signature.
    pub detail: Option<String>,
    /// The document containing the symbol.
    pub uri: Uri,
    /// The symbol's full range (e.g. a function's entire body).
    pub range: Range,
    /// The range that should be selected/highlighted when navigating to this
    /// symbol, a sub-range of [`range`](Self::range).
    pub selection_range: Range,
    /// Opaque data round-tripped back on `incomingCalls`/`outgoingCalls`
    /// requests for this item, useful for avoiding a second lookup.
    pub data: Option<serde_json::Value>,
}

/// Parameters of `callHierarchy/incomingCalls`.
#[derive(Debug, Clone, PartialEq)]
pub struct CallHierarchyIncomingCallsParams {
    /// The item to find callers of.
    pub item: CallHierarchyItem,
    pub work_done: WorkDoneProgressParams,
    pub partial_result: PartialResultParams,
}

/// One caller of the item requested via [`CallHierarchyIncomingCallsParams`].
#[derive(Debug, Clone, PartialEq)]
pub struct CallHierarchyIncomingCall {
    /// The calling symbol.
    pub from: CallHierarchyItem,
    /// The ranges at which `from` calls the requested item; usually one, but
    /// a symbol may call it more than once.
    pub from_ranges: Vec<Range>,
}

/// Parameters of `callHierarchy/outgoingCalls`.
#[derive(Debug, Clone, PartialEq)]
pub struct CallHierarchyOutgoingCallsParams {
    /// The item to find callees of.
    pub item: CallHierarchyItem,
    pub work_done: WorkDoneProgressParams,
    pub partial_result: PartialResultParams,
}

/// One callee of the item requested via [`CallHierarchyOutgoingCallsParams`].
#[derive(Debug, Clone, PartialEq)]
pub struct CallHierarchyOutgoingCall {
    /// The called symbol.
    pub to: CallHierarchyItem,
    /// The ranges at which the requested item calls `to`.
    pub from_ranges: Vec<Range>,
}

/// Parameters of `textDocument/prepareTypeHierarchy`.
#[derive(Debug, Clone, PartialEq, Eq)]
pub struct TypeHierarchyPrepareParams {
    pub text_document_position: TextDocumentPositionParams,
    pub work_done: WorkDoneProgressParams,
}

/// One symbol reachable through the type hierarchy: returned by
/// `prepareTypeHierarchy` and carried in `supertypes`/`subtypes` requests
/// and results.
#[derive(Debug, Clone, PartialEq)]
pub struct TypeHierarchyItem {
    /// The type's name.
    pub name: String,
    /// The type's kind.
    pub kind: SymbolKind,
    /// Extra tags for this type (e.g. deprecated).
    pub tags: Vec<SymbolTag>,
    /// Additional detail, e.g. the type's fully qualified name.
    pub detail: Option<String>,
    /// The document containing the type.
    pub uri: Uri,
    /// The type's full range (e.g. the whole class body).
    pub range: Range,
    /// The range that should be selected/highlighted when navigating to this
    /// type, a sub-range of [`range`](Self::range).
    pub selection_range: Range,
    /// Opaque data round-tripped back on `supertypes`/`subtypes` requests for
    /// this item, useful for avoiding a second lookup.
    pub data: Option<serde_json::Value>,
}

/// Parameters of `typeHierarchy/supertypes`.
#[derive(Debug, Clone, PartialEq)]
pub struct TypeHierarchySupertypesParams {
    /// The item to find supertypes of.
    pub item: TypeHierarchyItem,
    pub work_done: WorkDoneProgressParams,
    pub partial_result: PartialResultParams,
}

/// Parameters of `typeHierarchy/subtypes`.
#[derive(Debug, Clone, PartialEq)]
pub struct TypeHierarchySubtypesParams {
    /// The item to find subtypes of.
    pub item: TypeHierarchyItem,
    pub work_done: WorkDoneProgressParams,
    pub partial_result: PartialResultParams,
}

/// Options describing the server's call-hierarchy support.
#[derive(Debug, Clone, Copy, PartialEq, Eq, Default)]
pub struct CallHierarchyOptions {
    /// Whether the server reports work-done progress for this provider.
    pub work_done_progress: Option<bool>,
}

/// Options describing the server's type-hierarchy support.
#[derive(Debug, Clone, Copy, PartialEq, Eq, Default)]
pub struct TypeHierarchyOptions {
    /// Whether the server reports work-done progress for this provider.
    pub work_done_progress: Option<bool>,
}

} // verus!

