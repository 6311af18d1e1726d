//! `client/registerCapability` and `client/unregisterCapability` types —
//! lets a server register interest in a method after `initialize` (e.g.
//! scoped to a `documentSelector`) instead of only declaring capabilities
//! statically in [`crate::lsp::ServerCapabilities`].

use super::base::Uri;
use super::diagnostics::DiagnosticOptions;
use super::hierarchy::{CallHierarchyOptions, TypeHierarchyOptions};
use super::semantic_tokens::SemanticTokensOptions;
use vstd::prelude::*;

pub mod watch_kind;

verus! {

/// One capability registration.
#[derive(Debug, Clone, PartialEq)]
pub struct Registration {
    /// An id for this registration, unique among this server's active
    /// registrations, used to unregister it later.
    pub id: String,
    /// The method being registered for, e.g. `"textDocument/formatting"`.
    pub method: String,
    /// Method-specific registration options (e.g. a `documentSelector`),
    /// if any.
    pub register_options: Option<serde_json::Value>,
}

impl Registration {
    /// Build a registration from its parts.
    pub fn new(id: &str, method: &str, register_options: Option<serde_json::Value>) -> (r: Self)
        ensures
            r.id@ == id@,
            r.method@ == method@,
            r.register_options == register_options,
    {
        Registration { id: id.to_owned(), method: method.to_owned(), register_options }
    }
}

/// Parameters of `client/registerCapability`.
#[derive(Debug, Clone, PartialEq)]
pub struct RegistrationParams {
    /// The registrations to add.
    pub registrations: Vec<Registration>,
}

/// One capability unregistration, referencing an earlier
/// [`Registration::id`].
#[derive(Debug, Clone, PartialEq, Eq)]
pub struct Unregistration {
    /// The [`Registration::id`] to undo.
    pub id: String,
    /// The method that was registered for.
    pub method: String,
}

/// Parameters of `client/unregisterCapability`.
///
/// The `unregisterations` field name (missing an "r") is not a typo in this
/// crate — it matches the LSP specification's field name verbatim, which is
/// itself a long-standing, wire-compatibility-frozen misspelling.
#[derive(Debug, Clone, PartialEq)]
pub struct UnregistrationParams {
    /// The unregistrations to apply.
    pub unregisterations: Vec<Unregistration>,
}

/// A filter selecting documents by language, URI scheme, and/or glob
/// pattern. At least one field should be set.
#[derive(Debug, Clone, PartialEq, Eq, Default)]
pub struct DocumentFilter {
    /// Match documents with this language id (e.g. `"rust"`).
    pub language: Option<String>,
    /// Match documents with this URI scheme (e.g. `"file"`, `"untitled"`).
    pub scheme: Option<String>,
    /// Match documents whose path matches this glob (e.g. `"**/*.toml"`;
    /// `*`, `**`, `?`, `{a,b}`, `[...]` per the spec).
    pub pattern: Option<String>,
}

impl DocumentFilter {
    /// A filter matching documents of one language.
    pub fn language(language: &str) -> (r: Self)
        ensures
            r.language matches Some(l) && l@ == language@,
            r.scheme is None,
            r.pattern is None,
    {
        DocumentFilter { language: Some(language.to_owned()), scheme: None, pattern: None }
    }

    /// A filter matching documents by glob pattern.
    pub fn pattern(pattern: &str) -> (r: Self)
        ensures
            r.language is None,
            r.scheme is None,
            r.pattern matches Some(p) && p@ == pattern@,
    {
        DocumentFilter { language: None, scheme: None, pattern: Some(pattern.to_owned()) }
    }
}

/// The set of documents a dynamic registration applies to: a document
/// matches if any filter matches.
pub type DocumentSelector = Vec<DocumentFilter>;

/// The registration options common to all `textDocument/*` methods: which
/// documents the registration applies to.
#[derive(Debug, Clone, PartialEq, Eq)]
pub struct TextDocumentRegistrationOptions {
    /// The documents the registration applies to. `None` falls back to the
    /// selector the client provides on the server's behalf.
    pub document_selector: Option<DocumentSelector>,
}

/// The pattern a [`FileSystemWatcher`] watches: a bare glob (matched
/// against absolute paths) or a glob relative to a base URI (LSP 3.17).
#[derive(Debug, Clone, PartialEq, Eq)]
pub enum GlobPattern {
    /// A glob such as `"**/*.toml"` (`*`, `**`, `?`, `{a,b}`, `[...]`).
    Pattern(String),
    /// A glob interpreted relative to a base folder.
    Relative(RelativePattern),
}

impl From<String> for GlobPattern {
    fn from(pattern: String) -> (r: Self) {
        GlobPattern::Pattern(pattern)
    }
}

impl vstd::std_specs::convert::FromSpecImpl<String> for GlobPattern {
    open spec fn obeys_from_spec() -> bool {
        true
    }

    open spec fn from_spec(pattern: String) -> Self {
        GlobPattern::Pattern(pattern)
    }
}

/// A glob interpreted relative to a base folder (LSP 3.17).
#[derive(Debug, Clone, PartialEq, Eq)]
pub struct RelativePattern {
    /// The folder the pattern is relative to.
    pub base_uri: Uri,
    /// The glob itself.
    pub pattern: String,
}

/// One watch subscription inside
/// [`DidChangeWatchedFilesRegistrationOptions`].
#[derive(Debug, Clone, PartialEq, Eq)]
pub struct FileSystemWatcher {
    /// What to watch.
    pub glob_pattern: GlobPattern,
    /// Which events to report, as [`watch_kind`] flags; omitted means all.
    pub kind: Option<u32>,
}

impl FileSystemWatcher {
    /// A watcher for `pattern`, reporting every kind of change.
    pub fn new(pattern: GlobPattern) -> (r: Self)
        ensures
            r == (FileSystemWatcher { glob_pattern: pattern, kind: None }),
    {
        FileSystemWatcher { glob_pattern: pattern, kind: None }
    }

    /// Restrict the watcher to a bitmask of [`watch_kind`] values.
    pub fn with_kind(self, kind: u32) -> (r: Self)
        ensures
            r == (FileSystemWatcher { glob_pattern: self.glob_pattern, kind: Some(kind) }),
    {
        FileSystemWatcher { kind: Some(kind), ..self }
    }
}

/// Registration options of `workspace/didChangeWatchedFiles`: the file
/// patterns the client should watch on the server's behalf.
#[derive(Debug, Clone, PartialEq, Eq)]
pub struct DidChangeWatchedFilesRegistrationOptions {
    /// The watch subscriptions.
    pub watchers: Vec<FileSystemWatcher>,
}

/// The `{ id?: string }` shape shared by every `*RegistrationOptions` type
/// that supports being referenced later by a fixed id, e.g. so a
/// `workspace/semanticTokens/refresh`-style request can be correlated back
/// to the registration that produced the tokens being refreshed.
#[derive(Debug, Clone, PartialEq, Eq, Default)]
pub struct StaticRegistrationOptions {
    /// The registration's static id.
    pub id: Option<String>,
}

/// Registration options shared by every dynamically-registerable method
/// whose only server-side option is `workDoneProgress` support:
/// `textDocument/declaration`, `typeDefinition`, `implementation`,
/// `documentColor`/`colorPresentation`, `foldingRange`, `selectionRange`,
/// `moniker`, `linkedEditingRange`, and `inlineValue` all share this exact
/// shape in the spec, so one struct (and matching type aliases below, named
/// for discoverability) covers all nine rather than nine near-duplicates.
#[derive(Debug, Clone, PartialEq, Eq, Default)]
pub struct SimpleRegistrationOptions {
    /// The documents the registration applies to.
    pub document_selector: Option<DocumentSelector>,
    /// Whether the server reports work-done progress for this provider.
    pub work_done_progress: Option<bool>,
    /// The registration's static id.
    pub id: Option<String>,
}

/// Registration options of `textDocument/declaration` (LSP 3.14).
pub type DeclarationRegistrationOptions = SimpleRegistrationOptions;
/// Registration options of `textDocument/typeDefinition` (LSP 3.6).
pub type TypeDefinitionRegistrationOptions = SimpleRegistrationOptions;
/// Registration options of `textDocument/implementation` (LSP 3.6).
pub type ImplementationRegistrationOptions = SimpleRegistrationOptions;
/// Registration options of `textDocument/documentColor`/`colorPresentation`
/// (LSP 3.6).
pub type DocumentColorRegistrationOptions = SimpleRegistrationOptions;
/// Registration options of `textDocument/foldingRange` (LSP 3.10).
pub type FoldingRangeRegistrationOptions = SimpleRegistrationOptions;
/// Registration options of `textDocument/selectionRange` (LSP 3.15).
pub type SelectionRangeRegistrationOptions = SimpleRegistrationOptions;
/// Registration options of `textDocument/moniker` (LSP 3.16).
pub type MonikerRegistrationOptions = SimpleRegistrationOptions;
/// Registration options of `textDocument/linkedEditingRange` (LSP 3.16).
pub type LinkedEditingRangeRegistrationOptions = SimpleRegistrationOptions;
/// Registration options of `textDocument/inlineValue` (LSP 3.17).
pub type InlineValueRegistrationOptions = SimpleRegistrationOptions;

/// Registration options of `textDocument/semanticTokens` (LSP 3.16), covering
/// both `.../full` and `.../range`.
#[derive(Debug, Clone, PartialEq, Eq)]
pub struct SemanticTokensRegistrationOptions {
    /// The documents the registration applies to.
    pub document_selector: Option<DocumentSelector>,
    /// The semantic-tokens options (legend, range/full support, …).
    pub options: SemanticTokensOptions,
    /// The registration's static id.
    pub id: Option<String>,
}

/// Registration options of `textDocument/diagnostic` (LSP 3.17).
#[derive(Debug, Clone, PartialEq, Eq, Default)]
pub struct DiagnosticRegistrationOptions {
    /// The documents the registration applies to.
    pub document_selector: Option<DocumentSelector>,
    /// The diagnostic-pull-model options.
    pub options: DiagnosticOptions,
    /// The registration's static id.
    pub id: Option<String>,
}

/// Registration options of `textDocument/prepareCallHierarchy` (LSP 3.16).
#[derive(Debug, Clone, PartialEq, Eq, Default)]
pub struct CallHierarchyRegistrationOptions {
    /// The documents the registration applies to.
    pub document_selector: Option<DocumentSelector>,
    /// The call-hierarchy options.
    pub options: CallHierarchyOptions,
    /// The registration's static id.
    pub id: Option<String>,
}

/// Registration options of `textDocument/prepareTypeHierarchy` (LSP 3.17).
#[derive(Debug, Clone, PartialEq, Eq, Default)]
pub struct TypeHierarchyRegistrationOptions {
    /// The documents the registration applies to.
    pub document_selector: Option<DocumentSelector>,
    /// The type-hierarchy options.
    pub options: TypeHierarchyOptions,
    /// The registration's static id.
    pub id: Option<String>,
}

} // verus!

