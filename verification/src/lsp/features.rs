//! Language-feature request parameters and results: hover, completion,
//! goto-definition, find-references, and document highlights.

use super::base::{Location, Range, TextDocumentPositionParams};
use super::code_action::Command;
use super::enums::{
    CompletionItemKind, CompletionItemTag, CompletionTriggerKind, DocumentHighlightKind,
    InsertTextFormat, MarkupKind,
};
use super::progress::{PartialResultParams, WorkDoneProgressParams};
use super::signature::Documentation;
use super::workspace::TextEdit;
use vstd::prelude::*;

verus! {

/// Parameters of `textDocument/hover`.
#[derive(Debug, Clone, PartialEq, Eq)]
pub struct HoverParams {
    /// The document and position the hover was requested at.
    pub text_document_position: TextDocumentPositionParams,
    pub work_done: WorkDoneProgressParams,
}

/// The result of a hover request.
#[derive(Debug, Clone, PartialEq, Eq)]
pub struct Hover {
    /// The hover's rendered content.
    pub contents: MarkupContent,
    /// The range the hover applies to, used by clients to highlight.
    pub range: Option<Range>,
}

impl Hover {
    /// Build a plain-text hover.
    pub fn plain_text(value: &str) -> (r: Self)
        ensures
            r.contents.kind == MarkupKind::PlainText,
            r.contents.value@ == value@,
            r.range is None,
    {
        Hover { contents: MarkupContent::plain_text(value), range: None }
    }

    /// Build a Markdown hover.
    pub fn markdown(value: &str) -> (r: Self)
        ensures
            r.contents.kind == MarkupKind::Markdown,
            r.contents.value@ == value@,
            r.range is None,
    {
        Hover { contents: MarkupContent::markdown(value), range: None }
    }

    /// Attach a highlight range to this hover.
    pub fn with_range(self, range: Range) -> (r: Self)
        ensures
            r.contents == self.contents,
            r.range == Some(range),
    {
        Hover { range: Some(range), ..self }
    }
}

/// A string rendered by the client, either plain text or Markdown.
#[derive(Debug, Clone, PartialEq, Eq)]
pub struct MarkupContent {
    /// Whether `value` is plain text or Markdown.
    pub kind: MarkupKind,
    /// The content itself.
    pub value: String,
}

impl MarkupContent {
    /// Plain-text content.
    pub fn plain_text(value: &str) -> (r: Self)
        ensures
            r.kind == MarkupKind::PlainText,
            r.value@ == value@,
    {
        MarkupContent { kind: MarkupKind::PlainText, value: value.to_owned() }
    }

    /// Markdown content.
    pub fn markdown(value: &str) -> (r: Self)
        ensures
            r.kind == MarkupKind::Markdown,
            r.value@ == value@,
    {
        MarkupContent { kind: MarkupKind::Markdown, value: value.to_owned() }
    }
}

/// Parameters of `textDocument/completion`.
#[derive(Debug, Clone, PartialEq, Eq)]
pub struct CompletionParams {
    /// The document and position completion was requested at.
    pub text_document_position: TextDocumentPositionParams,
    pub work_done: WorkDoneProgressParams,
    pub partial_result: PartialResultParams,
    /// Additional information about the completion trigger.
    pub context: Option<CompletionContext>,
}

/// Additional completion-trigger context.
#[derive(Debug, Clone, PartialEq, Eq)]
pub struct CompletionContext {
    /// How completion was triggered.
    pub trigger_kind: CompletionTriggerKind,
    /// The trigger character, when `trigger_kind` is
    /// [`CompletionTriggerKind::TriggerCharacter`].
    pub trigger_character: Option<String>,
}

/// The result of a completion request: either a bare list of items or a
/// [`CompletionList`] that can flag itself incomplete.
#[derive(Debug, Clone, PartialEq)]
pub enum CompletionResponse {
    /// A simple array of items (treated as complete).
    Array(Vec<CompletionItem>),
    /// A list that may be marked incomplete to request re-querying.
    List(CompletionList),
}

impl From<Vec<CompletionItem>> for CompletionResponse {
    fn from(items: Vec<CompletionItem>) -> (r: Self) {
        CompletionResponse::Array(items)
    }
}

impl vstd::std_specs::convert::FromSpecImpl<Vec<CompletionItem>> for CompletionResponse {
    open spec fn obeys_from_spec() -> bool {
        true
    }

    open spec fn from_spec(items: Vec<CompletionItem>) -> Self {
        CompletionResponse::Array(items)
    }
}

impl From<CompletionList> for CompletionResponse {
    fn from(list: CompletionList) -> (r: Self) {
        CompletionResponse::List(list)
    }
}

impl vstd::std_specs::convert::FromSpecImpl<CompletionList> for CompletionResponse {
    open spec fn obeys_from_spec() -> bool {
        true
    }

    open spec fn from_spec(list: CompletionList) -> Self {
        CompletionResponse::List(list)
    }
}

/// A list of completion items with an incompleteness flag.
#[derive(Debug, Clone, PartialEq, Default)]
pub struct CompletionList {
    /// When `true`, the client should re-query as the user keeps typing.
    pub is_incomplete: bool,
    /// Defaults shared by all `items` (LSP 3.17), so large lists need not
    /// repeat identical `commitCharacters`/`editRange`/… on every item.
    pub item_defaults: Option<CompletionItemDefaults>,
    /// The completion items.
    pub items: Vec<CompletionItem>,
}

/// Per-list default values for [`CompletionItem`] fields (LSP 3.17); an
/// item that omits the field inherits the default.
#[derive(Debug, Clone, PartialEq, Default)]
pub struct CompletionItemDefaults {
    /// Default commit characters.
    pub commit_characters: Option<Vec<String>>,
    /// Default edit range (shared by items that carry only text).
    pub edit_range: Option<CompletionEditRange>,
    /// Default insert-text format.
    pub insert_text_format: Option<InsertTextFormat>,
    /// Default `data` payload.
    pub data: Option<serde_json::Value>,
}

/// The `editRange` default: a single range, or separate insert/replace
/// ranges (mirroring [`InsertReplaceEdit`]).
#[derive(Debug, Clone, Copy, PartialEq, Eq)]
pub enum CompletionEditRange {
    /// One range used for both insert and replace.
    Single(Range),
    /// Distinct insert and replace ranges.
    InsertReplace {
        /// The range replaced when inserting.
        insert: Range,
        /// The range replaced when replacing.
        replace: Range,
    },
}

/// A single completion proposal.
#[derive(Debug, Clone, PartialEq, Default)]
pub struct CompletionItem {
    /// The label shown in the completion UI; also the default insert text.
    pub label: String,
    /// Extra label parts rendered less prominently (LSP 3.17), e.g. a
    /// signature after the name and the defining module at the right edge.
    pub label_details: Option<CompletionItemLabelDetails>,
    /// The item's semantic kind, used to choose an icon.
    pub kind: Option<CompletionItemKind>,
    /// Tags qualifying the item (e.g. deprecated).
    pub tags: Option<Vec<CompletionItemTag>>,
    /// A short detail string shown next to the label.
    pub detail: Option<String>,
    /// Documentation rendered when the item is highlighted — a plain string
    /// or [`MarkupContent`].
    pub documentation: Option<Documentation>,
    /// String used when sorting items; defaults to `label`.
    pub sort_text: Option<String>,
    /// String matched against what the user typed; defaults to `label`.
    pub filter_text: Option<String>,
    /// Text inserted instead of `label`, when they differ. Prefer
    /// [`text_edit`](Self::text_edit) for precise placement.
    pub insert_text: Option<String>,
    /// How `insert_text` (or `text_edit`'s new text) is interpreted:
    /// verbatim, or as a snippet with tab stops.
    pub insert_text_format: Option<InsertTextFormat>,
    /// The exact edit applied on acceptance, replacing a specific range —
    /// what most clients prefer over `insert_text`.
    pub text_edit: Option<CompletionTextEdit>,
    /// Extra edits applied alongside acceptance, e.g. inserting an import
    /// at the top of the file. Must not overlap the main edit.
    pub additional_text_edits: Option<Vec<TextEdit>>,
    /// A command run after the item is inserted.
    pub command: Option<Command>,
    /// Opaque payload round-tripped through `completionItem/resolve` — use
    /// this to identify which item is being resolved.
    pub data: Option<serde_json::Value>,
}

/// Secondary label parts of a [`CompletionItem`] (LSP 3.17).
#[derive(Debug, Clone, PartialEq, Eq, Default)]
pub struct CompletionItemLabelDetails {
    /// Rendered directly after the label, e.g. a function signature.
    pub detail: Option<String>,
    /// Rendered less prominently after `detail`, e.g. the defining module.
    pub description: Option<String>,
}

/// A [`CompletionItem`]'s main edit: a plain [`TextEdit`], or the 3.16
/// insert/replace form that lets the client pick between inserting before
/// and replacing the word under the cursor.
#[derive(Debug, Clone, PartialEq, Eq)]
pub enum CompletionTextEdit {
    /// A single-range edit.
    Edit(TextEdit),
    /// An edit with distinct insert and replace ranges.
    InsertReplace(InsertReplaceEdit),
}

impl From<TextEdit> for CompletionTextEdit {
    fn from(edit: TextEdit) -> (r: Self) {
        CompletionTextEdit::Edit(edit)
    }
}

impl vstd::std_specs::convert::FromSpecImpl<TextEdit> for CompletionTextEdit {
    open spec fn obeys_from_spec() -> bool {
        true
    }

    open spec fn from_spec(edit: TextEdit) -> Self {
        CompletionTextEdit::Edit(edit)
    }
}

/// An edit carrying separate ranges for insert vs. replace behaviour
/// (LSP 3.16).
#[derive(Debug, Clone, PartialEq, Eq)]
pub struct InsertReplaceEdit {
    /// The text to insert.
    pub new_text: String,
    /// The range replaced when the client inserts.
    pub insert: Range,
    /// The range replaced when the client replaces.
    pub replace: Range,
}

impl CompletionItem {
    /// Build a completion item from just a label; every other field unset.
    pub fn new(label: &str) -> (r: Self)
        ensures
            r.label@ == label@,
            r.label_details is None,
            r.kind is None,
            r.tags is None,
            r.detail is None,
            r.documentation is None,
            r.sort_text is None,
            r.filter_text is None,
            r.insert_text is None,
            r.insert_text_format is None,
            r.text_edit is None,
            r.additional_text_edits is None,
            r.command is None,
            r.data is None,
    {
        CompletionItem {
            label: label.to_owned(),
            label_details: None,
            kind: None,
            tags: None,
            detail: None,
            documentation: None,
            sort_text: None,
            filter_text: None,
            insert_text: None,
            insert_text_format: None,
            text_edit: None,
            additional_text_edits: None,
            command: None,
            data: None,
        }
    }

    /// Set the item's kind.
    pub fn with_kind(self, kind: CompletionItemKind) -> (r: Self)
        ensures
            r == (CompletionItem { kind: Some(kind), ..self }),
    {
        CompletionItem { kind: Some(kind), ..self }
    }

    /// Set the item's detail line.
    pub fn with_detail(self, detail: &str) -> (r: Self)
        ensures
            r.detail matches Some(d) && d@ == detail@,
            r == (CompletionItem { detail: r.detail, ..self }),
    {
        CompletionItem { detail: Some(detail.to_owned()), ..self }
    }

    /// Replace a range instead of inserting at the cursor.
    pub fn with_text_edit(self, edit: CompletionTextEdit) -> (r: Self)
        ensures
            r == (CompletionItem { text_edit: Some(edit), ..self }),
    {
        CompletionItem { text_edit: Some(edit), ..self }
    }

    /// Mark the item's insert text as a snippet.
    pub fn as_snippet(self) -> (r: Self)
        ensures
            r == (CompletionItem { insert_text_format: Some(InsertTextFormat::Snippet), ..self }),
    {
        CompletionItem { insert_text_format: Some(InsertTextFormat::Snippet), ..self }
    }

    /// Attach data round-tripped through `completionItem/resolve`.
    pub fn with_data(self, data: serde_json::Value) -> (r: Self)
        ensures
            r == (CompletionItem { data: Some(data), ..self }),
    {
        CompletionItem { data: Some(data), ..self }
    }
}

/// Parameters of `textDocument/documentHighlight`.
#[derive(Debug, Clone, PartialEq, Eq)]
pub struct DocumentHighlightParams {
    /// The document and position to compute highlights for.
    pub text_document_position: TextDocumentPositionParams,
    pub work_done: WorkDoneProgressParams,
    pub partial_result: PartialResultParams,
}

/// One occurrence of the symbol under the cursor, highlighted by the client
/// (e.g. every use of a variable in the current document).
#[derive(Debug, Clone, Copy, PartialEq, Eq)]
pub struct DocumentHighlight {
    /// The range to highlight.
    pub range: Range,
    /// The occurrence's kind (read/write/textual); clients may style each
    /// differently.
    pub kind: Option<DocumentHighlightKind>,
}

impl DocumentHighlight {
    /// A highlight of `range` with no kind.
    pub fn new(range: Range) -> (r: Self)
        ensures
            r == (DocumentHighlight { range, kind: None }),
    {
        DocumentHighlight { range, kind: None }
    }

    /// Set the highlight's kind.
    pub fn with_kind(self, kind: DocumentHighlightKind) -> (r: Self)
        ensures
            r == (DocumentHighlight { range: self.range, kind: Some(kind) }),
    {
        DocumentHighlight { kind: Some(kind), ..self }
    }
}

/// Parameters of `textDocument/definition`.
#[derive(Debug, Clone, PartialEq, Eq)]
pub struct DefinitionParams {
    /// The document and position definition was requested at.
    pub text_document_position: TextDocumentPositionParams,
    pub work_done: WorkDoneProgressParams,
    pub partial_result: PartialResultParams,
}

/// Parameters of `textDocument/declaration`.
#[derive(Debug, Clone, PartialEq, Eq)]
pub struct DeclarationParams {
    /// The document and position declaration was requested at.
    pub text_document_position: TextDocumentPositionParams,
    pub work_done: WorkDoneProgressParams,
    pub partial_result: PartialResultParams,
}

/// Parameters of `textDocument/typeDefinition`.
#[derive(Debug, Clone, PartialEq, Eq)]
pub struct TypeDefinitionParams {
    /// The document and position type-definition was requested at.
    pub text_document_position: TextDocumentPositionParams,
    pub work_done: WorkDoneProgressParams,
    pub partial_result: PartialResultParams,
}

/// Parameters of `textDocument/implementation`.
#[derive(Debug, Clone, PartialEq, Eq)]
pub struct ImplementationParams {
    /// The document and position implementation was requested at.
    pub text_document_position: TextDocumentPositionParams,
    pub work_done: WorkDoneProgressParams,
    pub partial_result: PartialResultParams,
}

/// The result of a goto-definition request (also used by `declaration`,
/// `typeDefinition`, and `implementation`).
#[derive(Debug, Clone, PartialEq, Eq)]
pub enum GotoDefinitionResponse {
    /// A single definition location.
    Scalar(Location),
    /// Several candidate locations.
    Array(Vec<Location>),
    /// Rich links, preferred by clients advertising
    /// `textDocument.definition.linkSupport` — the editor underlines the
    /// exact origin token and lands on the symbol name instead of the
    /// item's full range. Only return this form when the client declared
    /// link support.
    Links(Vec<LocationLink>),
}

impl From<Location> for GotoDefinitionResponse {
    fn from(location: Location) -> (r: Self) {
        GotoDefinitionResponse::Scalar(location)
    }
}

impl vstd::std_specs::convert::FromSpecImpl<Location> for GotoDefinitionResponse {
    open spec fn obeys_from_spec() -> bool {
        true
    }

    open spec fn from_spec(location: Location) -> Self {
        GotoDefinitionResponse::Scalar(location)
    }
}

impl From<Vec<Location>> for GotoDefinitionResponse {
    fn from(locations: Vec<Location>) -> (r: Self) {
        GotoDefinitionResponse::Array(locations)
    }
}

impl vstd::std_specs::convert::FromSpecImpl<Vec<Location>> for GotoDefinitionResponse {
    open spec fn obeys_from_spec() -> bool {
        true
    }

    open spec fn from_spec(locations: Vec<Location>) -> Self {
        GotoDefinitionResponse::Array(locations)
    }
}

impl From<Vec<LocationLink>> for GotoDefinitionResponse {
    fn from(links: Vec<LocationLink>) -> (r: Self) {
        GotoDefinitionResponse::Links(links)
    }
}

impl vstd::std_specs::convert::FromSpecImpl<Vec<LocationLink>> for GotoDefinitionResponse {
    open spec fn obeys_from_spec() -> bool {
        true
    }

    open spec fn from_spec(links: Vec<LocationLink>) -> Self {
        GotoDefinitionResponse::Links(links)
    }
}

/// A link between an origin range (the token the user invoked navigation
/// on) and a target, richer than a bare [`Location`].
#[derive(Debug, Clone, PartialEq, Eq)]
pub struct LocationLink {
    /// The span of the origin the link applies to (e.g. the identifier
    /// under the cursor), underlined by the client; defaults to the word
    /// range at the request position.
    pub origin_selection_range: Option<Range>,
    /// The target document.
    pub target_uri: super::base::Uri,
    /// The target's full range (e.g. the entire function definition),
    /// containing `target_selection_range`.
    pub target_range: Range,
    /// The precise range navigated to and highlighted (typically the
    /// symbol's name).
    pub target_selection_range: Range,
}

/// Parameters of `textDocument/references`.
///
/// Supports both progress mixins: a large search may report progress
/// against [`work_done`](Self::work_done) and stream chunks of matches on
/// [`partial_result`](Self::partial_result) via
/// [`crate::Client::send_progress`] before returning the final list.
#[derive(Debug, Clone, PartialEq, Eq)]
pub struct ReferenceParams {
    /// The document and position to find references from.
    pub text_document_position: TextDocumentPositionParams,
    /// Reference-search options.
    pub context: ReferenceContext,
    pub work_done: WorkDoneProgressParams,
    pub partial_result: PartialResultParams,
}

/// Options for a `textDocument/references` request.
#[derive(Debug, Clone, Copy, PartialEq, Eq, Default)]
pub struct ReferenceContext {
    /// Whether to include the symbol's own declaration in the results.
    pub include_declaration: bool,
}

} // verus!

