//! `textDocument/inlineCompletion` types (LSP 3.18, proposed): ghost-text
//! completions shown inline at the cursor, as popularised by AI code
//! assistants.

use super::base::{Range, TextDocumentPositionParams};
use super::code_action::Command;
use super::enums::InlineCompletionTriggerKind;
use super::progress::WorkDoneProgressParams;
use vstd::prelude::*;

verus! {

/// Parameters of `textDocument/inlineCompletion`.
#[derive(Debug, Clone, PartialEq, Eq)]
pub struct InlineCompletionParams {
    pub text_document_position: TextDocumentPositionParams,
    pub work_done: WorkDoneProgressParams,
    /// How and where the request was triggered.
    pub context: InlineCompletionContext,
}

/// The context an inline-completion request was made in.
#[derive(Debug, Clone, PartialEq, Eq)]
pub struct InlineCompletionContext {
    /// What triggered the request.
    pub trigger_kind: InlineCompletionTriggerKind,
    /// The currently selected item of an open (regular) completion popup,
    /// if one is showing — inline results must be consistent with it.
    pub selected_completion_info: Option<SelectedCompletionInfo>,
}

/// The selected item of an open completion popup, alongside the range it
/// would replace.
#[derive(Debug, Clone, PartialEq, Eq)]
pub struct SelectedCompletionInfo {
    /// The range that would be replaced if the popup item were accepted.
    pub range: Range,
    /// The popup item's text.
    pub text: String,
}

/// The text an [`InlineCompletionItem`] inserts: a plain string or a snippet.
#[derive(Debug, Clone, PartialEq, Eq)]
pub enum InlineCompletionInsertText {
    /// Plain text, inserted verbatim.
    Plain(String),
    /// A snippet (with tab stops / placeholders), in LSP snippet syntax.
    Snippet(StringValue),
}

impl From<String> for InlineCompletionInsertText {
    fn from(s: String) -> (r: Self) {
        InlineCompletionInsertText::Plain(s)
    }
}

impl vstd::std_specs::convert::FromSpecImpl<String> for InlineCompletionInsertText {
    open spec fn obeys_from_spec() -> bool {
        true
    }

    open spec fn from_spec(s: String) -> Self {
        InlineCompletionInsertText::Plain(s)
    }
}

/// A tagged string value; currently only the `snippet` kind exists.
#[derive(Debug, Clone, PartialEq, Eq)]
pub struct StringValue {
    /// The value's kind; always `"snippet"`.
    pub kind: String,
    /// The snippet text.
    pub value: String,
}

impl StringValue {
    /// A snippet value.
    pub fn snippet(value: &str) -> (r: Self)
        ensures
            r.kind@ == "snippet"@,
            r.value@ == value@,
    {
        StringValue { kind: "snippet".to_owned(), value: value.to_owned() }
    }
}

/// One inline completion.
#[derive(Debug, Clone, PartialEq, Eq)]
pub struct InlineCompletionItem {
    /// The text to insert.
    pub insert_text: InlineCompletionInsertText,
    /// Text used to decide whether the item is still valid as the user
    /// keeps typing; defaults to `insert_text`.
    pub filter_text: Option<String>,
    /// The range to replace; defaults to inserting at the request position.
    pub range: Option<Range>,
    /// A command executed after the item is accepted.
    pub command: Option<Command>,
}

impl InlineCompletionItem {
    /// An item from its insert text, with no filter text, range or command.
    pub fn new(insert_text: InlineCompletionInsertText) -> (r: Self)
        ensures
            r == (InlineCompletionItem {
                insert_text,
                filter_text: None,
                range: None,
                command: None,
            }),
    {
        InlineCompletionItem { insert_text, filter_text: None, range: None, command: None }
    }
}

/// Result of `textDocument/inlineCompletion`: a list object or a bare array.
#[derive(Debug, Clone, PartialEq, Eq)]
pub enum InlineCompletionResponse {
    /// The list form.
    List(InlineCompletionList),
    /// The bare-array form.
    Items(Vec<InlineCompletionItem>),
}

/// The list form of an inline-completion result.
#[derive(Debug, Clone, PartialEq, Eq, Default)]
pub struct InlineCompletionList {
    /// The completion items.
    pub items: Vec<InlineCompletionItem>,
}

} // verus!

