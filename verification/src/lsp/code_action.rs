//! `textDocument/codeAction` types.

use super::base::{Range, TextDocumentIdentifier};
use super::diagnostics::Diagnostic;
use super::enums::CodeActionTriggerKind;
use super::workspace::WorkspaceEdit;
use vstd::prelude::*;

pub mod code_action_kind;

verus! {


/// A [`CodeActionKind`] value, e.g. `"quickfix"` or `"refactor.extract"`. An
/// open string enum per the spec (see the [`code_action_kind`] module for
/// well-known values), not a closed Rust enum.
pub type CodeActionKind = String;

/// Parameters of `textDocument/codeAction`.
#[derive(Debug, Clone, PartialEq)]
pub struct CodeActionParams {
    /// The document to compute code actions for.
    pub text_document: TextDocumentIdentifier,
    /// The range the actions apply to (e.g. the current selection).
    pub range: Range,
    /// Additional context, primarily the diagnostics in range.
    pub context: CodeActionContext,
}

/// Additional context for a `textDocument/codeAction` request.
#[derive(Debug, Clone, PartialEq, Default)]
pub struct CodeActionContext {
    /// Diagnostics currently known for the requested range.
    pub diagnostics: Vec<Diagnostic>,
    /// Restrict results to these kinds, if given.
    pub only: Option<Vec<CodeActionKind>>,
    /// What triggered this request.
    pub trigger_kind: Option<CodeActionTriggerKind>,
}

/// One element of a `textDocument/codeAction` response: either a full
/// [`CodeAction`] or a bare [`Command`] (an older, simpler form).
#[derive(Debug, Clone, PartialEq)]
pub enum CodeActionOrCommand {
    /// A code action, optionally carrying its own edit and/or command.
    Action(Box<CodeAction>),
    /// A bare command with no inline edit.
    Command(Command),
}

impl From<CodeAction> for CodeActionOrCommand {
    fn from(action: CodeAction) -> (r: Self) {
        CodeActionOrCommand::Action(Box::new(action))
    }
}

impl vstd::std_specs::convert::FromSpecImpl<CodeAction> for CodeActionOrCommand {
    open spec fn obeys_from_spec() -> bool {
        true
    }

    open spec fn from_spec(action: CodeAction) -> Self {
        CodeActionOrCommand::Action(Box::new(action))
    }
}

impl From<Command> for CodeActionOrCommand {
    fn from(command: Command) -> (r: Self) {
        CodeActionOrCommand::Command(command)
    }
}

impl vstd::std_specs::convert::FromSpecImpl<Command> for CodeActionOrCommand {
    open spec fn obeys_from_spec() -> bool {
        true
    }

    open spec fn from_spec(command: Command) -> Self {
        CodeActionOrCommand::Command(command)
    }
}

/// A code action: a title plus how to carry it out (an inline
/// [`WorkspaceEdit`], a [`Command`] to execute, or both).
#[derive(Debug, Clone, PartialEq, Default)]
pub struct CodeAction {
    /// A short, user-facing title.
    pub title: String,
    /// The action's kind (see [`code_action_kind`]).
    pub kind: Option<CodeActionKind>,
    /// Diagnostics this action resolves, if any.
    pub diagnostics: Option<Vec<Diagnostic>>,
    /// Whether this is the preferred action among several for the same
    /// diagnostic/range.
    pub is_preferred: Option<bool>,
    /// If set, explains why this action is shown disabled rather than
    /// omitted.
    pub disabled: Option<CodeActionDisabled>,
    /// The edit to apply, if this action carries one inline.
    pub edit: Option<WorkspaceEdit>,
    /// A command to execute (before or instead of `edit`).
    pub command: Option<Command>,
    /// Opaque data round-tripped through `codeAction/resolve`.
    pub data: Option<serde_json::Value>,
}

impl CodeAction {
    /// A code action with just a title.
    pub fn new(title: &str) -> (r: Self)
        ensures
            r.title@ == title@,
            r.kind is None,
            r.diagnostics is None,
            r.is_preferred is None,
            r.disabled is None,
            r.edit is None,
            r.command is None,
            r.data is None,
    {
        CodeAction {
            title: title.to_owned(),
            kind: None,
            diagnostics: None,
            is_preferred: None,
            disabled: None,
            edit: None,
            command: None,
            data: None,
        }
    }

    /// Set the action's kind (see [`code_action_kind`]).
    pub fn with_kind(self, kind: &str) -> (r: Self)
        ensures
            r.kind matches Some(k) && k@ == kind@,
            r == (CodeAction { kind: r.kind, ..self }),
    {
        CodeAction { kind: Some(kind.to_owned()), ..self }
    }

    /// Attach an inline edit.
    pub fn with_edit(self, edit: WorkspaceEdit) -> (r: Self)
        ensures
            r == (CodeAction { edit: Some(edit), ..self }),
    {
        CodeAction { edit: Some(edit), ..self }
    }
}

/// Explains why a [`CodeAction`] is shown but disabled.
#[derive(Debug, Clone, PartialEq, Eq)]
pub struct CodeActionDisabled {
    /// A human-readable reason, shown to the user.
    pub reason: String,
}

/// A reference to a command the client can invoke, either standalone or
/// attached to a [`CodeAction`]/`CodeLens`.
#[derive(Debug, Clone, PartialEq, Eq)]
pub struct Command {
    /// A short, user-facing title.
    pub title: String,
    /// The command identifier, dispatched back to the server via
    /// `workspace/executeCommand`.
    pub command: String,
    /// Arguments for the command, if any.
    pub arguments: Option<Vec<serde_json::Value>>,
}

/// Options describing the server's `textDocument/codeAction` support.
#[derive(Debug, Clone, PartialEq, Eq, Default)]
pub struct CodeActionOptions {
    /// The kinds of code action the server may return, if it wants to
    /// advertise them upfront.
    pub code_action_kinds: Vec<CodeActionKind>,
    /// Whether the server supports `codeAction/resolve` for lazily filling
    /// in `edit`.
    pub resolve_provider: Option<bool>,
}

} // verus!

