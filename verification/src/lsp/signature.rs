//! `textDocument/signatureHelp` types.

use super::base::TextDocumentPositionParams;
use super::enums::{MarkupKind, SignatureHelpTriggerKind};
use super::features::MarkupContent;
use super::progress::WorkDoneProgressParams;
use vstd::prelude::*;

verus! {

/// Parameters of `textDocument/signatureHelp`.
#[derive(Debug, Clone, PartialEq, Eq)]
pub struct SignatureHelpParams {
    /// The document and position signature help was requested at.
    pub text_document_position: TextDocumentPositionParams,
    /// Additional information about what triggered this request.
    pub context: Option<SignatureHelpContext>,
    pub work_done: WorkDoneProgressParams,
}

/// Additional signature-help-trigger context.
#[derive(Debug, Clone, PartialEq, Eq)]
pub struct SignatureHelpContext {
    /// How signature help was triggered.
    pub trigger_kind: SignatureHelpTriggerKind,
    /// The trigger character, when `trigger_kind` is
    /// [`SignatureHelpTriggerKind::TriggerCharacter`].
    pub trigger_character: Option<String>,
    /// Whether this re-triggers signature help that was already showing.
    pub is_retrigger: bool,
    /// The signature help that was already showing, when `is_retrigger` is
    /// `true`.
    pub active_signature_help: Option<SignatureHelp>,
}

/// The result of a `textDocument/signatureHelp` request.
#[derive(Debug, Clone, PartialEq, Eq, Default)]
pub struct SignatureHelp {
    /// The candidate signatures (a call may be overloaded).
    pub signatures: Vec<SignatureInformation>,
    /// The index into `signatures` that is currently active.
    pub active_signature: Option<u32>,
    /// The index into the active signature's `parameters` that is currently
    /// active (i.e. which parameter the cursor is in).
    pub active_parameter: Option<u32>,
}

/// One candidate signature.
#[derive(Debug, Clone, PartialEq, Eq)]
pub struct SignatureInformation {
    /// The signature's label, e.g. `"fn foo(x: i32, y: i32) -> i32"`.
    pub label: String,
    /// Documentation for the signature as a whole.
    pub documentation: Option<Documentation>,
    /// The signature's parameters, in order.
    pub parameters: Option<Vec<ParameterInformation>>,
    /// Overrides [`SignatureHelp::active_parameter`] for this signature.
    pub active_parameter: Option<u32>,
}

/// One parameter within a [`SignatureInformation`].
#[derive(Debug, Clone, PartialEq, Eq)]
pub struct ParameterInformation {
    /// The parameter's label: either its literal text, or a `[start, end)`
    /// UTF-16 code-unit range into the owning signature's `label`.
    pub label: ParameterLabel,
    /// Documentation for this parameter.
    pub documentation: Option<Documentation>,
}

/// A [`ParameterInformation`]'s label, either standalone text or a range
/// into the signature's label string.
#[derive(Debug, Clone, PartialEq, Eq)]
pub enum ParameterLabel {
    /// The parameter's text, repeated standalone (not a substring reference).
    Simple(String),
    /// A `[start, end)` UTF-16 code-unit offset pair into the signature's
    /// `label`.
    Range(u32, u32),
}

/// Documentation text, either plain or Markdown-rendered.
#[derive(Debug, Clone, PartialEq, Eq)]
pub enum Documentation {
    /// Plain text with no markup.
    String(String),
    /// Markup-rendered content.
    Markup(MarkupContent),
}

impl Documentation {
    /// Plain-text documentation.
    pub fn plain_text(value: &str) -> (r: Self)
        ensures
            r matches Documentation::String(s) && s@ == value@,
    {
        Documentation::String(value.to_owned())
    }

    /// Markdown documentation.
    pub fn markdown(value: &str) -> (r: Self)
        ensures
            r matches Documentation::Markup(m) && m.kind == MarkupKind::Markdown && m.value@
                == value@,
    {
        Documentation::Markup(MarkupContent { kind: MarkupKind::Markdown, value: value.to_owned() })
    }
}

} // verus!

