//! `$/progress` and work-done-progress types (LSP 3.15+).

use vstd::prelude::*;

verus! {

/// A progress token: an integer or a string.
#[derive(Debug, Clone, PartialEq, Eq, Hash)]
pub enum ProgressToken {
    /// Numeric token.
    Number(i64),
    /// String token.
    String(String),
}

impl From<i64> for ProgressToken {
    fn from(n: i64) -> (r: Self) {
        ProgressToken::Number(n)
    }
}

impl vstd::std_specs::convert::FromSpecImpl<i64> for ProgressToken {
    open spec fn obeys_from_spec() -> bool {
        true
    }

    open spec fn from_spec(n: i64) -> Self {
        ProgressToken::Number(n)
    }
}

impl From<String> for ProgressToken {
    fn from(s: String) -> (r: Self) {
        ProgressToken::String(s)
    }
}

impl vstd::std_specs::convert::FromSpecImpl<String> for ProgressToken {
    open spec fn obeys_from_spec() -> bool {
        true
    }

    open spec fn from_spec(s: String) -> Self {
        ProgressToken::String(s)
    }
}

/// The `$/progress` payload of a work-done-progress sequence.
#[derive(Debug, Clone, PartialEq)]
pub enum WorkDoneProgress {
    /// Start of the sequence.
    Begin(WorkDoneProgressBegin),
    /// An intermediate report.
    Report(WorkDoneProgressReport),
    /// End of the sequence.
    End(WorkDoneProgressEnd),
}

/// Params of a `$/progress` notification.
#[derive(Debug, Clone, PartialEq)]
pub struct ProgressParams {
    /// The token the progress is reported under.
    pub token: ProgressToken,
    /// The progress payload.
    pub value: WorkDoneProgress,
}

/// Start of a work-done-progress sequence.
#[derive(Debug, Clone, PartialEq, Default)]
pub struct WorkDoneProgressBegin {
    /// Mandatory title of the operation.
    pub title: String,
    /// Whether the client may cancel the operation.
    pub cancellable: Option<bool>,
    /// Optional, more detailed message.
    pub message: Option<String>,
    /// Optional completion percentage (0-100).
    pub percentage: Option<u32>,
}

/// An intermediate progress report.
#[derive(Debug, Clone, PartialEq, Default)]
pub struct WorkDoneProgressReport {
    /// Whether the client may cancel the operation.
    pub cancellable: Option<bool>,
    /// Optional, more detailed message.
    pub message: Option<String>,
    /// Optional completion percentage (0-100).
    pub percentage: Option<u32>,
}

/// End of a work-done-progress sequence.
#[derive(Debug, Clone, PartialEq, Default)]
pub struct WorkDoneProgressEnd {
    /// Optional final message.
    pub message: Option<String>,
}

/// Params of `window/workDoneProgress/create`.
#[derive(Debug, Clone, PartialEq)]
pub struct WorkDoneProgressCreateParams {
    /// The token to create.
    pub token: ProgressToken,
}

/// Params of `window/workDoneProgress/cancel`.
#[derive(Debug, Clone, PartialEq)]
pub struct WorkDoneProgressCancelParams {
    /// The token to cancel.
    pub token: ProgressToken,
}

/// The work-done-progress mixin of request params: the token the client
/// attached for progress reporting, if any.
#[derive(Debug, Clone, PartialEq, Eq, Default)]
pub struct WorkDoneProgressParams {
    /// The work-done token.
    pub work_done_token: Option<ProgressToken>,
}

/// The partial-result mixin of request params: the token for streaming
/// partial results, if any.
#[derive(Debug, Clone, PartialEq, Eq, Default)]
pub struct PartialResultParams {
    /// The partial-result token.
    pub partial_result_token: Option<ProgressToken>,
}

} // verus!
