//! `$/setTrace` and `$/logTrace`: the client asking the server to adjust how
//! verbose its trace logging is, and the server relaying trace messages back.
//!
//! Distinct from [`super::window::LogMessageParams`] (`window/logMessage`,
//! ordinary user-facing logging shown in the client's output channel):
//! `$/logTrace` is specifically for protocol-level tracing, gated by the
//! verbosity most recently set via `$/setTrace`, and typically rendered in a
//! separate "trace" output channel.
use vstd::prelude::*;

verus! {

/// How verbose trace logging should be.
#[derive(Debug, Clone, Copy, PartialEq, Eq)]
pub enum TraceValue {
    /// No `$/logTrace` notifications.
    Off,
    /// Just the message, no `verbose` detail.
    Messages,
    /// The message plus any `verbose` detail.
    Verbose,
}

/// Parameters of the `$/setTrace` notification.
#[derive(Debug, Clone, Copy, PartialEq, Eq)]
pub struct SetTraceParams {
    /// The trace verbosity the client wants from now on.
    pub value: TraceValue,
}

/// Parameters of the `$/logTrace` notification.
#[derive(Debug, Clone, PartialEq, Eq)]
pub struct LogTraceParams {
    /// The trace message.
    pub message: String,
    /// Additional detail, only sent when the client's trace value is
    /// [`TraceValue::Verbose`].
    pub verbose: Option<String>,
}

} // verus!

