//! A small, reusable Language Server Protocol framework: JSON-RPC framing,
//! message classification, the initialize/shutdown lifecycle, request
//! bookkeeping, position-encoding-aware text math, and the typed protocol
//! data model.

pub mod documents;
pub mod error;
pub mod jsonrpc;
mod json;
pub mod lsp;
pub mod server;
mod strings;
pub mod text;
pub mod transport;

pub use error::{Error, Result};
