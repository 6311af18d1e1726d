//! Standard JSON-RPC and LSP error codes.
//!
//! JSON-RPC reserves `-32768..=-32000`; LSP carves its protocol-specific
//! codes out of that range.

use vstd::prelude::*;

verus! {

/// Invalid JSON was received by the server.
pub const PARSE_ERROR: i64 = -32700;

/// The JSON sent is not a valid Request object.
pub const INVALID_REQUEST: i64 = -32600;

/// The method does not exist or is not available.
pub const METHOD_NOT_FOUND: i64 = -32601;

/// Invalid method parameters.
pub const INVALID_PARAMS: i64 = -32602;

/// Internal JSON-RPC error.
pub const INTERNAL_ERROR: i64 = -32603;

/// Server received a request before the `initialize` request.
pub const SERVER_NOT_INITIALIZED: i64 = -32002;

/// Unknown error (reserved by LSP).
pub const UNKNOWN_ERROR: i64 = -32001;

/// A request failed but the server is otherwise healthy (LSP 3.17).
pub const REQUEST_FAILED: i64 = -32803;

/// The server cancelled the request (LSP 3.17).
pub const SERVER_CANCELLED: i64 = -32802;

/// Content was modified out from under an in-flight request (LSP 3.16).
pub const CONTENT_MODIFIED: i64 = -32801;

/// The client cancelled the request via `$/cancelRequest` (LSP 3.16).
pub const REQUEST_CANCELLED: i64 = -32800;

} // verus!
