# rusty_lsp

A small, reusable Language Server Protocol framework: JSON-RPC framing,
message dispatch, the `initialize`/`shutdown`/`exit` lifecycle, request
cancellation and a store of open documents, with typed LSP data structures.

The protocol logic is verified with Verus; the async runtime around it is
ordinary Rust.

## Layout

- `src/` — the verified library.
  - `transport` — `Content-Length` frame headers: parsing a header block
    line by line, and writing a frame (the header of a written frame reads
    back as the payload's length).
  - `jsonrpc` — the JSON-RPC 2.0 message model and the classification of a
    raw message as request, notification or response.
  - `text` — conversions between LSP positions (UTF-8, UTF-16 or UTF-32
    columns) and byte offsets, a line index that agrees with them, and
    atomic application of a batch of text edits.
  - `documents` — the store of open documents: `didOpen`/`didChange`/
    `didClose`, stale-version guarding, lookups by any spelling of a URI.
  - `server` — the decisions of the runtime: routing of methods, the
    lifecycle state machine, and the table of requests in flight that
    answers each request exactly once.
  - `lsp` — typed protocol structures; URI normalisation and file-path
    conversion, integer-coded enums, the semantic-token builder, position
    encoding negotiation.
  - `error` — the error type and the JSON-RPC / LSP error codes.
- `app/` — the async runtime: stdio serving, the message loop, the client
  handle, cancellation tokens, the `LanguageServer` trait, JSON
  (de)serialisation of the protocol types, and a test client.
- `tests/` — tests of the library.
