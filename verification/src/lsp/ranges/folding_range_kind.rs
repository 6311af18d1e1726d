//! Well-known [`FoldingRangeKind`] values from the spec. Like
//! [`crate::lsp::CodeActionKind`], this is an open string enum, so these are
//! plain constants rather than a closed Rust enum.

use vstd::prelude::*;

verus! {

/// A comment block.
pub const COMMENT: &'static str = "comment";

/// A contiguous block of import/use statements.
pub const IMPORTS: &'static str = "imports";

/// A region marked by the language's region-comment convention.
pub const REGION: &'static str = "region";

} // verus!
