//! Well-known [`CodeActionKind`] values from the spec. `CodeActionKind` is an
//! open string enum — servers may return any dotted value — so these are
//! plain constants rather than a closed Rust enum.

use vstd::prelude::*;

verus! {

/// The empty kind, matching every `only` filter.
pub const EMPTY: &'static str = "";

/// A fix for a problem, typically tied to a diagnostic.
pub const QUICKFIX: &'static str = "quickfix";

/// A general refactor not covered by a more specific kind below.
pub const REFACTOR: &'static str = "refactor";

/// Extract code into a new function/variable/etc.
pub const REFACTOR_EXTRACT: &'static str = "refactor.extract";

/// Inline a function/variable/etc.
pub const REFACTOR_INLINE: &'static str = "refactor.inline";

/// Rewrite code in place (e.g. convert a loop to an iterator chain).
pub const REFACTOR_REWRITE: &'static str = "refactor.rewrite";

/// A source-wide action not tied to a specific diagnostic.
pub const SOURCE: &'static str = "source";

/// Organize imports.
pub const SOURCE_ORGANIZE_IMPORTS: &'static str = "source.organizeImports";

/// Fix all auto-fixable problems in the document.
pub const SOURCE_FIX_ALL: &'static str = "source.fixAll";

} // verus!
