//! `textDocument/foldingRange` and `textDocument/selectionRange` types.

use super::base::{Position, TextDocumentIdentifier};
use vstd::prelude::*;

pub mod folding_range_kind;

verus! {


/// A [`FoldingRangeKind`] value, e.g. `"comment"` or `"region"`. An open
/// string enum per the spec (see the [`folding_range_kind`] module for
/// well-known values), not a closed Rust enum.
pub type FoldingRangeKind = String;

/// Parameters of `textDocument/foldingRange`.
#[derive(Debug, Clone, PartialEq, Eq)]
pub struct FoldingRangeParams {
    /// The document to compute folding ranges for.
    pub text_document: TextDocumentIdentifier,
}

/// One collapsible region in a document.
#[derive(Debug, Clone, PartialEq, Eq)]
pub struct FoldingRange {
    /// The zero-based line the folded range starts on.
    pub start_line: u32,
    /// The UTF-16 column the folded range starts at, on `start_line`. When
    /// omitted, the range extends to the end of `start_line`.
    pub start_character: Option<u32>,
    /// The zero-based line the folded range ends on.
    pub end_line: u32,
    /// The UTF-16 column the folded range ends at, on `end_line`. When
    /// omitted, the range extends to the end of `end_line`.
    pub end_character: Option<u32>,
    /// The range's kind (see [`folding_range_kind`]), used to pick an icon.
    pub kind: Option<FoldingRangeKind>,
    /// Text to show in place of the folded range, if the client supports it.
    pub collapsed_text: Option<String>,
}

impl FoldingRange {
    /// A folding range over whole lines `start_line..=end_line`.
    pub fn new(start_line: u32, end_line: u32) -> (r: Self)
        ensures
            r.start_line == start_line,
            r.start_character is None,
            r.end_line == end_line,
            r.end_character is None,
            r.kind is None,
            r.collapsed_text is None,
    {
        FoldingRange {
            start_line,
            start_character: None,
            end_line,
            end_character: None,
            kind: None,
            collapsed_text: None,
        }
    }

    /// Set the range's kind (see [`folding_range_kind`]).
    pub fn with_kind(self, kind: &str) -> (r: Self)
        ensures
            r.start_line == self.start_line,
            r.start_character == self.start_character,
            r.end_line == self.end_line,
            r.end_character == self.end_character,
            r.kind matches Some(k) && k@ == kind@,
            r.collapsed_text == self.collapsed_text,
    {
        FoldingRange { kind: Some(kind.to_owned()), ..self }
    }
}

/// Parameters of `textDocument/selectionRange`.
#[derive(Debug, Clone, PartialEq, Eq)]
pub struct SelectionRangeParams {
    /// The document to compute selection ranges in.
    pub text_document: TextDocumentIdentifier,
    /// The cursor positions to compute a selection-range chain for, one per
    /// position (results are returned in the same order).
    pub positions: Vec<Position>,
}

/// A selection range and the chain of ever-larger enclosing ranges above it
/// (e.g. word → expression → statement → block), used for "expand
/// selection" commands.
#[derive(Debug, PartialEq, Eq)]
pub struct SelectionRange {
    /// This range.
    pub range: super::base::Range,
    /// The next-larger enclosing range, if any.
    pub parent: Option<Box<SelectionRange>>,
}

impl Clone for SelectionRange {
    fn clone(&self) -> (r: Self)
        ensures
            r == *self,
        decreases self,
    {
        let parent = match &self.parent {
            Some(p) => Some(Box::new((&**p).clone())),
            None => None,
        };
        SelectionRange { range: self.range, parent }
    }
}

} // verus!

