//! `textDocument/semanticTokens/{full,full/delta,range}` types and the
//! builder that computes the protocol's relative token encoding.
//!
//! The wire format encodes each token as five integers relative to the
//! previous one: `[deltaLine, deltaStart, length, tokenType,
//! tokenModifiers]`. [`SemanticTokensBuilder`] takes tokens at absolute
//! positions, in any order, and produces that encoding.

use super::base::{Range, TextDocumentIdentifier};
use super::enums::PositionEncodingKind;
use super::progress::{PartialResultParams, WorkDoneProgressParams};
use crate::error::{is_response_error, Error};
use crate::error::codes;
use crate::strings::{concat3, debug_quoted, debug_text, str_eq};
use crate::text::{
    find_newline, lemma_next_line_start, line_start_at, newline_from, units, units_between,
    LineIndex,
};
use vstd::multiset::Multiset;
use vstd::prelude::*;
use vstd::string::StringSliceAdditionalSpecFns;

verus! {

/// Declares the token types and modifiers a server's semantic-token indices
/// refer to.
#[derive(Debug, Clone, PartialEq, Eq, Default)]
pub struct SemanticTokensLegend {
    /// Token type names, indexed by a token's type field.
    pub token_types: Vec<String>,
    /// Token modifier names, indexed by the set bits of a token's modifier
    /// bitmask.
    pub token_modifiers: Vec<String>,
}

/// Parameters of `textDocument/semanticTokens/full`.
#[derive(Debug, Clone, PartialEq, Eq)]
pub struct SemanticTokensParams {
    /// The document to compute tokens for.
    pub text_document: TextDocumentIdentifier,
    /// Work-done progress token.
    pub work_done: WorkDoneProgressParams,
    /// Partial-result token.
    pub partial_result: PartialResultParams,
}

/// Parameters of `textDocument/semanticTokens/full/delta`.
#[derive(Debug, Clone, PartialEq, Eq)]
pub struct SemanticTokensDeltaParams {
    /// The document to compute a token delta for.
    pub text_document: TextDocumentIdentifier,
    /// The result id of the previous full result this delta is relative to.
    pub previous_result_id: String,
    /// Work-done progress token.
    pub work_done: WorkDoneProgressParams,
    /// Partial-result token.
    pub partial_result: PartialResultParams,
}

/// Parameters of `textDocument/semanticTokens/range`.
#[derive(Debug, Clone, PartialEq, Eq)]
pub struct SemanticTokensRangeParams {
    /// The document to compute tokens for.
    pub text_document: TextDocumentIdentifier,
    /// The range to compute tokens within.
    pub range: Range,
    /// Work-done progress token.
    pub work_done: WorkDoneProgressParams,
    /// Partial-result token.
    pub partial_result: PartialResultParams,
}

/// The full set of semantic tokens for a document (or range).
#[derive(Debug, Clone, PartialEq, Eq, Default)]
pub struct SemanticTokens {
    /// An opaque id for this result, for later delta requests.
    pub result_id: Option<String>,
    /// The encoded tokens: relative 5-tuples
    /// `[deltaLine, deltaStart, length, tokenType, tokenModifiers]`.
    pub data: Vec<u32>,
}

/// The result of `textDocument/semanticTokens/full/delta`: a full re-scan
/// or an edit list against the previous result.
#[derive(Debug, Clone, PartialEq, Eq)]
pub enum SemanticTokensDeltaResult {
    /// A full token set.
    Tokens(SemanticTokens),
    /// An incremental delta against the previous result.
    Delta(SemanticTokensDelta),
}

/// An incremental edit against a previous token array.
#[derive(Debug, Clone, PartialEq, Eq, Default)]
pub struct SemanticTokensDelta {
    /// The new result's id, for further deltas to build on.
    pub result_id: Option<String>,
    /// The edits to apply, in order.
    pub edits: Vec<SemanticTokensEdit>,
}

/// One splice into a previous token array: remove `delete_count` numbers at
/// `start`, then insert `data` (if any) in their place.
#[derive(Debug, Clone, PartialEq, Eq, Default)]
pub struct SemanticTokensEdit {
    /// The index into the previous data array to start editing at.
    pub start: u32,
    /// How many numbers to remove starting at `start`.
    pub delete_count: u32,
    /// The numbers to insert in their place, if any.
    pub data: Option<Vec<u32>>,
}

/// The server's `full` semantic-tokens support: a bare flag, or an object
/// opting into `full/delta` as well.
#[derive(Debug, Clone, Copy, PartialEq, Eq)]
pub enum SemanticTokensFullOptions {
    /// Full-document tokens are (not) supported, with no delta support.
    Simple(bool),
    /// Full-document tokens are supported, with delta support as given.
    Delta {
        /// Whether `semanticTokens/full/delta` is supported.
        delta: Option<bool>,
    },
}

/// The server's `textDocument/semanticTokens` support.
#[derive(Debug, Clone, PartialEq, Eq)]
pub struct SemanticTokensOptions {
    /// The token/modifier legend every token's indices refer to.
    pub legend: SemanticTokensLegend,
    /// Whether `textDocument/semanticTokens/range` is supported.
    pub range: Option<bool>,
    /// Whether `textDocument/semanticTokens/full` (and optionally
    /// `full/delta`) is supported.
    pub full: Option<SemanticTokensFullOptions>,
}

/// An absolute token: line, start column, length, type index, modifier
/// bits.
pub type Token = (u32, u32, u32, u32, u32);

/// Document order on tokens: lexicographic on all five fields.
pub open spec fn token_le(a: Token, b: Token) -> bool {
    a.0 < b.0 || (a.0 == b.0 && (a.1 < b.1 || (a.1 == b.1 && (a.2 < b.2 || (a.2 == b.2 && (a.3
        < b.3 || (a.3 == b.3 && a.4 <= b.4)))))))
}

/// Whether `s` is in document order.
pub open spec fn tokens_sorted(s: Seq<Token>) -> bool {
    forall|i: int, j: int| 0 <= i < j < s.len() ==> token_le(#[trigger] s[i], #[trigger] s[j])
}

/// The relative encoding of token `t` following token `prev`.
pub open spec fn relative(t: Token, prev: Token) -> Seq<u32> {
    let delta_line = (t.0 - prev.0) as u32;
    let delta_start = if t.0 == prev.0 {
        (t.1 - prev.1) as u32
    } else {
        t.1
    };
    seq![delta_line, delta_start, t.2, t.3, t.4]
}

/// The protocol's relative encoding of `s`: each token's line relative to
/// the previous token's line, and its start relative to the previous
/// token's start when both are on the same line (the first token is
/// relative to line 0, column 0).
pub open spec fn delta_encode(s: Seq<Token>) -> Seq<u32>
    decreases s.len(),
{
    if s.len() == 0 {
        Seq::empty()
    } else {
        let prev = if s.len() >= 2 {
            s[s.len() - 2]
        } else {
            (0u32, 0u32, 0u32, 0u32, 0u32)
        };
        delta_encode(s.drop_last()) + relative(s.last(), prev)
    }
}

/// The token that the relative 5-tuple `g` stands for, following `prev`:
/// its line is `prev`'s plus the line delta, and its start is `prev`'s
/// plus the start delta on the same line, or the start delta itself on a
/// new line.
pub open spec fn decode_relative(g: Seq<u32>, prev: Token) -> Token {
    let line = (prev.0 + g[0]) as u32;
    let start = if g[0] == 0 {
        (prev.1 + g[1]) as u32
    } else {
        g[1]
    };
    (line, start, g[2], g[3], g[4])
}

/// Read relative token data back as absolute tokens, five numbers per
/// token, each relative to the token before it (the first to line 0,
/// column 0).
pub open spec fn delta_decode(data: Seq<u32>) -> Seq<Token>
    decreases data.len(),
{
    if data.len() < 5 {
        Seq::empty()
    } else {
        let before = delta_decode(data.subrange(0, data.len() - 5));
        let prev = if before.len() > 0 {
            before.last()
        } else {
            (0u32, 0u32, 0u32, 0u32, 0u32)
        };
        before.push(decode_relative(data.subrange(data.len() - 5, data.len() as int), prev))
    }
}

/// Reading the relative encoding of tokens in document order back gives
/// those tokens.
pub proof fn lemma_delta_decode_inverts(s: Seq<Token>)
    requires
        tokens_sorted(s),
    ensures
        delta_encode(s).len() == 5 * s.len(),
        delta_decode(delta_encode(s)) == s,
    decreases s.len(),
{
    if s.len() > 0 {
        let init = s.drop_last();
        assert(tokens_sorted(init));
        lemma_delta_decode_inverts(init);
        let data = delta_encode(s);
        let t = s.last();
        let prev = if s.len() >= 2 {
            s[s.len() - 2]
        } else {
            (0u32, 0u32, 0u32, 0u32, 0u32)
        };
        if s.len() >= 2 {
            assert(token_le(s[s.len() - 2], s[s.len() - 1]));
        }
        assert(data.subrange(0, data.len() - 5) =~= delta_encode(init));
        assert(data.subrange(data.len() - 5, data.len() as int) =~= relative(t, prev));
        assert(init.len() > 0 ==> init.last() == prev);
        assert(decode_relative(relative(t, prev), prev) == t);
        assert(delta_decode(data) =~= init.push(t));
    } else {
        assert(delta_encode(s) =~= Seq::<u32>::empty());
    }
}

/// Tokens have one order: two sequences in document order holding the
/// same tokens are equal, so the data a builder emits does not depend on
/// the order in which its tokens were pushed.
pub proof fn lemma_sorted_tokens_unique(a: Seq<Token>, b: Seq<Token>)
    requires
        tokens_sorted(a),
        tokens_sorted(b),
        a.to_multiset() == b.to_multiset(),
    ensures
        a == b,
{
    let le = |x: Token, y: Token| token_le(x, y);
    assert forall|x: Token, y: Token| #[trigger] le(x, y) && #[trigger] le(y, x) implies x == y by {
        assert(x.0 == y.0 && x.1 == y.1 && x.2 == y.2 && x.3 == y.3 && x.4 == y.4);
    }
    assert forall|x: Token, y: Token, z: Token|
        #[trigger] le(x, y) && #[trigger] le(y, z) implies le(x, z) by {}
    assert forall|x: Token, y: Token| #[trigger] le(x, y) || #[trigger] le(y, x) by {}
    assert forall|x: Token| #[trigger] le(x, x) by {}
    assert(vstd::relations::sorted_by(a, le));
    assert(vstd::relations::sorted_by(b, le));
    vstd::seq_lib::lemma_sorted_unique(a, b, le);
}

/// The index of the first name in `names` equal to `name`, searching from
/// `from`.
pub open spec fn name_index_from(names: Seq<Seq<char>>, name: Seq<char>, from: int) -> Option<
    nat,
>
    decreases names.len() - from,
{
    if from < 0 || from >= names.len() {
        None
    } else if names[from] == name {
        Some(from as nat)
    } else {
        name_index_from(names, name, from + 1)
    }
}

/// The index of `name` in `names`, if present.
pub open spec fn name_index(names: Seq<Seq<char>>, name: Seq<char>) -> Option<nat> {
    name_index_from(names, name, 0)
}

/// The modifier bitmask for `names` (one bit per legend index), or the
/// first name missing from the legend `legend`.
pub open spec fn modifier_bits(legend: Seq<Seq<char>>, names: Seq<Seq<char>>) -> Result<
    u32,
    Seq<char>,
>
    decreases names.len(),
{
    if names.len() == 0 {
        Ok(0)
    } else {
        match modifier_bits(legend, names.drop_last()) {
            Err(missing) => Err(missing),
            Ok(bits) => match name_index(legend, names.last()) {
                Some(k) => Ok(bits | (1u32 << (k as u32))),
                None => Err(names.last()),
            },
        }
    }
}

/// Every name of `names` that is in `legend` sits at an index below 32, so
/// it has a bit of its own.
pub open spec fn modifiers_fit(legend: Seq<Seq<char>>, names: Seq<Seq<char>>) -> bool {
    forall|i: int|
        0 <= i < names.len() ==> (name_index(legend, #[trigger] names[i]) matches Some(k) ==> k
            < 32)
}

/// What pushing a token named `token_type` with `modifiers` against the
/// legend (`types`, `modifier_names`) resolves to: the type index and
/// modifier bits, or the error message naming the first unknown name.
pub open spec fn resolve_token(
    types: Seq<Seq<char>>,
    modifier_names: Seq<Seq<char>>,
    token_type: Seq<char>,
    modifiers: Seq<Seq<char>>,
) -> Result<(u32, u32), Seq<char>> {
    match name_index(types, token_type) {
        None => Err("token type "@ + debug_text(token_type) + " is not in the legend"@),
        Some(t) => match modifier_bits(modifier_names, modifiers) {
            Err(name) => Err("token modifier "@ + debug_text(name) + " is not in the legend"@),
            Ok(bits) => Ok((t as u32, bits)),
        },
    }
}

/// The `(line, start, length)` of the single-line tokens covering `range`
/// from line `line` on: each line's part of the range, clamped to the
/// line's length in `encoding` units, skipping empty parts and stopping at
/// the end of the text.
pub open spec fn range_pieces_from(
    text: Seq<u8>,
    range: Range,
    encoding: PositionEncodingKind,
    line: int,
) -> Seq<(u32, u32, u32)>
    decreases range.end.line + 1 - line,
{
    if line < 0 || line > range.end.line {
        Seq::empty()
    } else {
        match line_start_at(text, line as nat) {
            None => Seq::empty(),
            Some(st) => {
                let line_units = units(encoding, text.subrange(st, newline_from(text, st)));
                let start: int = if line == range.start.line {
                    if range.start.character <= line_units {
                        range.start.character as int
                    } else {
                        line_units as int
                    }
                } else {
                    0
                };
                let end: int = if line == range.end.line {
                    if range.end.character <= line_units {
                        range.end.character as int
                    } else {
                        line_units as int
                    }
                } else {
                    line_units as int
                };
                let piece = if end > start {
                    seq![(line as u32, start as u32, (end - start) as u32)]
                } else {
                    Seq::empty()
                };
                piece + range_pieces_from(text, range, encoding, line + 1)
            },
        }
    }
}

/// Whether every line of `text` that `range` covers is at most
/// `u32::MAX` `encoding` units long, so that its columns fit in a token.
pub open spec fn range_lines_fit(text: Seq<u8>, range: Range, encoding: PositionEncodingKind) -> bool {
    forall|l: int|
        range.start.line <= l <= range.end.line ==> (#[trigger] line_start_at(text, l as nat) matches Some(
            st,
        ) ==> units(encoding, text.subrange(st, newline_from(text, st))) <= u32::MAX)
}

/// The `(line, start, length)` pieces of `range` (see
/// [`range_pieces_from`]).
pub open spec fn range_pieces(text: Seq<u8>, range: Range, encoding: PositionEncodingKind) -> Seq<
    (u32, u32, u32),
> {
    if range.start.line <= range.end.line {
        range_pieces_from(text, range, encoding, range.start.line as int)
    } else {
        Seq::empty()
    }
}

/// Sort tokens into document order (`<[T]>::sort_unstable`, with the
/// lexicographic order std defines on tuples of integers): the result is a
/// permutation of the input in ascending order.
#[verifier::external_body]
fn sort_tokens(v: &mut Vec<Token>)
    ensures
        tokens_sorted(final(v)@),
        final(v)@.to_multiset() == old(v)@.to_multiset(),
{
    v.sort_unstable();
}

fn clone_names(names: &Vec<String>) -> (r: Vec<String>)
    ensures
        r@.map_values(|s: String| s@) == names@.map_values(|s: String| s@),
{
    let mut out: Vec<String> = Vec::new();
    let mut i: usize = 0;
    while i < names.len()
        invariant
            i <= names.len(),
            out@.map_values(|s: String| s@) == names@.take(i as int).map_values(|s: String| s@),
        decreases names.len() - i,
    {
        out.push(names[i].clone());
        proof {
            assert(names@.take(i + 1).map_values(|s: String| s@) =~= names@.take(
                i as int,
            ).map_values(|s: String| s@).push(names@[i as int]@));
            assert(out@.map_values(|s: String| s@) =~= names@.take(i + 1).map_values(
                |s: String| s@,
            ));
        }
        i += 1;
    }
    proof {
        assert(names@.take(names.len() as int) =~= names@);
    }
    out
}

fn find_name(names: &Vec<String>, name: &str) -> (r: Option<usize>)
    ensures
        match r {
            Some(k) => name_index(names@.map_values(|s: String| s@), name@) == Some(k as nat) && k
                < names.len(),
            None => name_index(names@.map_values(|s: String| s@), name@) is None,
        },
{
    let ghost view = names@.map_values(|s: String| s@);
    let mut i: usize = 0;
    while i < names.len()
        invariant
            i <= names.len(),
            view == names@.map_values(|s: String| s@),
            name_index_from(view, name@, 0) == name_index_from(view, name@, i as int),
        decreases names.len() - i,
    {
        if str_eq(names[i].as_str(), name) {
            return Some(i);
        }
        i += 1;
    }
    None
}

/// Builds the spec's relative-encoded token array from absolute token
/// positions. Tokens may be pushed in any order; [`build`](Self::build)
/// sorts them into document order and delta-encodes them.
#[derive(Debug, Clone)]
pub struct SemanticTokensBuilder {
    token_types: Vec<String>,
    token_modifiers: Vec<String>,
    tokens: Vec<Token>,
}

impl SemanticTokensBuilder {
    /// The legend's token type names.
    pub closed spec fn types(&self) -> Seq<Seq<char>> {
        self.token_types@.map_values(|s: String| s@)
    }

    /// The legend's token modifier names.
    pub closed spec fn modifier_names(&self) -> Seq<Seq<char>> {
        self.token_modifiers@.map_values(|s: String| s@)
    }

    /// The absolute tokens pushed so far, in push order.
    pub closed spec fn tokens(&self) -> Seq<Token> {
        self.tokens@
    }

    /// A builder against the legend the server advertised; names passed to
    /// [`push`](Self::push) resolve to indices in it.
    pub fn new(legend: &SemanticTokensLegend) -> (r: Self)
        ensures
            r.types() == legend.token_types@.map_values(|s: String| s@),
            r.modifier_names() == legend.token_modifiers@.map_values(|s: String| s@),
            r.tokens() == Seq::<Token>::empty(),
    {
        SemanticTokensBuilder {
            token_types: clone_names(&legend.token_types),
            token_modifiers: clone_names(&legend.token_modifiers),
            tokens: Vec::new(),
        }
    }

    /// Resolve a token type and modifier names against the legend.
    fn resolve(&self, token_type: &str, modifiers: &[&str]) -> (r: Result<(u32, u32), Error>)
        requires
            modifiers_fit(self.modifier_names(), modifiers@.map_values(|m: &str| m@)),
            self.types().len() <= u32::MAX,
        ensures
            match resolve_token(
                self.types(),
                self.modifier_names(),
                token_type@,
                modifiers@.map_values(|m: &str| m@),
            ) {
                Ok(v) => r == Ok::<(u32, u32), Error>(v),
                Err(message) => r matches Err(e) && is_response_error(
                    e,
                    codes::INTERNAL_ERROR,
                    message,
                ),
            },
    {
        let ghost names = modifiers@.map_values(|m: &str| m@);
        let type_index = match find_name(&self.token_types, token_type) {
            Some(k) => k as u32,
            None => {
                let quoted = debug_quoted(token_type);
                let message = concat3("token type ", quoted.as_str(), " is not in the legend");
                return Err(Error::internal(message.as_str()));
            },
        };
        let mut bits: u32 = 0;
        let mut i: usize = 0;
        while i < modifiers.len()
            invariant
                i <= modifiers.len(),
                names == modifiers@.map_values(|m: &str| m@),
                modifiers_fit(self.modifier_names(), names),
                name_index(self.types(), token_type@) == Some(type_index as nat),
                modifier_bits(self.modifier_names(), names.take(i as int)) == Ok::<
                    u32,
                    Seq<char>,
                >(bits),
            decreases modifiers.len() - i,
        {
            proof {
                assert(names.take(i + 1).drop_last() =~= names.take(i as int));
                assert(names.take(i + 1).last() == names[i as int]);
            }
            match find_name(&self.token_modifiers, modifiers[i]) {
                Some(k) => {
                    proof {
                        assert(name_index(self.modifier_names(), names[i as int]) matches Some(
                            j,
                        ) ==> j < 32);
                    }
                    bits = bits | (1u32 << (k as u32));
                },
                None => {
                    proof {
                        lemma_bits_error_persists(self.modifier_names(), names, i as int);
                    }
                    let quoted = debug_quoted(modifiers[i]);
                    let message = concat3(
                        "token modifier ",
                        quoted.as_str(),
                        " is not in the legend",
                    );
                    return Err(Error::internal(message.as_str()));
                },
            }
            i += 1;
        }
        proof {
            assert(names.take(modifiers.len() as int) =~= names);
        }
        Ok((type_index, bits))
    }

    /// Add a single-line token at an absolute position, resolving
    /// `token_type` and `modifiers` names against the legend. Fails, adding
    /// nothing, if a name is not in the legend (the type is checked first,
    /// then the modifiers in order).
    pub fn push(
        &mut self,
        line: u32,
        start: u32,
        length: u32,
        token_type: &str,
        modifiers: &[&str],
    ) -> (r: Result<(), Error>)
        requires
            modifiers_fit(old(self).modifier_names(), modifiers@.map_values(|m: &str| m@)),
            old(self).types().len() <= u32::MAX,
        ensures
            final(self).types() == old(self).types(),
            final(self).modifier_names() == old(self).modifier_names(),
            match resolve_token(
                old(self).types(),
                old(self).modifier_names(),
                token_type@,
                modifiers@.map_values(|m: &str| m@),
            ) {
                Ok((t, bits)) => r is Ok && final(self).tokens() == old(self).tokens().push(
                    (line, start, length, t, bits),
                ),
                Err(message) => r matches Err(e) && is_response_error(
                    e,
                    codes::INTERNAL_ERROR,
                    message,
                ) && final(self).tokens() == old(self).tokens(),
            },
    {
        let (type_index, bits) = self.resolve(token_type, modifiers)?;
        self.push_raw(line, start, length, type_index, bits);
        Ok(())
    }

    /// Add tokens covering `range` in `text`, one per line of the range
    /// (semantic tokens are single-line), with columns and lengths in
    /// `encoding` units; empty pieces are skipped. `index` must index
    /// `text`, and each line the range covers must be at most `u32::MAX`
    /// units long. Fails, adding nothing, if some piece is to be added and
    /// a name is not in the legend.
    pub fn push_range(
        &mut self,
        text: &str,
        index: &LineIndex,
        range: Range,
        encoding: PositionEncodingKind,
        token_type: &str,
        modifiers: &[&str],
    ) -> (r: Result<(), Error>)
        requires
            index.text() == text.spec_bytes(),
            range_lines_fit(text.spec_bytes(), range, encoding),
            modifiers_fit(old(self).modifier_names(), modifiers@.map_values(|m: &str| m@)),
            old(self).types().len() <= u32::MAX,
        ensures
            final(self).types() == old(self).types(),
            final(self).modifier_names() == old(self).modifier_names(),
            ({
                let pieces = range_pieces(text.spec_bytes(), range, encoding);
                if pieces.len() == 0 {
                    r is Ok && final(self).tokens() == old(self).tokens()
                } else {
                    match resolve_token(
                        old(self).types(),
                        old(self).modifier_names(),
                        token_type@,
                        modifiers@.map_values(|m: &str| m@),
                    ) {
                        Ok((t, bits)) => r is Ok && final(self).tokens() == old(self).tokens()
                            + pieces.map_values(
                            |p: (u32, u32, u32)| (p.0, p.1, p.2, t, bits),
                        ),
                        Err(message) => r matches Err(e) && is_response_error(
                            e,
                            codes::INTERNAL_ERROR,
                            message,
                        ) && final(self).tokens() == old(self).tokens(),
                    }
                }
            }),
    {
        let ghost s = text.spec_bytes();
        let ghost resolved = resolve_token(
            self.types(),
            self.modifier_names(),
            token_type@,
            modifiers@.map_values(|m: &str| m@),
        );
        let ghost old_tokens = self.tokens();
        if range.start.line > range.end.line {
            return Ok(());
        }
        let len = text.as_bytes().len();
        let mut line: u32 = range.start.line;
        let ghost mut done: Seq<(u32, u32, u32)> = Seq::empty();
        loop
            invariant_except_break
                range_pieces_from(s, range, encoding, range.start.line as int) == done
                    + range_pieces_from(s, range, encoding, line as int),
            invariant
                s == text.spec_bytes(),
                len == s.len(),
                index.text() == s,
                range_lines_fit(s, range, encoding),
                range.start.line <= line,
                line <= range.end.line,
                self.types() == old(self).types(),
                self.modifier_names() == old(self).modifier_names(),
                old_tokens == old(self).tokens(),
                modifiers_fit(self.modifier_names(), modifiers@.map_values(|m: &str| m@)),
                self.types().len() <= u32::MAX,
                resolved == resolve_token(
                    self.types(),
                    self.modifier_names(),
                    token_type@,
                    modifiers@.map_values(|m: &str| m@),
                ),
                done.len() > 0 ==> resolved is Ok,
                resolved matches Ok((t, bits)) ==> self.tokens() == old_tokens + done.map_values(
                    |p: (u32, u32, u32)| (p.0, p.1, p.2, t, bits),
                ),
                done.len() == 0 ==> self.tokens() == old_tokens,
            ensures
                range_pieces_from(s, range, encoding, range.start.line as int) == done,
                done.len() > 0 ==> resolved is Ok,
                resolved matches Ok((t, bits)) ==> self.tokens() == old_tokens + done.map_values(
                    |p: (u32, u32, u32)| (p.0, p.1, p.2, t, bits),
                ),
                done.len() == 0 ==> self.tokens() == old_tokens,
                self.types() == old(self).types(),
                self.modifier_names() == old(self).modifier_names(),
            decreases range.end.line - line,
        {
            let line_start = match index.line_start(line) {
                Some(start) => start,
                None => {
                    proof {
                        assert(done + Seq::<(u32, u32, u32)>::empty() =~= done);
                    }
                    break ;
                },
            };
            proof {
                lemma_next_line_start(s, line as nat, line_start as int);
            }
            let line_end = find_newline(text.as_bytes(), line_start);
            proof {
                assert(line_start_at(s, line as nat) == Some(line_start as int));
            }
            let line_units = units_between(text, line_start, line_end, encoding) as u32;
            let start = if line == range.start.line {
                if range.start.character <= line_units {
                    range.start.character
                } else {
                    line_units
                }
            } else {
                0
            };
            let end = if line == range.end.line {
                if range.end.character <= line_units {
                    range.end.character
                } else {
                    line_units
                }
            } else {
                line_units
            };
            let ghost piece: Seq<(u32, u32, u32)> = if end > start {
                seq![(line, start, (end - start) as u32)]
            } else {
                Seq::empty()
            };
            proof {
                assert(range_pieces_from(s, range, encoding, line as int) == piece
                    + range_pieces_from(s, range, encoding, line + 1));
            }
            if end > start {
                let ghost before = self.tokens();
                match self.push(line, start, end - start, token_type, modifiers) {
                    Ok(()) => {},
                    Err(e) => {
                        proof {
                            assert(done.len() == 0);
                            assert(range_pieces(s, range, encoding) =~= piece
                                + range_pieces_from(s, range, encoding, line + 1));

                        }
                        return Err(e);
                    },
                }
                proof {
                    if let Ok((t, bits)) = resolved {
                        assert(self.tokens() =~= old_tokens + (done + piece).map_values(
                            |p: (u32, u32, u32)| (p.0, p.1, p.2, t, bits),
                        ));
                    }
                }
            }
            proof {
                assert(done + (piece + range_pieces_from(s, range, encoding, line + 1)) =~= (done
                    + piece) + range_pieces_from(s, range, encoding, line + 1));
                done = done + piece;
            }
            if line == range.end.line {
                proof {
                    assert(range_pieces_from(s, range, encoding, line + 1) =~= Seq::<
                        (u32, u32, u32),
                    >::empty());
                    assert(done + Seq::<(u32, u32, u32)>::empty() =~= done);
                }
                break ;
            }
            line += 1;
        }
        Ok(())
    }

    /// Add a token by pre-resolved legend index and modifier bitmask.
    pub fn push_raw(
        &mut self,
        line: u32,
        start: u32,
        length: u32,
        type_index: u32,
        modifier_bits: u32,
    )
        ensures
            final(self).types() == old(self).types(),
            final(self).modifier_names() == old(self).modifier_names(),
            final(self).tokens() == old(self).tokens().push(
                (line, start, length, type_index, modifier_bits),
            ),
    {
        self.tokens.push((line, start, length, type_index, modifier_bits));
    }

    /// Sort the tokens into document order and emit their relative
    /// encoding.
    pub fn build(self, result_id: Option<String>) -> (r: SemanticTokens)
        ensures
            r.result_id == result_id,
            exists|sorted: Seq<Token>|
                {
                    &&& tokens_sorted(sorted)
                    &&& sorted.to_multiset() == self.tokens().to_multiset()
                    &&& r.data@ == delta_encode(sorted)
                },
    {
        let mut tokens = self.tokens;
        sort_tokens(&mut tokens);
        let mut data: Vec<u32> = Vec::new();
        let mut previous_line: u32 = 0;
        let mut previous_start: u32 = 0;
        let mut i: usize = 0;
        proof {
            assert(tokens@.take(0) =~= Seq::<Token>::empty());
        }
        while i < tokens.len()
            invariant
                i <= tokens.len(),
                tokens_sorted(tokens@),
                data@ == delta_encode(tokens@.take(i as int)),
                i == 0 ==> previous_line == 0 && previous_start == 0,
                i > 0 ==> previous_line == tokens@[i - 1].0 && previous_start == tokens@[i - 1].1,
            decreases tokens.len() - i,
        {
            let (line, start, length, type_index, modifier_bits) = tokens[i];
            proof {
                if i > 0 {
                    assert(token_le(tokens@[i - 1], tokens@[i as int]));
                }
                assert(tokens@.take(i + 1).drop_last() =~= tokens@.take(i as int));
            }
            let delta_line = line - previous_line;
            let delta_start = if delta_line == 0 {
                start - previous_start
            } else {
                start
            };
            data.push(delta_line);
            data.push(delta_start);
            data.push(length);
            data.push(type_index);
            data.push(modifier_bits);
            proof {
                let prev = if i >= 1 {
                    tokens@[i - 1]
                } else {
                    (0u32, 0u32, 0u32, 0u32, 0u32)
                };
                assert(tokens@.take(i + 1)[i as int] == tokens@[i as int]);
                if i >= 1 {
                    assert(tokens@.take(i + 1)[i - 1] == tokens@[i - 1]);
                }
                assert(data@ =~= delta_encode(tokens@.take(i as int)) + relative(
                    tokens@[i as int],
                    prev,
                ));
            }
            previous_line = line;
            previous_start = start;
            i += 1;
        }
        proof {
            assert(tokens@.take(tokens.len() as int) =~= tokens@);
        }
        SemanticTokens { result_id, data }
    }
}

proof fn lemma_bits_error_persists(legend: Seq<Seq<char>>, names: Seq<Seq<char>>, i: int)
    requires
        0 <= i < names.len(),
        modifier_bits(legend, names.take(i)) is Ok,
        name_index(legend, names[i]) is None,
    ensures
        modifier_bits(legend, names) == Err::<u32, Seq<char>>(names[i]),
    decreases names.len() - i,
{
    if i + 1 == names.len() {
        assert(names.drop_last() =~= names.take(i));
    } else {
        assert(names.drop_last().take(i) =~= names.take(i));
        lemma_bits_error_persists(legend, names.drop_last(), i);
    }
}

} // verus!
