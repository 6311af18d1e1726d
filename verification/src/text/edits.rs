//! Applying a batch of [`TextEdit`]s to a text at once.
//!
//! The edits of a batch are all read against the text as it was before any
//! of them, in any order: each range is resolved to a byte span, and the spans, taken in
//! document order, are replaced by their new text. A batch in which a range
//! ends before it starts, or two ranges overlap, is refused as a whole.
//! Inserts at one position keep the order they have in the batch, and an
//! insert at the start of a replaced range goes before the replacement.

use crate::error::{codes, is_response_error, Error};
use crate::lsp::{PositionEncodingKind, TextEdit};
use crate::text::{lemma_position_offset_is_char_boundary, position_offset, position_to_offset_with};
use vstd::prelude::*;
use vstd::relations::{sorted_by, total_ordering};
use vstd::string::StringSliceAdditionalSpecFns;
use vstd::utf8::*;

verus! {

/// The span of the edit at index `i` of a batch: the byte offsets in `text`
/// where its range starts and ends (read in `encoding`), and `i` itself.
pub open spec fn edit_span(
    text: Seq<u8>,
    edit: TextEdit,
    i: int,
    encoding: PositionEncodingKind,
) -> (int, int, int) {
    (
        position_offset(text, edit.range.start, encoding),
        position_offset(text, edit.range.end, encoding),
        i,
    )
}

/// The spans of a batch of edits, in batch order.
pub open spec fn edit_spans(
    text: Seq<u8>,
    edits: Seq<TextEdit>,
    encoding: PositionEncodingKind,
) -> Seq<(int, int, int)> {
    Seq::new(edits.len(), |i: int| edit_span(text, edits[i], i, encoding))
}

/// Document order on spans: by start, then by end, then by place in the
/// batch.
pub open spec fn span_le(a: (int, int, int), b: (int, int, int)) -> bool {
    a.0 < b.0 || (a.0 == b.0 && (a.1 < b.1 || (a.1 == b.1 && a.2 <= b.2)))
}

/// [`span_le`] as a relation.
pub open spec fn document_order() -> spec_fn((int, int, int), (int, int, int)) -> bool {
    |a: (int, int, int), b: (int, int, int)| span_le(a, b)
}

/// Whether two spans share a byte (an empty span shares none, so an insert
/// overlaps only a range that strictly contains its position).
pub open spec fn spans_overlap(a: (int, int, int), b: (int, int, int)) -> bool {
    a.0 < b.1 && b.0 < a.1
}

/// Whether some edit's range ends before it starts.
pub open spec fn has_reversed_range(
    text: Seq<u8>,
    edits: Seq<TextEdit>,
    encoding: PositionEncodingKind,
) -> bool {
    exists|i: int|
        0 <= i < edits.len() && (#[trigger] edit_spans(text, edits, encoding)[i]).0 > edit_spans(
            text,
            edits,
            encoding,
        )[i].1
}

/// Whether a batch applies to `text`: no range ends before it starts, and
/// no two ranges overlap.
pub open spec fn edits_apply(
    text: Seq<u8>,
    edits: Seq<TextEdit>,
    encoding: PositionEncodingKind,
) -> bool {
    let spans = edit_spans(text, edits, encoding);
    &&& !has_reversed_range(text, edits, encoding)
    &&& forall|i: int, j: int|
        0 <= i < j < spans.len() ==> !spans_overlap(#[trigger] spans[i], #[trigger] spans[j])
}

/// The text from byte `from` on, with each span of `order` (taken in turn)
/// replaced by the new text of its edit.
pub open spec fn splice(
    text: Seq<u8>,
    from: int,
    order: Seq<(int, int, int)>,
    edits: Seq<TextEdit>,
) -> Seq<char>
    decreases order.len(),
{
    if order.len() == 0 {
        decode_utf8(text.subrange(from, text.len() as int))
    } else {
        decode_utf8(text.subrange(from, order[0].0)) + edits[order[0].2].new_text@ + splice(
            text,
            order[0].1,
            order.drop_first(),
            edits,
        )
    }
}

/// The text a batch that applies leaves: its spans, in document order,
/// replaced by their edits' new text.
pub open spec fn edited_text(
    text: Seq<u8>,
    edits: Seq<TextEdit>,
    encoding: PositionEncodingKind,
) -> Seq<char> {
    splice(text, 0, edit_spans(text, edits, encoding).sort_by(document_order()), edits)
}

/// The message of the error for a range that ends before it starts.
pub open spec fn reversed_range_message() -> Seq<char> {
    "text edit range ends before it starts"@
}

/// The message of the error for overlapping ranges.
pub open spec fn overlap_message() -> Seq<char> {
    "text edits overlap"@
}

/// Apply `edits` to `text` atomically, reading their ranges as UTF-16
/// positions (the base-spec default). See [`apply_edits_with`].
pub fn apply_edits(text: &str, edits: &[TextEdit]) -> (r: Result<String, Error>)
    ensures
        r is Ok <==> edits_apply(text.spec_bytes(), edits@, PositionEncodingKind::Utf16),
        r matches Ok(s) ==> s@ == edited_text(
            text.spec_bytes(),
            edits@,
            PositionEncodingKind::Utf16,
        ),
        r matches Err(e) ==> is_response_error(
            e,
            codes::INVALID_PARAMS,
            if has_reversed_range(text.spec_bytes(), edits@, PositionEncodingKind::Utf16) {
                reversed_range_message()
            } else {
                overlap_message()
            },
        ),
{
    apply_edits_with(text, edits, PositionEncodingKind::Utf16)
}

/// Apply `edits` to `text` atomically, reading their ranges in `encoding`.
/// Every range is read against the unedited text, so the edits may come in
/// any order. Returns the edited text, or an `INVALID_PARAMS` error (and no
/// change) when a range ends before it starts or two ranges overlap.
pub fn apply_edits_with(
    text: &str,
    edits: &[TextEdit],
    encoding: PositionEncodingKind,
) -> (r: Result<String, Error>)
    ensures
        r is Ok <==> edits_apply(text.spec_bytes(), edits@, encoding),
        r matches Ok(s) ==> s@ == edited_text(text.spec_bytes(), edits@, encoding),
        r matches Err(e) ==> is_response_error(
            e,
            codes::INVALID_PARAMS,
            if has_reversed_range(text.spec_bytes(), edits@, encoding) {
                reversed_range_message()
            } else {
                overlap_message()
            },
        ),
{
    let ghost bytes = text.spec_bytes();
    let ghost spans = edit_spans(bytes, edits@, encoding);
    let n = text.as_bytes().len();
    proof {
        lemma_document_order_total();
        encode_utf8_valid_utf8(text@);
        assert forall|i: int| 0 <= i < spans.len() implies 0 <= (#[trigger] spans[i]).0 <= bytes.len()
            && 0 <= spans[i].1 <= bytes.len() && is_char_boundary(bytes, spans[i].0)
            && is_char_boundary(bytes, spans[i].1) by {
            lemma_position_offset_is_char_boundary(text, edits@[i].range.start, encoding);
            lemma_position_offset_is_char_boundary(text, edits@[i].range.end, encoding);
        }
    }
    // Resolve every range, keeping the spans both in batch order and sorted
    // into document order.
    let mut resolved: Vec<(usize, usize)> = Vec::new();
    let mut order: Vec<(usize, usize, usize)> = Vec::new();
    let mut i: usize = 0;
    proof {
        assert(spans_of(order@) =~= Seq::<(int, int, int)>::empty());
        assert(spans.take(0) =~= Seq::<(int, int, int)>::empty());
    }
    while i < edits.len()
        invariant
            i <= edits@.len(),
            n == bytes.len(),
            bytes == text.spec_bytes(),
            spans == edit_spans(bytes, edits@, encoding),
            total_ordering(document_order()),
            resolved@.len() == i,
            forall|k: int|
                0 <= k < i ==> (#[trigger] resolved@[k]).0 == spans[k].0 && resolved@[k].1
                    == spans[k].1,
            forall|k: int| 0 <= k < i ==> (#[trigger] spans[k]).0 <= spans[k].1,
            order@.len() == i,
            sorted_by(spans_of(order@), document_order()),
            spans_of(order@).to_multiset() == spans.take(i as int).to_multiset(),
            forall|a: int|
                0 <= a < order@.len() ==> 0 <= (#[trigger] order@[a]).2 < i && spans_of(
                    order@,
                )[a] == spans[order@[a].2 as int],
            forall|a: int, b: int|
                0 <= a < b < order@.len() ==> (#[trigger] order@[a]).2 != (#[trigger] order@[b]).2,
        decreases edits@.len() - i,
    {
        let start = position_to_offset_with(text, edits[i].range.start, encoding);
        let end = position_to_offset_with(text, edits[i].range.end, encoding);
        if start > end {
            proof {
                assert(spans[i as int].0 > spans[i as int].1);
            }
            return Err(Error::invalid_params("text edit range ends before it starts"));
        }
        resolved.push((start, end));
        let x = (start, end, i);
        let ghost xs = as_span(x);
        assert(xs == spans[i as int]);
        let ghost g = spans_of(order@);
        let mut k: usize = 0;
        while k < order.len()
            invariant
                k <= order@.len(),
                g == spans_of(order@),
                xs == as_span(x),
                forall|m: int| 0 <= m < k ==> span_le(#[trigger] g[m], xs),
            ensures
                k <= order@.len(),
                forall|m: int| 0 <= m < k ==> span_le(#[trigger] g[m], xs),
                k < order@.len() ==> !span_le(g[k as int], xs),
            decreases order@.len() - k,
        {
            if !span_before(order[k], x) {
                break;
            }
            k += 1;
        }
        let ghost before = order@;
        order.insert(k, x);
        proof {
            broadcast use vstd::seq_lib::group_to_multiset_ensures;

            let g1 = spans_of(order@);
            assert(g1 =~= g.insert(k as int, xs));
            lemma_insert_keeps_sorted(g, k as int, xs);
            assert(spans.take(i + 1) =~= spans.take(i as int).push(spans[i as int]));
            assert forall|a: int| 0 <= a < order@.len() implies 0 <= (#[trigger] order@[a]).2
                < i + 1 && spans_of(order@)[a] == spans[order@[a].2 as int] by {
                if a > k {
                    assert(order@[a] == before[a - 1]);
                }
            }
            assert forall|a: int, b: int| 0 <= a < b < order@.len() implies (#[trigger] order@[
                a]).2 != (#[trigger] order@[b]).2 by {
                let pa = if a < k { a } else if a == k { -1 } else { a - 1 };
                let pb = if b < k { b } else if b == k { -1 } else { b - 1 };
                if pa >= 0 && pb >= 0 {
                    assert(order@[a] == before[pa] && order@[b] == before[pb]);
                } else if pa < 0 {
                    assert(order@[b] == before[pb]);
                } else {
                    assert(order@[a] == before[pa]);
                }
            }
        }
        i += 1;
    }
    proof {
        assert(spans.take(spans.len() as int) =~= spans);
        assert(!has_reversed_range(bytes, edits@, encoding));
    }
    // Refuse overlapping ranges.
    let mut a: usize = 0;
    while a < resolved.len()
        invariant
            a <= resolved@.len(),
            bytes == text.spec_bytes(),
            spans == edit_spans(bytes, edits@, encoding),
            !has_reversed_range(bytes, edits@, encoding),
            resolved@.len() == spans.len(),
            forall|k: int|
                0 <= k < spans.len() ==> (#[trigger] resolved@[k]).0 == spans[k].0
                    && resolved@[k].1 == spans[k].1,
            forall|p: int, q: int|
                0 <= p < a && p < q < spans.len() ==> !spans_overlap(
                    #[trigger] spans[p],
                    #[trigger] spans[q],
                ),
        decreases resolved@.len() - a,
    {
        let mut b: usize = a + 1;
        while b < resolved.len()
            invariant
                a < resolved@.len(),
                a + 1 <= b <= resolved@.len(),
                bytes == text.spec_bytes(),
                spans == edit_spans(bytes, edits@, encoding),
                !has_reversed_range(bytes, edits@, encoding),
                resolved@.len() == spans.len(),
                forall|k: int|
                    0 <= k < spans.len() ==> (#[trigger] resolved@[k]).0 == spans[k].0
                        && resolved@[k].1 == spans[k].1,
                forall|q: int|
                    a < q < b ==> !spans_overlap(spans[a as int], #[trigger] spans[q]),
            decreases resolved@.len() - b,
        {
            if resolved[a].0 < resolved[b].1 && resolved[b].0 < resolved[a].1 {
                proof {
                    assert(spans_overlap(spans[a as int], spans[b as int]));
                }
                return Err(Error::invalid_params("text edits overlap"));
            }
            b += 1;
        }
        a += 1;
    }
    // Splice the text, span by span, in document order.
    let ghost g = spans_of(order@);
    proof {
        spans.lemma_sort_by_ensures(document_order());
        vstd::seq_lib::lemma_sorted_unique(g, spans.sort_by(document_order()), document_order());
        lemma_document_order_chains(spans, g);
    }
    let mut out = String::new();
    let mut cursor: usize = 0;
    let mut k: usize = 0;
    proof {
        assert(g.skip(0) =~= g);
    }
    while k < order.len()
        invariant
            k <= order@.len(),
            n == bytes.len(),
            bytes == text.spec_bytes(),
            g == spans_of(order@),
            valid_utf8(bytes),
            cursor <= n,
            is_char_boundary(bytes, cursor as int),
            k < g.len() ==> cursor <= g[k as int].0,
            forall|m: int|
                0 <= m < g.len() ==> 0 <= (#[trigger] g[m]).0 <= g[m].1 <= bytes.len()
                    && is_char_boundary(bytes, g[m].0) && is_char_boundary(bytes, g[m].1) && 0
                    <= g[m].2 < edits@.len(),
            forall|m: int| 0 < m < g.len() ==> g[m - 1].1 <= (#[trigger] g[m]).0,
            out@ + splice(bytes, cursor as int, g.skip(k as int), edits@) == splice(
                bytes,
                0,
                g,
                edits@,
            ),
        decreases order@.len() - k,
    {
        let (start, end, index) = order[k];
        let piece = slice_between(text, cursor, start);
        out.append(piece);
        out.append(edits[index].new_text.as_str());
        proof {
            assert(g.skip(k as int).drop_first() =~= g.skip(k + 1));
            assert(g.skip(k as int)[0] == g[k as int]);
        }
        cursor = end;
        k += 1;
    }
    proof {
        encode_utf8_valid_utf8(text@);
        is_char_boundary_start_end_of_seq(bytes);
    }
    let rest = slice_between(text, cursor, n);
    out.append(rest);
    proof {
        assert(bytes.subrange(0, bytes.len() as int) =~= bytes);
    }
    Ok(out)
}

/// Whether no two edits of a batch cover the same span.
pub open spec fn spans_distinct(
    text: Seq<u8>,
    edits: Seq<TextEdit>,
    encoding: PositionEncodingKind,
) -> bool {
    let spans = edit_spans(text, edits, encoding);
    forall|i: int, j: int|
        0 <= i < j < spans.len() ==> (#[trigger] spans[i]).0 != (#[trigger] spans[j]).0
            || spans[i].1 != spans[j].1
}

/// Whether two edits of a batch overlap.
pub open spec fn has_overlap(
    text: Seq<u8>,
    edits: Seq<TextEdit>,
    encoding: PositionEncodingKind,
) -> bool {
    let spans = edit_spans(text, edits, encoding);
    exists|i: int, j: int|
        0 <= i < j < spans.len() && spans_overlap(#[trigger] spans[i], #[trigger] spans[j])
}

/// Whether a batch is accepted does not depend on the order of its edits:
/// a batch and any reordering of it have a backwards range, or overlapping
/// ranges, alike.
pub proof fn lemma_acceptance_ignores_order(
    text: Seq<u8>,
    edits: Seq<TextEdit>,
    reordered: Seq<TextEdit>,
    encoding: PositionEncodingKind,
)
    requires
        reordered.to_multiset() == edits.to_multiset(),
    ensures
        has_reversed_range(text, reordered, encoding) == has_reversed_range(text, edits, encoding),
        has_overlap(text, reordered, encoding) == has_overlap(text, edits, encoding),
        edits_apply(text, reordered, encoding) == edits_apply(text, edits, encoding),
{
    lemma_rejection_transfers(text, edits, reordered, encoding);
    lemma_rejection_transfers(text, reordered, edits, encoding);
    lemma_no_overlap_is_acceptance(text, edits, encoding);
    lemma_no_overlap_is_acceptance(text, reordered, encoding);
}

/// The text a batch leaves does not depend on the order of its edits, when
/// no two of them cover the same span. (Inserts at one position are made
/// in batch order, so for them the order does matter.)
pub proof fn lemma_edit_order_irrelevant(
    text: Seq<u8>,
    edits: Seq<TextEdit>,
    reordered: Seq<TextEdit>,
    encoding: PositionEncodingKind,
)
    requires
        reordered.to_multiset() == edits.to_multiset(),
        spans_distinct(text, edits, encoding),
    ensures
        edited_text(text, reordered, encoding) == edited_text(text, edits, encoding),
{
    broadcast use vstd::seq_lib::group_to_multiset_ensures;

    lemma_document_order_total();
    lemma_distinct_transfers(text, edits, reordered, encoding);
    let s1 = edit_spans(text, edits, encoding);
    let s2 = edit_spans(text, reordered, encoding);
    let g1 = s1.sort_by(document_order());
    let g2 = s2.sort_by(document_order());
    lemma_sorted_spans_strict(text, edits, encoding);
    lemma_sorted_spans_strict(text, reordered, encoding);
    let t1 = pieces(g1, edits);
    let t2 = pieces(g2, reordered);
    assert forall|x: (int, int, Seq<char>)| t1.contains(x) implies t2.contains(x) by {
        lemma_piece_moves(text, edits, reordered, encoding, x);
    }
    assert forall|x: (int, int, Seq<char>)| t2.contains(x) implies t1.contains(x) by {
        lemma_piece_moves(text, reordered, edits, encoding, x);
    }
    lemma_strictly_sorted_unique(t1, t2);
    lemma_splice_by_pieces(text, 0, g1, edits);
    lemma_splice_by_pieces(text, 0, g2, reordered);
}

/// A span, by its byte range and the new text that replaces it.
spec fn pieces(g: Seq<(int, int, int)>, edits: Seq<TextEdit>) -> Seq<(int, int, Seq<char>)> {
    g.map_values(|x: (int, int, int)| (x.0, x.1, edits[x.2].new_text@))
}

/// [`splice`] over pieces.
spec fn splice_pieces(text: Seq<u8>, from: int, order: Seq<(int, int, Seq<char>)>) -> Seq<char>
    decreases order.len(),
{
    if order.len() == 0 {
        decode_utf8(text.subrange(from, text.len() as int))
    } else {
        decode_utf8(text.subrange(from, order[0].0)) + order[0].2 + splice_pieces(
            text,
            order[0].1,
            order.drop_first(),
        )
    }
}

/// Whether piece `x` starts before `y`, or at the same byte and ends before it.
spec fn piece_lt(x: (int, int, Seq<char>), y: (int, int, Seq<char>)) -> bool {
    x.0 < y.0 || (x.0 == y.0 && x.1 < y.1)
}

/// Whether a sequence of pieces is strictly increasing by [`piece_lt`].
spec fn strictly_sorted(t: Seq<(int, int, Seq<char>)>) -> bool {
    forall|a: int, b: int| 0 <= a < b < t.len() ==> piece_lt(#[trigger] t[a], #[trigger] t[b])
}

proof fn lemma_splice_by_pieces(text: Seq<u8>, from: int, g: Seq<(int, int, int)>, edits: Seq<TextEdit>)
    ensures
        splice(text, from, g, edits) == splice_pieces(text, from, pieces(g, edits)),
    decreases g.len(),
{
    if g.len() > 0 {
        assert(pieces(g, edits).drop_first() =~= pieces(g.drop_first(), edits));
        lemma_splice_by_pieces(text, g[0].1, g.drop_first(), edits);
    }
}

/// Two strictly sorted sequences with the same elements are equal.
proof fn lemma_strictly_sorted_unique(t1: Seq<(int, int, Seq<char>)>, t2: Seq<(int, int, Seq<char>)>)
    requires
        strictly_sorted(t1),
        strictly_sorted(t2),
        forall|x: (int, int, Seq<char>)| t1.contains(x) <==> t2.contains(x),
    ensures
        t1 == t2,
    decreases t1.len(),
{
    if t1.len() == 0 {
        if t2.len() > 0 {
            assert(t2.contains(t2[0]));
        }
        assert(t1 =~= t2);
    } else {
        assert(t1.contains(t1[0]));
        let j = choose|j: int| 0 <= j < t2.len() && t2[j] == t1[0];
        assert(t2.contains(t2[0]));
        let i = choose|i: int| 0 <= i < t1.len() && t1[i] == t2[0];
        if j > 0 {
            assert(piece_lt(t2[0], t2[j]));
            if i > 0 {
                assert(piece_lt(t1[0], t1[i]));
            }
            assert(false);
        }
        let r1 = t1.drop_first();
        let r2 = t2.drop_first();
        assert forall|x: (int, int, Seq<char>)| r1.contains(x) implies r2.contains(x) by {
            let a = choose|a: int| 0 <= a < r1.len() && r1[a] == x;
            assert(t1[a + 1] == x);
            assert(piece_lt(t1[0], t1[a + 1]));
            assert(t2.contains(x));
            let b = choose|b: int| 0 <= b < t2.len() && t2[b] == x;
            assert(b != 0);
            assert(r2[b - 1] == x);
        }
        assert forall|x: (int, int, Seq<char>)| r2.contains(x) implies r1.contains(x) by {
            let a = choose|a: int| 0 <= a < r2.len() && r2[a] == x;
            assert(t2[a + 1] == x);
            assert(piece_lt(t2[0], t2[a + 1]));
            assert(t1.contains(x));
            let b = choose|b: int| 0 <= b < t1.len() && t1[b] == x;
            assert(b != 0);
            assert(r1[b - 1] == x);
        }
        lemma_strictly_sorted_unique(r1, r2);
        assert(t1 =~= seq![t1[0]] + r1);
        assert(t2 =~= seq![t2[0]] + r2);
    }
}

/// A sequence holds a value at two places exactly when its multiset counts
/// the value at least twice.
proof fn lemma_two_places<A>(s: Seq<A>, a: A)
    ensures
        (exists|i: int, j: int| 0 <= i < j < s.len() && s[i] == a && s[j] == a) <==> s.to_multiset().count(a)
            >= 2,
    decreases s.len(),
{
    broadcast use vstd::seq_lib::group_to_multiset_ensures;
    broadcast use vstd::multiset::group_multiset_axioms;

    if s.len() > 0 {
        let t = s.drop_last();
        lemma_two_places(t, a);
        assert(s =~= t.push(s.last()));
        if exists|i: int, j: int| 0 <= i < j < s.len() && s[i] == a && s[j] == a {
            let (i, j) = choose|i: int, j: int| 0 <= i < j < s.len() && s[i] == a && s[j] == a;
            if j < s.len() - 1 {
                assert(t[i] == a && t[j] == a);
            } else {
                assert(t[i] == a);
                assert(t.contains(a));
            }
        }
        if s.to_multiset().count(a) >= 2 {
            if s.last() == a {
                assert(t.to_multiset().count(a) >= 1);
                assert(t.contains(a));
                let i = choose|i: int| 0 <= i < t.len() && t[i] == a;
                assert(s[i] == a && s[s.len() - 1] == a);
            } else {
                let (i, j) = choose|i: int, j: int| 0 <= i < j < t.len() && t[i] == a && t[j] == a;
                assert(s[i] == a && s[j] == a);
            }
        }
    }
}

/// What rejects a batch rejects every reordering of it.
proof fn lemma_rejection_transfers(
    text: Seq<u8>,
    from: Seq<TextEdit>,
    to: Seq<TextEdit>,
    encoding: PositionEncodingKind,
)
    requires
        to.to_multiset() == from.to_multiset(),
    ensures
        has_reversed_range(text, from, encoding) ==> has_reversed_range(text, to, encoding),
        has_overlap(text, from, encoding) ==> has_overlap(text, to, encoding),
{
    broadcast use vstd::seq_lib::group_to_multiset_ensures;

    let sf = edit_spans(text, from, encoding);
    let st = edit_spans(text, to, encoding);
    if has_reversed_range(text, from, encoding) {
        let i = choose|i: int| 0 <= i < from.len() && (#[trigger] sf[i]).0 > sf[i].1;
        assert(from.contains(from[i]));
        lemma_contains_moves(from, to, from[i]);
        let j = choose|j: int| 0 <= j < to.len() && to[j] == from[i];
        assert(st[j].0 > st[j].1);
    }
    if has_overlap(text, from, encoding) {
        let (i, j) = choose|i: int, j: int|
            0 <= i < j < sf.len() && spans_overlap(#[trigger] sf[i], #[trigger] sf[j]);
        let a = from[i];
        let b = from[j];
        let (p, q) = if a == b {
            lemma_two_places(from, a);
            lemma_two_places(to, a);
            choose|p: int, q: int| 0 <= p < q < to.len() && to[p] == a && to[q] == a
        } else {
            assert(from.contains(a) && from.contains(b));
            lemma_contains_moves(from, to, a);
            lemma_contains_moves(from, to, b);
            let p = choose|p: int| 0 <= p < to.len() && to[p] == a;
            let q = choose|q: int| 0 <= q < to.len() && to[q] == b;
            (p, q)
        };
        assert(p != q);
        if p < q {
            assert(spans_overlap(st[p], st[q]));
        } else {
            assert(spans_overlap(st[q], st[p]));
        }
    }
}

/// A batch applies exactly when it has neither a backwards range nor two
/// overlapping ranges.
proof fn lemma_no_overlap_is_acceptance(
    text: Seq<u8>,
    edits: Seq<TextEdit>,
    encoding: PositionEncodingKind,
)
    ensures
        edits_apply(text, edits, encoding) == (!has_reversed_range(text, edits, encoding)
            && !has_overlap(text, edits, encoding)),
{
}

/// No two edits of a reordering cover the same span when no two edits
/// of the batch it reorders do.
proof fn lemma_distinct_transfers(
    text: Seq<u8>,
    from: Seq<TextEdit>,
    to: Seq<TextEdit>,
    encoding: PositionEncodingKind,
)
    requires
        to.to_multiset() == from.to_multiset(),
        spans_distinct(text, from, encoding),
    ensures
        spans_distinct(text, to, encoding),
{
    broadcast use vstd::seq_lib::group_to_multiset_ensures;

    let sf = edit_spans(text, from, encoding);
    let st = edit_spans(text, to, encoding);
    assert forall|i: int, j: int| 0 <= i < j < st.len() implies (#[trigger] st[i]).0 != (
    #[trigger] st[j]).0 || st[i].1 != st[j].1 by {
        let a = to[i];
        let b = to[j];
        let (p, q) = if a == b {
            lemma_two_places(to, a);
            lemma_two_places(from, a);
            choose|p: int, q: int| 0 <= p < q < from.len() && from[p] == a && from[q] == a
        } else {
            assert(to.contains(a) && to.contains(b));
            lemma_contains_moves(to, from, a);
            lemma_contains_moves(to, from, b);
            let p = choose|p: int| 0 <= p < from.len() && from[p] == a;
            let q = choose|q: int| 0 <= q < from.len() && from[q] == b;
            (p, q)
        };
        assert(p != q);
        if p < q {
            assert(sf[p].0 != sf[q].0 || sf[p].1 != sf[q].1);
        } else {
            assert(sf[q].0 != sf[p].0 || sf[q].1 != sf[p].1);
        }
    }
}

/// The pieces of a batch whose spans are distinct are strictly sorted in
/// document order.
proof fn lemma_sorted_spans_strict(
    text: Seq<u8>,
    edits: Seq<TextEdit>,
    encoding: PositionEncodingKind,
)
    requires
        spans_distinct(text, edits, encoding),
    ensures
        strictly_sorted(
            pieces(edit_spans(text, edits, encoding).sort_by(document_order()), edits),
        ),
{
    broadcast use vstd::seq_lib::group_to_multiset_ensures;

    lemma_document_order_total();
    let s = edit_spans(text, edits, encoding);
    let g = s.sort_by(document_order());
    s.lemma_sort_by_ensures(document_order());
    assert(s.no_duplicates()) by {
        assert forall|i: int, j: int| 0 <= i < s.len() && 0 <= j < s.len() && i != j implies s[i]
            != s[j] by {
            assert(s[i].2 == i && s[j].2 == j);
        }
    }
    s.lemma_multiset_has_no_duplicates();
    g.lemma_multiset_has_no_duplicates_conv();
    let t = pieces(g, edits);
    assert forall|a: int, b: int| 0 <= a < b < t.len() implies piece_lt(
        #[trigger] t[a],
        #[trigger] t[b],
    ) by {
        assert(document_order()(g[a], g[b]));
        assert(g[a] != g[b]);
        assert(g.contains(g[a]) && g.contains(g[b]));
        assert(s.contains(g[a]) && s.contains(g[b]));
        let i = choose|i: int| 0 <= i < s.len() && s[i] == g[a];
        let j = choose|j: int| 0 <= j < s.len() && s[j] == g[b];
        if i < j {
            assert(s[i].0 != s[j].0 || s[i].1 != s[j].1);
        } else {
            assert(s[j].0 != s[i].0 || s[j].1 != s[i].1);
        }
    }
}

/// A piece of a batch is a piece of every reordering of it.
proof fn lemma_piece_moves(
    text: Seq<u8>,
    from: Seq<TextEdit>,
    to: Seq<TextEdit>,
    encoding: PositionEncodingKind,
    x: (int, int, Seq<char>),
)
    requires
        to.to_multiset() == from.to_multiset(),
        pieces(edit_spans(text, from, encoding).sort_by(document_order()), from).contains(x),
    ensures
        pieces(edit_spans(text, to, encoding).sort_by(document_order()), to).contains(x),
{
    broadcast use vstd::seq_lib::group_to_multiset_ensures;

    lemma_document_order_total();
    let sf = edit_spans(text, from, encoding);
    let st = edit_spans(text, to, encoding);
    let gf = sf.sort_by(document_order());
    let gt = st.sort_by(document_order());
    sf.lemma_sort_by_ensures(document_order());
    st.lemma_sort_by_ensures(document_order());
    let tf = pieces(gf, from);
    let a = choose|a: int| 0 <= a < tf.len() && tf[a] == x;
    assert(gf.contains(gf[a]));
    assert(sf.contains(gf[a]));
    let i = choose|i: int| 0 <= i < sf.len() && sf[i] == gf[a];
    assert(from.contains(from[i]));
    lemma_contains_moves(from, to, from[i]);
    let j = choose|j: int| 0 <= j < to.len() && to[j] == from[i];
    assert(st.contains(st[j]));
    lemma_contains_moves(st, gt, st[j]);
    let b = choose|b: int| 0 <= b < gt.len() && gt[b] == st[j];
    assert(pieces(gt, to)[b] == x);
}

/// A value in a sequence is in every sequence with the same multiset.
proof fn lemma_contains_moves<A>(from: Seq<A>, to: Seq<A>, a: A)
    requires
        to.to_multiset() == from.to_multiset(),
        from.contains(a),
    ensures
        to.contains(a),
{
    vstd::seq_lib::to_multiset_contains(from, a);
    vstd::seq_lib::to_multiset_contains(to, a);
}

/// A resolved span as integers.
spec fn as_span(t: (usize, usize, usize)) -> (int, int, int) {
    (t.0 as int, t.1 as int, t.2 as int)
}

/// Resolved spans as integers.
spec fn spans_of(v: Seq<(usize, usize, usize)>) -> Seq<(int, int, int)> {
    v.map_values(|t: (usize, usize, usize)| as_span(t))
}

/// Whether span `a` comes no later than span `b` in document order.
fn span_before(a: (usize, usize, usize), b: (usize, usize, usize)) -> (r: bool)
    ensures
        r == span_le(as_span(a), as_span(b)),
{
    a.0 < b.0 || (a.0 == b.0 && (a.1 < b.1 || (a.1 == b.1 && a.2 <= b.2)))
}

/// The characters of `text` between two character boundaries.
fn slice_between<'a>(text: &'a str, lo: usize, hi: usize) -> (r: &'a str)
    requires
        lo <= hi <= text.spec_bytes().len(),
        is_char_boundary(text.spec_bytes(), lo as int),
        is_char_boundary(text.spec_bytes(), hi as int),
    ensures
        r@ == decode_utf8(text.spec_bytes().subrange(lo as int, hi as int)),
{
    proof {
        encode_utf8_valid_utf8(text@);
        lemma_tail_boundary(text.spec_bytes(), lo as int, hi as int);
    }
    let (_, tail) = text.split_at(lo);
    let (piece, _) = tail.split_at(hi - lo);
    proof {
        assert(piece.spec_bytes() =~= text.spec_bytes().subrange(lo as int, hi as int));
        encode_utf8_decode_utf8(piece@);
    }
    piece
}

/// A character boundary past `lo` is one of the bytes from `lo` on too.
proof fn lemma_tail_boundary(bytes: Seq<u8>, lo: int, hi: int)
    requires
        valid_utf8(bytes),
        0 <= lo <= hi <= bytes.len(),
        is_char_boundary(bytes, lo),
        is_char_boundary(bytes, hi),
    ensures
        is_char_boundary(bytes.subrange(lo, bytes.len() as int), hi - lo),
{
    let tail = bytes.subrange(lo, bytes.len() as int);
    valid_utf8_split(bytes, lo);
    if hi == bytes.len() {
        is_char_boundary_start_end_of_seq(tail);
    } else {
        is_char_boundary_iff_not_is_continuation_byte(bytes, hi);
        is_char_boundary_iff_not_is_continuation_byte(tail, hi - lo);
        assert(tail[hi - lo] == bytes[hi]);
    }
}

/// Document order is a total order.
proof fn lemma_document_order_total()
    ensures
        total_ordering(document_order()),
{
    let le = document_order();
    assert forall|x: (int, int, int), y: (int, int, int)|
        #[trigger] le(x, y) && #[trigger] le(y, x) implies x == y by {
        assert(x.0 == y.0 && x.1 == y.1 && x.2 == y.2);
    }
    assert forall|x: (int, int, int), y: (int, int, int), z: (int, int, int)|
        #[trigger] le(x, y) && #[trigger] le(y, z) implies le(x, z) by {}
    assert forall|x: (int, int, int), y: (int, int, int)|
        #[trigger] le(x, y) || #[trigger] le(y, x) by {}
    assert forall|x: (int, int, int)| #[trigger] le(x, x) by {}
}

/// Inserting `x` after every element that precedes it and before every
/// other keeps a sorted sequence sorted.
proof fn lemma_insert_keeps_sorted(g: Seq<(int, int, int)>, k: int, x: (int, int, int))
    requires
        total_ordering(document_order()),
        sorted_by(g, document_order()),
        0 <= k <= g.len(),
        forall|m: int| 0 <= m < k ==> span_le(#[trigger] g[m], x),
        k < g.len() ==> !span_le(g[k], x),
    ensures
        sorted_by(g.insert(k, x), document_order()),
{
    let le = document_order();
    let h = g.insert(k, x);
    assert forall|a: int, b: int| 0 <= a < b < h.len() implies #[trigger] le(h[a], h[b]) by {
        if b == k {
            assert(h[a] == g[a]);
        } else if a == k {
            assert(h[b] == g[b - 1]);
            assert(le(x, g[k]));
            if b - 1 > k {
                assert(le(g[k], g[b - 1]));
            }
        } else {
            let ga = if a < k { a } else { a - 1 };
            let gb = if b < k { b } else { b - 1 };
            assert(h[a] == g[ga]);
            assert(h[b] == g[gb]);
            if ga == gb {
            } else {
                assert(le(g[ga], g[gb]));
            }
        }
    }
}

/// In a batch whose ranges neither run backwards nor overlap, each span in
/// document order ends no later than the next one starts.
proof fn lemma_document_order_chains(spans: Seq<(int, int, int)>, g: Seq<(int, int, int)>)
    requires
        total_ordering(document_order()),
        sorted_by(g, document_order()),
        forall|i: int| 0 <= i < spans.len() ==> (#[trigger] spans[i]).0 <= spans[i].1,
        forall|i: int, j: int|
            0 <= i < j < spans.len() ==> !spans_overlap(#[trigger] spans[i], #[trigger] spans[j]),
        forall|a: int|
            0 <= a < g.len() ==> 0 <= (#[trigger] g[a]).2 < spans.len() && g[a] == spans[g[a].2],
        forall|a: int, b: int| 0 <= a < b < g.len() ==> (#[trigger] g[a]).2 != (#[trigger] g[b]).2,
    ensures
        forall|m: int| 0 < m < g.len() ==> g[m - 1].1 <= (#[trigger] g[m]).0,
        forall|m: int| 0 <= m < g.len() ==> (#[trigger] g[m]).0 <= g[m].1,
{
    assert forall|m: int| 0 < m < g.len() implies g[m - 1].1 <= (#[trigger] g[m]).0 by {
        let p = g[m - 1];
        let q = g[m];
        assert(document_order()(p, q));
        assert(p == spans[p.2] && q == spans[q.2]);
        if p.2 < q.2 {
            assert(!spans_overlap(spans[p.2], spans[q.2]));
        } else if q.2 < p.2 {
            assert(!spans_overlap(spans[q.2], spans[p.2]));
        }
    }
    assert forall|m: int| 0 <= m < g.len() implies (#[trigger] g[m]).0 <= g[m].1 by {
        assert(g[m] == spans[g[m].2]);
    }
}

} // verus!
