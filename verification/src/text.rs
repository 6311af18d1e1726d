//! Position-encoding-aware conversions between LSP positions and byte
//! offsets.
//!
//! The base LSP spec measures a position's `character` in UTF-16 code units,
//! while Rust strings are indexed in UTF-8 bytes. The functions here convert
//! between the two (and UTF-8 / UTF-32 columns for servers that negotiated
//! those). Lines are delimited by `\n`; a `\r` of a `\r\n` pair belongs to
//! the preceding line's content.
//!
//! All contracts are stated over the UTF-8 bytes of the text. A character is
//! counted once, at its leading byte: in UTF-8 every byte is one unit, in
//! UTF-32 every encoded character is one unit, and in UTF-16 characters
//! outside the basic multilingual plane (the four-byte encodings, whose
//! leading byte is `0xF0` or above) are two units and all others one.

mod edits;

pub use edits::{
    apply_edits, apply_edits_with, document_order, edit_span, edit_spans, edited_text,
    edits_apply, has_overlap, has_reversed_range, lemma_acceptance_ignores_order,
    lemma_edit_order_irrelevant, overlap_message, reversed_range_message, span_le, spans_distinct,
    spans_overlap, splice,
};

use crate::lsp::{Position, PositionEncodingKind};
use vstd::prelude::*;
use vstd::string::StringSliceAdditionalSpecFns;
use vstd::utf8::*;

verus! {

/// Whether `b` is a UTF-8 continuation byte (`0b10xx_xxxx`).
pub open spec fn is_continuation(b: u8) -> bool {
    0x80 <= b < 0xC0
}

/// Whether byte offset `i` is a character boundary of the UTF-8 bytes `s`:
/// the start, the end, or an offset whose byte is not a continuation byte.
pub open spec fn is_boundary(s: Seq<u8>, i: int) -> bool {
    i == 0 || i == s.len() || (0 < i < s.len() && !is_continuation(s[i]))
}

/// How many `encoding` code units byte `b` contributes to a column count.
pub open spec fn unit_weight(encoding: PositionEncodingKind, b: u8) -> nat {
    match encoding {
        PositionEncodingKind::Utf8 => 1,
        PositionEncodingKind::Utf16 => if is_continuation(b) {
            0
        } else if b >= 0xF0 {
            2
        } else {
            1
        },
        PositionEncodingKind::Utf32 => if is_continuation(b) {
            0
        } else {
            1
        },
    }
}

/// The length of the UTF-8 bytes `s` measured in `encoding` code units.
pub open spec fn units(encoding: PositionEncodingKind, s: Seq<u8>) -> nat
    decreases s.len(),
{
    if s.len() == 0 {
        0
    } else {
        units(encoding, s.drop_last()) + unit_weight(encoding, s.last())
    }
}

/// The largest character boundary of `s` that is at most `i` (and at most
/// `s.len()`).
pub open spec fn floor_boundary(s: Seq<u8>, i: int) -> int
    decreases i,
{
    if i >= s.len() {
        s.len() as int
    } else if i <= 0 {
        0
    } else if is_boundary(s, i) {
        i
    } else {
        floor_boundary(s, i - 1)
    }
}

/// The first character boundary at or after `from` at which at least
/// `column` `encoding` units precede it, or `s.len()` if there is none.
pub open spec fn first_reaching(
    encoding: PositionEncodingKind,
    s: Seq<u8>,
    column: nat,
    from: int,
) -> int
    decreases s.len() - from,
{
    if from >= s.len() {
        s.len() as int
    } else if is_boundary(s, from) && units(encoding, s.take(from)) >= column {
        from
    } else {
        first_reaching(encoding, s, column, from + 1)
    }
}

/// The byte offset within `line` of column `column` measured in
/// `encoding`. A UTF-8 column that lands inside a character floors to that
/// character's start; UTF-16 and UTF-32 columns resolve to the first
/// character boundary that reaches them; a column past the end clamps to
/// the end.
pub open spec fn column_offset(line: Seq<u8>, column: nat, encoding: PositionEncodingKind) -> int {
    match encoding {
        PositionEncodingKind::Utf8 => floor_boundary(line, column as int),
        _ => first_reaching(encoding, line, column, 0),
    }
}

/// The `encoding` column of byte offset `byte` within `line`, after
/// clamping it to the line and flooring it to a character boundary.
pub open spec fn offset_column(line: Seq<u8>, byte: int, encoding: PositionEncodingKind) -> nat {
    units(encoding, line.take(floor_boundary(line, byte)))
}

// ---------------------------------------------------------------------------
// Lemmas about the unit counts.

proof fn lemma_units_concat(encoding: PositionEncodingKind, a: Seq<u8>, b: Seq<u8>)
    ensures
        units(encoding, a + b) == units(encoding, a) + units(encoding, b),
    decreases b.len(),
{
    if b.len() > 0 {
        assert((a + b).drop_last() =~= a + b.drop_last());
        lemma_units_concat(encoding, a, b.drop_last());
    } else {
        assert(a + b =~= a);
    }
}

proof fn lemma_units_take_step(encoding: PositionEncodingKind, s: Seq<u8>, i: int)
    requires
        0 <= i < s.len(),
    ensures
        units(encoding, s.take(i + 1)) == units(encoding, s.take(i)) + unit_weight(encoding, s[i]),
{
    assert(s.take(i + 1).drop_last() =~= s.take(i));
}

proof fn lemma_units_monotone(encoding: PositionEncodingKind, s: Seq<u8>, i: int, j: int)
    requires
        0 <= i <= j <= s.len(),
    ensures
        units(encoding, s.take(i)) <= units(encoding, s.take(j)),
    decreases j - i,
{
    if i < j {
        lemma_units_take_step(encoding, s, j - 1);
        lemma_units_monotone(encoding, s, i, j - 1);
    }
}

proof fn lemma_units_utf8(s: Seq<u8>)
    ensures
        units(PositionEncodingKind::Utf8, s) == s.len(),
    decreases s.len(),
{
    if s.len() > 0 {
        lemma_units_utf8(s.drop_last());
    }
}

proof fn lemma_units_scalar_bound(encoding: PositionEncodingKind, c: char)
    ensures
        units(encoding, encode_scalar(c as u32)) <= encode_scalar(c as u32).len(),
{
    let v = c as u32;
    broadcast use char_is_scalar;

    let e = encode_scalar(v);
    reveal_with_fuel(units, 5);
    let l3 = last_continuation_byte(v);
    let l2 = second_last_continuation_byte(v);
    let l1 = third_last_continuation_byte(v);
    assert(0x80 <= l1 < 0xC0 && 0x80 <= l2 < 0xC0 && 0x80 <= l3 < 0xC0) by (bit_vector)
        requires
            l1 == 0x80 | ((v >> 12) & 0x3F) as u8,
            l2 == 0x80 | ((v >> 6) & 0x3F) as u8,
            l3 == 0x80 | (v & 0x3F) as u8,
    ;
    if has_width_1_encoding(v) {
        let b0 = leading_byte_width_1(v);
        assert(b0 < 0x80) by (bit_vector)
            requires
                b0 == (v & 0x7F) as u8,
        ;
        assert(e.drop_last() =~= Seq::<u8>::empty());
    } else if has_width_2_encoding(v) {
        let b0 = leading_byte_width_2(v);
        assert(0xC0 <= b0 < 0xE0) by (bit_vector)
            requires
                b0 == 0xC0 | ((v >> 6) & 0x1F) as u8,
        ;
        assert(e.drop_last() =~= seq![b0]);
        assert(e.drop_last().drop_last() =~= Seq::<u8>::empty());
    } else if has_width_3_encoding(v) {
        let b0 = leading_byte_width_3(v);
        assert(0xE0 <= b0 < 0xF0) by (bit_vector)
            requires
                b0 == 0xE0 | ((v >> 12) & 0x0F) as u8,
        ;
        assert(e.drop_last() =~= seq![b0, l2]);
        assert(e.drop_last().drop_last() =~= seq![b0]);
        assert(e.drop_last().drop_last().drop_last() =~= Seq::<u8>::empty());
    } else {
        let b0 = leading_byte_width_4(v);
        assert(e.drop_last() =~= seq![b0, l1, l2]);
        assert(e.drop_last().drop_last() =~= seq![b0, l1]);
        assert(e.drop_last().drop_last().drop_last() =~= seq![b0]);
        assert(e.drop_last().drop_last().drop_last().drop_last() =~= Seq::<u8>::empty());
    }
}

/// In valid UTF-8 a character never has more code units than bytes.
proof fn lemma_units_le_len(encoding: PositionEncodingKind, chars: Seq<char>)
    ensures
        units(encoding, encode_utf8(chars)) <= encode_utf8(chars).len(),
    decreases chars.len(),
{
    if chars.len() > 0 {
        lemma_units_le_len(encoding, chars.drop_first());
        lemma_units_scalar_bound(encoding, chars[0]);
        lemma_units_concat(
            encoding,
            encode_scalar(chars[0] as u32),
            encode_utf8(chars.drop_first()),
        );
    }
}

/// The unit count of any prefix of a string's bytes fits in the string's
/// byte length.
proof fn lemma_prefix_units_le_len(encoding: PositionEncodingKind, text: &str, i: int)
    requires
        0 <= i <= text.spec_bytes().len(),
    ensures
        units(encoding, text.spec_bytes().take(i)) <= text.spec_bytes().len(),
{
    let s = text.spec_bytes();
    lemma_units_le_len(encoding, text@);
    lemma_units_monotone(encoding, s, i, s.len() as int);
    assert(s.take(s.len() as int) =~= s);
}

// ---------------------------------------------------------------------------
// Line structure.

/// The index of the first `\n` byte of `s` at or after `from`, or
/// `s.len()` if there is none.
pub open spec fn newline_from(s: Seq<u8>, from: int) -> int
    decreases s.len() - from,
{
    if from >= s.len() {
        s.len() as int
    } else if s[from] == 0x0Au8 {
        from
    } else {
        newline_from(s, from + 1)
    }
}

/// The byte offset at which line `line` of `s` starts, if `s` has that
/// many lines (lines are the pieces between `\n` bytes; an empty text has
/// one empty line).
pub open spec fn line_start_at(s: Seq<u8>, line: nat) -> Option<int>
    decreases line,
{
    if line == 0 {
        Some(0)
    } else {
        match line_start_at(s, (line - 1) as nat) {
            Some(start) => if newline_from(s, start) < s.len() {
                Some(newline_from(s, start) + 1)
            } else {
                None
            },
            None => None,
        }
    }
}

/// The number of `\n` bytes in `s`.
pub open spec fn count_newlines(s: Seq<u8>) -> nat
    decreases s.len(),
{
    if s.len() == 0 {
        0
    } else {
        count_newlines(s.drop_last()) + if s.last() == 0x0Au8 {
            1nat
        } else {
            0nat
        }
    }
}

/// The offset just after the last `\n` byte of `s`, or 0 if it has none:
/// where the line containing the end of `s` starts.
pub open spec fn last_line_start(s: Seq<u8>) -> int
    decreases s.len(),
{
    if s.len() == 0 {
        0
    } else if s.last() == 0x0Au8 {
        s.len() as int
    } else {
        last_line_start(s.drop_last())
    }
}

/// The byte offset of `position` in `text`: the start of the position's
/// line plus the offset of its column within that line; a line past the
/// end of the text resolves to the text's length.
pub open spec fn position_offset(
    text: Seq<u8>,
    position: Position,
    encoding: PositionEncodingKind,
) -> int {
    match line_start_at(text, position.line as nat) {
        Some(start) => start + column_offset(
            text.subrange(start, newline_from(text, start)),
            position.character as nat,
            encoding,
        ),
        None => text.len() as int,
    }
}

/// The line of the byte offset `offset` (clamped and floored to a character
/// boundary): the number of `\n` bytes before it.
pub open spec fn offset_line(text: Seq<u8>, offset: int) -> nat {
    count_newlines(text.take(floor_boundary(text, offset)))
}

/// The column of the byte offset `offset` (clamped and floored to a
/// character boundary): the `encoding` units between the start of its line
/// and it.
pub open spec fn offset_character(text: Seq<u8>, offset: int, encoding: PositionEncodingKind) -> nat {
    let k = floor_boundary(text, offset);
    units(encoding, text.subrange(last_line_start(text.take(k)), k))
}

// ---------------------------------------------------------------------------
// Byte-level helpers.

fn is_continuation_byte(b: u8) -> (r: bool)
    ensures
        r == is_continuation(b),
{
    0x80 <= b && b < 0xC0
}

fn weight_of(encoding: PositionEncodingKind, b: u8) -> (r: u64)
    ensures
        r == unit_weight(encoding, b),
{
    match encoding {
        PositionEncodingKind::Utf8 => 1,
        PositionEncodingKind::Utf16 => if is_continuation_byte(b) {
            0
        } else if b >= 0xF0 {
            2
        } else {
            1
        },
        PositionEncodingKind::Utf32 => if is_continuation_byte(b) {
            0
        } else {
            1
        },
    }
}

proof fn lemma_boundary_sub(s: Seq<u8>, start: int, end: int, i: int)
    requires
        0 <= start <= end <= s.len(),
        0 <= i <= end - start,
    ensures
        is_boundary(s.subrange(start, end), i) == (i == 0 || i == end - start
            || !is_continuation(s[start + i])),
{
}

/// The largest character boundary of `bytes[start..end]` that is at most
/// `i`, relative to `start`.
fn floor_in(bytes: &[u8], start: usize, end: usize, i: usize) -> (r: usize)
    requires
        start <= end <= bytes.len(),
    ensures
        r == floor_boundary(bytes@.subrange(start as int, end as int), i as int),
{
    let ghost sub = bytes@.subrange(start as int, end as int);
    let len = end - start;
    if i >= len {
        return len;
    }
    let mut j = i;
    while j > 0 && is_continuation_byte(bytes[start + j])
        invariant
            start <= end <= bytes.len(),
            len == end - start,
            j <= i < len,
            sub == bytes@.subrange(start as int, end as int),
            floor_boundary(sub, j as int) == floor_boundary(sub, i as int),
        decreases j,
    {
        proof {
            lemma_boundary_sub(bytes@, start as int, end as int, j as int);
        }
        j -= 1;
    }
    proof {
        lemma_boundary_sub(bytes@, start as int, end as int, j as int);
    }
    j
}

/// The `encoding` units of `bytes[start..end]`, where `bytes` are the
/// bytes of `text`.
fn units_in(text: &str, bytes: &[u8], start: usize, end: usize, encoding: PositionEncodingKind) -> (r: u64)
    requires
        bytes@ == text.spec_bytes(),
        start <= end <= bytes.len(),
    ensures
        r == units(encoding, bytes@.subrange(start as int, end as int)),
        r <= bytes.len(),
{
    let ghost s = bytes@;
    let mut acc: u64 = 0;
    let mut p = start;
    proof {
        assert(s.subrange(start as int, start as int) =~= Seq::<u8>::empty());
    }
    while p < end
        invariant
            bytes@ == text.spec_bytes(),
            s == bytes@,
            start <= p <= end <= bytes.len(),
            acc == units(encoding, s.subrange(start as int, p as int)),
        decreases end - p,
    {
        proof {
            assert(s.subrange(start as int, p + 1).drop_last() =~= s.subrange(start as int, p as int));
            assert(s.take(p + 1) =~= s.take(start as int) + s.subrange(start as int, p + 1));
            lemma_units_concat(encoding, s.take(start as int), s.subrange(start as int, p + 1));
            lemma_prefix_units_le_len(encoding, text, p + 1);
        }
        acc = acc + weight_of(encoding, bytes[p]);
        p += 1;
    }
    proof {
        assert(s.take(end as int) =~= s.take(start as int) + s.subrange(start as int, end as int));
        lemma_units_concat(encoding, s.take(start as int), s.subrange(start as int, end as int));
        lemma_prefix_units_le_len(encoding, text, end as int);
    }
    acc
}

/// The first character boundary of `bytes[start..end]` at which `column`
/// `encoding` units are reached, relative to `start` (or the range's length
/// if none).
fn reach_in(
    text: &str,
    bytes: &[u8],
    start: usize,
    end: usize,
    column: u32,
    encoding: PositionEncodingKind,
) -> (r: usize)
    requires
        bytes@ == text.spec_bytes(),
        start <= end <= bytes.len(),
    ensures
        r == first_reaching(encoding, bytes@.subrange(start as int, end as int), column as nat, 0),
{
    let ghost s = bytes@;
    let ghost sub = s.subrange(start as int, end as int);
    let len = end - start;
    let mut acc: u64 = 0;
    let mut p: usize = 0;
    proof {
        assert(sub.take(0) =~= Seq::<u8>::empty());
    }
    while p < len
        invariant
            bytes@ == text.spec_bytes(),
            s == bytes@,
            sub == s.subrange(start as int, end as int),
            start <= end <= bytes.len(),
            len == end - start,
            p <= len,
            acc == units(encoding, sub.take(p as int)),
            first_reaching(encoding, sub, column as nat, 0) == first_reaching(
                encoding,
                sub,
                column as nat,
                p as int,
            ),
        decreases len - p,
    {
        proof {
            lemma_boundary_sub(s, start as int, end as int, p as int);
        }
        if (p == 0 || !is_continuation_byte(bytes[start + p])) && acc >= column as u64 {
            return p;
        }
        proof {
            lemma_units_take_step(encoding, sub, p as int);
            assert(s.take(start + p + 1) =~= s.take(start as int) + sub.take(p + 1));
            lemma_units_concat(encoding, s.take(start as int), sub.take(p + 1));
            lemma_prefix_units_le_len(encoding, text, start + p + 1);
        }
        acc = acc + weight_of(encoding, bytes[start + p]);
        p += 1;
    }
    p
}

/// The index of the first `\n` byte at or after `from`, or `bytes.len()`.
pub(crate) fn find_newline(bytes: &[u8], from: usize) -> (r: usize)
    requires
        from <= bytes.len(),
    ensures
        r == newline_from(bytes@, from as int),
        from <= r <= bytes.len(),
{
    let mut i = from;
    while i < bytes.len() && bytes[i] != 0x0A
        invariant
            from <= i <= bytes.len(),
            newline_from(bytes@, i as int) == newline_from(bytes@, from as int),
        decreases bytes.len() - i,
    {
        i += 1;
    }
    i
}

/// The byte offset of `column` within the line `bytes[start..end]`,
/// relative to `start`.
fn column_to_byte_in(
    text: &str,
    bytes: &[u8],
    start: usize,
    end: usize,
    column: u32,
    encoding: PositionEncodingKind,
) -> (r: usize)
    requires
        bytes@ == text.spec_bytes(),
        start <= end <= bytes.len(),
    ensures
        r == column_offset(bytes@.subrange(start as int, end as int), column as nat, encoding),
        r <= end - start,
{
    proof {
        lemma_floor_le(bytes@.subrange(start as int, end as int), column as int);
        lemma_first_reaching_le(encoding, bytes@.subrange(start as int, end as int), column as nat, 0);
    }
    match encoding {
        PositionEncodingKind::Utf8 => floor_in(bytes, start, end, column as usize),
        _ => reach_in(text, bytes, start, end, column, encoding),
    }
}

/// The `encoding` column of byte offset `byte` within the line
/// `bytes[start..end]`.
fn byte_to_column_in(
    text: &str,
    bytes: &[u8],
    start: usize,
    end: usize,
    byte: usize,
    encoding: PositionEncodingKind,
) -> (r: u64)
    requires
        bytes@ == text.spec_bytes(),
        start <= end <= bytes.len(),
    ensures
        r == offset_column(bytes@.subrange(start as int, end as int), byte as int, encoding),
{
    let k = floor_in(bytes, start, end, byte);
    proof {
        lemma_floor_le(bytes@.subrange(start as int, end as int), byte as int);
        assert(bytes@.subrange(start as int, end as int).take(k as int) =~= bytes@.subrange(
            start as int,
            start + k,
        ));
    }
    units_in(text, bytes, start, start + k, encoding)
}

proof fn lemma_floor_le(s: Seq<u8>, i: int)
    ensures
        0 <= floor_boundary(s, i) <= s.len(),
        i >= 0 ==> floor_boundary(s, i) <= i,
        is_boundary(s, floor_boundary(s, i)),
    decreases i,
{
    if i < s.len() && i > 0 && !is_boundary(s, i) {
        lemma_floor_le(s, i - 1);
    }
}

proof fn lemma_first_reaching_le(
    encoding: PositionEncodingKind,
    s: Seq<u8>,
    column: nat,
    from: int,
)
    requires
        0 <= from,
    ensures
        from <= first_reaching(encoding, s, column, from) <= s.len() || (from > s.len()
            && first_reaching(encoding, s, column, from) == s.len()),
        is_boundary(s, first_reaching(encoding, s, column, from)),
    decreases s.len() - from,
{
    if from < s.len() && !(is_boundary(s, from) && units(encoding, s.take(from)) >= column) {
        lemma_first_reaching_le(encoding, s, column, from + 1);
    }
}

/// Largest character boundary of `s` at most `idx` (and at most `s.len()`).
fn floor_char_boundary(s: &str, idx: usize) -> (r: usize)
    ensures
        r == floor_boundary(s.spec_bytes(), idx as int),
{
    let bytes = s.as_bytes();
    proof {
        assert(bytes@.subrange(0, bytes@.len() as int) =~= bytes@);
    }
    floor_in(bytes, 0, bytes.len(), idx)
}

/// Convert a column within a single `line` to a byte offset in that line,
/// measuring the column in `encoding`. A column past the end of the line
/// clamps to `line.len()`.
pub fn column_to_byte(line: &str, column: u32, encoding: PositionEncodingKind) -> (r: usize)
    ensures
        r == column_offset(line.spec_bytes(), column as nat, encoding),
        r <= line.spec_bytes().len(),
{
    let bytes = line.as_bytes();
    proof {
        assert(bytes@.subrange(0, bytes@.len() as int) =~= bytes@);
    }
    column_to_byte_in(line, bytes, 0, bytes.len(), column, encoding)
}

/// Convert a byte offset within a single `line` to its column, measured in
/// `encoding`. `byte` is clamped to `line.len()` and floored to a character
/// boundary. A UTF-8 column is that byte offset (truncated to 32 bits like
/// any `as u32` conversion); UTF-16 and UTF-32 columns are counted in 32
/// bits, so they must fit.
pub fn byte_to_column(line: &str, byte: usize, encoding: PositionEncodingKind) -> (r: u32)
    requires
        encoding != PositionEncodingKind::Utf8 ==> offset_column(
            line.spec_bytes(),
            byte as int,
            encoding,
        ) <= u32::MAX,
    ensures
        r == offset_column(line.spec_bytes(), byte as int, encoding) as u32,
{
    let bytes = line.as_bytes();
    proof {
        assert(bytes@.subrange(0, bytes@.len() as int) =~= bytes@);
    }
    let units = byte_to_column_in(line, bytes, 0, bytes.len(), byte, encoding);
    units as u32
}

/// Convert a UTF-16 column within a single `line` to a byte offset in that
/// line: the first character boundary by which `column` UTF-16 code units
/// have passed. A column past the end of the line clamps to `line.len()`.
pub fn utf16_column_to_byte(line: &str, column: u32) -> (r: usize)
    ensures
        r == first_reaching(PositionEncodingKind::Utf16, line.spec_bytes(), column as nat, 0),
{
    column_to_byte(line, column, PositionEncodingKind::Utf16)
}

/// Convert a byte offset within a single `line` to its UTF-16 column.
/// `byte` is clamped to `line.len()` and floored to a character boundary.
pub fn byte_to_utf16_column(line: &str, byte: usize) -> (r: u32)
    requires
        offset_column(line.spec_bytes(), byte as int, PositionEncodingKind::Utf16) <= u32::MAX,
    ensures
        r == units(
            PositionEncodingKind::Utf16,
            line.spec_bytes().take(floor_boundary(line.spec_bytes(), byte as int)),
        ),
{
    byte_to_column(line, byte, PositionEncodingKind::Utf16)
}

/// Convert a UTF-8 column (a byte count) within a single `line` to a byte
/// offset in that line. A column past the end of the line clamps to
/// `line.len()`; a column that lands mid-character floors to the preceding
/// character boundary.
pub fn utf8_column_to_byte(line: &str, column: u32) -> (r: usize)
    ensures
        r == floor_boundary(line.spec_bytes(), column as int),
{
    floor_char_boundary(line, column as usize)
}

/// Convert a byte offset within a single `line` to its UTF-8 column: the
/// offset itself, clamped to `line.len()`, floored to a character boundary
/// and converted with `as u32`.
pub fn byte_to_utf8_column(line: &str, byte: usize) -> (r: u32)
    ensures
        r == floor_boundary(line.spec_bytes(), byte as int) as u32,
{
    floor_char_boundary(line, byte) as u32
}

/// Convert a UTF-32 column (a count of Unicode scalar values) within a
/// single `line` to a byte offset in that line. A column past the end of
/// the line clamps to `line.len()`.
pub fn utf32_column_to_byte(line: &str, column: u32) -> (r: usize)
    ensures
        r == first_reaching(PositionEncodingKind::Utf32, line.spec_bytes(), column as nat, 0),
{
    column_to_byte(line, column, PositionEncodingKind::Utf32)
}

/// Convert a byte offset within a single `line` to its UTF-32 column (its
/// count of Unicode scalar values). `byte` is clamped to `line.len()` and
/// floored to a character boundary.
pub fn byte_to_utf32_column(line: &str, byte: usize) -> (r: u32)
    requires
        offset_column(line.spec_bytes(), byte as int, PositionEncodingKind::Utf32) <= u32::MAX,
    ensures
        r == units(
            PositionEncodingKind::Utf32,
            line.spec_bytes().take(floor_boundary(line.spec_bytes(), byte as int)),
        ),
{
    byte_to_column(line, byte, PositionEncodingKind::Utf32)
}

// ---------------------------------------------------------------------------
// Whole-text conversions.

proof fn lemma_line_start_none(s: Seq<u8>, a: nat, b: nat)
    requires
        a <= b,
        line_start_at(s, a) is None,
    ensures
        line_start_at(s, b) is None,
    decreases b - a,
{
    if a < b {
        lemma_line_start_none(s, a, (b - 1) as nat);
    }
}

proof fn lemma_line_start_bounds(s: Seq<u8>, l: nat)
    ensures
        line_start_at(s, l) matches Some(st) ==> 0 <= st <= s.len(),
    decreases l,
{
    if l > 0 {
        lemma_line_start_bounds(s, (l - 1) as nat);
        if let Some(st) = line_start_at(s, (l - 1) as nat) {
            lemma_newline_from_bounds(s, st);
        }
    }
}

proof fn lemma_newline_from_bounds(s: Seq<u8>, from: int)
    requires
        0 <= from,
    ensures
        from <= newline_from(s, from) <= s.len() || (from > s.len() && newline_from(s, from)
            == s.len()),
        newline_from(s, from) < s.len() ==> s[newline_from(s, from)] == 0x0Au8,
    decreases s.len() - from,
{
    if from < s.len() && s[from] != 0x0Au8 {
        lemma_newline_from_bounds(s, from + 1);
    }
}

proof fn lemma_count_newlines_monotone(s: Seq<u8>, i: int, j: int)
    requires
        0 <= i <= j <= s.len(),
    ensures
        count_newlines(s.take(i)) <= count_newlines(s.take(j)),
    decreases j - i,
{
    if i < j {
        assert(s.take(j).drop_last() =~= s.take(j - 1));
        lemma_count_newlines_monotone(s, i, j - 1);
    }
}

proof fn lemma_last_line_start_le(s: Seq<u8>)
    ensures
        0 <= last_line_start(s) <= s.len(),
    decreases s.len(),
{
    if s.len() > 0 {
        lemma_last_line_start_le(s.drop_last());
    }
}

proof fn lemma_floor_of_boundary(s: Seq<u8>, i: int)
    requires
        0 <= i <= s.len(),
        is_boundary(s, i),
    ensures
        floor_boundary(s, i) == i,
{
}

/// The bytes of one character's encoding: a leading byte, then
/// continuation bytes; only a one-byte encoding has an ASCII byte.
proof fn lemma_scalar_bytes(c: char)
    ensures
        1 <= encode_scalar(c as u32).len() <= 4,
        !is_continuation(encode_scalar(c as u32)[0]),
        encode_scalar(c as u32)[0] < 0x80 <==> encode_scalar(c as u32).len() == 1,
        forall|k: int|
            1 <= k < encode_scalar(c as u32).len() ==> is_continuation(
                #[trigger] encode_scalar(c as u32)[k],
            ),
{
    let v = c as u32;
    broadcast use char_is_scalar;

    let l3 = last_continuation_byte(v);
    let l2 = second_last_continuation_byte(v);
    let l1 = third_last_continuation_byte(v);
    assert(0x80 <= l1 < 0xC0 && 0x80 <= l2 < 0xC0 && 0x80 <= l3 < 0xC0) by (bit_vector)
        requires
            l1 == 0x80 | ((v >> 12) & 0x3F) as u8,
            l2 == 0x80 | ((v >> 6) & 0x3F) as u8,
            l3 == 0x80 | (v & 0x3F) as u8,
    ;
    if has_width_1_encoding(v) {
        let b0 = leading_byte_width_1(v);
        assert(b0 < 0x80) by (bit_vector)
            requires
                b0 == (v & 0x7F) as u8,
        ;
    } else if has_width_2_encoding(v) {
        let b0 = leading_byte_width_2(v);
        assert(0xC0 <= b0) by (bit_vector)
            requires
                b0 == 0xC0 | ((v >> 6) & 0x1F) as u8,
        ;
    } else if has_width_3_encoding(v) {
        let b0 = leading_byte_width_3(v);
        assert(0xE0 <= b0) by (bit_vector)
            requires
                b0 == 0xE0 | ((v >> 12) & 0x0F) as u8,
        ;
    } else {
        let b0 = leading_byte_width_4(v);
        assert(0xF0 <= b0) by (bit_vector)
            requires
                b0 == 0xF0 | ((v >> 18) & 0x7) as u8,
        ;
    }
}

/// In UTF-8, the byte after an ASCII byte starts a character.
proof fn lemma_ascii_then_boundary(chars: Seq<char>, i: int)
    requires
        0 <= i,
        i + 1 < encode_utf8(chars).len(),
        encode_utf8(chars)[i] < 0x80,
    ensures
        !is_continuation(encode_utf8(chars)[i + 1]),
    decreases chars.len(),
{
    let e = encode_scalar(chars[0] as u32);
    let rest = chars.drop_first();
    lemma_scalar_bytes(chars[0]);
    assert(encode_utf8(chars) == e + encode_utf8(rest));
    if i < e.len() {
        if i > 0 {
            assert(is_continuation(e[i]));
        }
        assert(e.len() == 1);
        assert(rest.len() > 0);
        lemma_scalar_bytes(rest[0]);
        assert(encode_utf8(rest) == encode_scalar(rest[0] as u32) + encode_utf8(rest.drop_first()));
    } else {
        lemma_ascii_then_boundary(rest, i - e.len());
    }
}

/// A byte offset that is a character boundary in the sense used here (the
/// start, the end, or a non-continuation byte) is one of a string's
/// character boundaries.
proof fn lemma_boundary_is_char_boundary(text: &str, i: int)
    requires
        is_boundary(text.spec_bytes(), i),
    ensures
        is_char_boundary(text.spec_bytes(), i),
{
    let b = text.spec_bytes();
    broadcast use encode_utf8_valid_utf8;

    is_char_boundary_start_end_of_seq(b);
    if 0 < i < b.len() {
        is_char_boundary_iff_not_is_continuation_byte(b, i);
    }
}

/// The start of every line of a string is a character boundary.
proof fn lemma_line_start_is_boundary(text: &str, line: nat)
    ensures
        line_start_at(text.spec_bytes(), line) matches Some(start) ==> is_boundary(
            text.spec_bytes(),
            start,
        ),
    decreases line,
{
    let b = text.spec_bytes();
    lemma_line_start_bounds(b, line);
    if line > 0 {
        lemma_line_start_is_boundary(text, (line - 1) as nat);
        if let Some(prev) = line_start_at(b, (line - 1) as nat) {
            lemma_line_start_bounds(b, (line - 1) as nat);
            lemma_newline_from_bounds(b, prev);
            let nl = newline_from(b, prev);
            if nl + 1 < b.len() {
                lemma_ascii_then_boundary(text@, nl);
            }
        }
    }
}

/// Every offset a position resolves to is a character boundary of the
/// text, so the text can be split there.
pub proof fn lemma_position_offset_is_char_boundary(
    text: &str,
    position: Position,
    encoding: PositionEncodingKind,
)
    ensures
        is_char_boundary(text.spec_bytes(), position_offset(text.spec_bytes(), position, encoding)),
        0 <= position_offset(text.spec_bytes(), position, encoding) <= text.spec_bytes().len(),
{
    let b = text.spec_bytes();
    let line = position.line as nat;
    lemma_line_start_bounds(b, line);
    lemma_line_start_is_boundary(text, line);
    match line_start_at(b, line) {
        Some(start) => {
            let end = newline_from(b, start);
            lemma_newline_from_bounds(b, start);
            let sub = b.subrange(start, end);
            let col = column_offset(sub, position.character as nat, encoding);
            lemma_floor_le(sub, position.character as int);
            lemma_first_reaching_le(encoding, sub, position.character as nat, 0);
            assert(0 <= col <= sub.len() && is_boundary(sub, col));
            lemma_boundary_sub(b, start, end, col);
            assert(is_boundary(b, start + col));
            lemma_boundary_is_char_boundary(text, start + col);
        },
        None => {
            lemma_boundary_is_char_boundary(text, b.len() as int);
        },
    }
}

proof fn lemma_count_newlines_le_len(s: Seq<u8>)
    ensures
        count_newlines(s) <= s.len(),
    decreases s.len(),
{
    if s.len() > 0 {
        lemma_count_newlines_le_len(s.drop_last());
    }
}

/// In a text of at most `u32::MAX` bytes, every offset's line and column
/// fit in 32 bits.
pub proof fn lemma_position_fits(text: &str, offset: int, encoding: PositionEncodingKind)
    requires
        text.spec_bytes().len() <= u32::MAX,
    ensures
        offset_line(text.spec_bytes(), offset) <= u32::MAX,
        offset_character(text.spec_bytes(), offset, encoding) <= u32::MAX,
{
    let s = text.spec_bytes();
    let k = floor_boundary(s, offset);
    lemma_floor_le(s, offset);
    lemma_count_newlines_le_len(s.take(k));
    let lls = last_line_start(s.take(k));
    lemma_last_line_start_le(s.take(k));
    lemma_units_concat(encoding, s.take(lls), s.subrange(lls, k));
    assert(s.take(lls) + s.subrange(lls, k) =~= s.take(k));
    lemma_prefix_units_le_len(encoding, text, k);
}

/// Convert an LSP [`Position`] to a byte offset into `text`, measuring the
/// position's `character` in `encoding`. A line beyond the end of `text`,
/// or a column beyond the end of its line, clamps to the nearest valid
/// offset.
pub fn position_to_offset_with(
    text: &str,
    position: Position,
    encoding: PositionEncodingKind,
) -> (r: usize)
    ensures
        r == position_offset(text.spec_bytes(), position, encoding),
        r <= text.spec_bytes().len(),
{
    let bytes = text.as_bytes();
    let ghost s = bytes@;
    let n = bytes.len();
    let mut start: usize = 0;
    let mut line: u32 = 0;
    while line < position.line
        invariant
            s == bytes@,
            bytes@ == text.spec_bytes(),
            n == s.len(),
            line <= position.line,
            line_start_at(s, line as nat) == Some(start as int),
            start <= n,
        decreases position.line - line,
    {
        let newline = find_newline(bytes, start);
        if newline == n {
            proof {
                assert(line_start_at(s, (line + 1) as nat) is None);
                lemma_line_start_none(s, (line + 1) as nat, position.line as nat);
            }
            return n;
        }
        start = newline + 1;
        line += 1;
    }
    let end = find_newline(bytes, start);
    let column = column_to_byte_in(text, bytes, start, end, position.character, encoding);
    assert(line_start_at(s, position.line as nat) == Some(start as int));
    start + column
}

/// Convert a byte offset into `text` to an LSP [`Position`], measuring the
/// `character` in `encoding`. `offset` is clamped to `text.len()` and
/// floored to a character boundary. Line numbers (and UTF-16/UTF-32
/// columns) are counted in 32 bits, so they must fit.
pub fn offset_to_position_with(
    text: &str,
    offset: usize,
    encoding: PositionEncodingKind,
) -> (r: Position)
    requires
        offset_line(text.spec_bytes(), offset as int) <= u32::MAX,
        encoding != PositionEncodingKind::Utf8 ==> offset_character(
            text.spec_bytes(),
            offset as int,
            encoding,
        ) <= u32::MAX,
    ensures
        r.line == offset_line(text.spec_bytes(), offset as int),
        r.character == offset_character(text.spec_bytes(), offset as int, encoding) as u32,
{
    let bytes = text.as_bytes();
    let ghost s = bytes@;
    let n = bytes.len();
    let k = floor_in(bytes, 0, n, offset);
    proof {
        assert(s.subrange(0, n as int) =~= s);
        lemma_floor_le(s, offset as int);
        assert(s.take(0) =~= Seq::<u8>::empty());
    }
    let mut line: u32 = 0;
    let mut line_start: usize = 0;
    let mut i: usize = 0;
    while i < k
        invariant
            s == bytes@,
            n == s.len(),
            k <= n,
            k == floor_boundary(s, offset as int),
            i <= k,
            line == count_newlines(s.take(i as int)),
            line_start == last_line_start(s.take(i as int)),
            count_newlines(s.take(k as int)) <= u32::MAX,
        decreases k - i,
    {
        proof {
            assert(s.take(i + 1).drop_last() =~= s.take(i as int));
            lemma_count_newlines_monotone(s, i + 1, k as int);
        }
        if bytes[i] == 0x0A {
            line += 1;
            line_start = i + 1;
        }
        i += 1;
    }
    proof {
        lemma_last_line_start_le(s.take(k as int));
        let sub = s.subrange(line_start as int, n as int);
        lemma_boundary_sub(s, line_start as int, n as int, k - line_start);
        lemma_floor_of_boundary(sub, k - line_start);
        assert(sub.take(k - line_start) =~= s.subrange(line_start as int, k as int));
    }
    let character = byte_to_column_in(text, bytes, line_start, n, k - line_start, encoding);
    Position { line, character: character as u32 }
}

/// Whether the position of byte offset `offset` in `text` fits the 32-bit
/// fields of an LSP [`Position`]: its line, and its column unless the
/// column is a UTF-8 byte count (which is cast to 32 bits).
pub open spec fn position_fits(text: Seq<u8>, offset: int, encoding: PositionEncodingKind) -> bool {
    &&& offset_line(text, offset) <= u32::MAX
    &&& encoding != PositionEncodingKind::Utf8 ==> offset_character(text, offset, encoding)
        <= u32::MAX
}

/// Whether [`offset_to_position_with`] can take `offset` in `text`: the
/// line and column of its position fit in 32 bits.
pub fn offset_position_fits(text: &str, offset: usize, encoding: PositionEncodingKind) -> (r:
    bool)
    ensures
        r == position_fits(text.spec_bytes(), offset as int, encoding),
{
    let bytes = text.as_bytes();
    let ghost s = bytes@;
    let n = bytes.len();
    let k = floor_in(bytes, 0, n, offset);
    proof {
        assert(s.subrange(0, n as int) =~= s);
        lemma_floor_le(s, offset as int);
        assert(s.take(0) =~= Seq::<u8>::empty());
    }
    let mut lines: u64 = 0;
    let mut line_start: usize = 0;
    let mut i: usize = 0;
    while i < k
        invariant
            s == bytes@,
            n == s.len(),
            k <= n,
            i <= k,
            lines == count_newlines(s.take(i as int)),
            line_start == last_line_start(s.take(i as int)),
        decreases k - i,
    {
        proof {
            assert(s.take(i + 1).drop_last() =~= s.take(i as int));
            lemma_count_newlines_le_len(s.take(i as int));
        }
        if bytes[i] == 0x0A {
            lines += 1;
            line_start = i + 1;
        }
        i += 1;
    }
    if lines > 0xFFFF_FFFF {
        return false;
    }
    match encoding {
        PositionEncodingKind::Utf8 => true,
        _ => {
            proof {
                lemma_last_line_start_le(s.take(k as int));
            }
            let column = units_in(text, bytes, line_start, k, encoding);
            column <= 0xFFFF_FFFF
        },
    }
}

/// Convert an LSP [`Position`] to a byte offset into `text`, reading the
/// position's `character` as UTF-16 code units (the base-spec default).
pub fn position_to_offset(text: &str, position: Position) -> (r: usize)
    ensures
        r == position_offset(text.spec_bytes(), position, PositionEncodingKind::Utf16),
{
    position_to_offset_with(text, position, PositionEncodingKind::Utf16)
}

/// Convert a byte offset into `text` to an LSP [`Position`] with a UTF-16
/// `character` (the base-spec default).
pub fn offset_to_position(text: &str, offset: usize) -> (r: Position)
    requires
        offset_line(text.spec_bytes(), offset as int) <= u32::MAX,
        offset_character(text.spec_bytes(), offset as int, PositionEncodingKind::Utf16)
            <= u32::MAX,
    ensures
        r.line == offset_line(text.spec_bytes(), offset as int),
        r.character == offset_character(
            text.spec_bytes(),
            offset as int,
            PositionEncodingKind::Utf16,
        ),
{
    offset_to_position_with(text, offset, PositionEncodingKind::Utf16)
}

/// The `encoding` units of `text[start..end]`.
pub(crate) fn units_between(
    text: &str,
    start: usize,
    end: usize,
    encoding: PositionEncodingKind,
) -> (r: u64)
    requires
        start <= end <= text.spec_bytes().len(),
    ensures
        r == units(encoding, text.spec_bytes().subrange(start as int, end as int)),
        r <= text.spec_bytes().len(),
{
    units_in(text, text.as_bytes(), start, end, encoding)
}

/// A line's start offset is at least its number, so a text has at most one
/// more line than it has bytes.
pub proof fn lemma_line_start_ge_line(s: Seq<u8>, l: nat)
    ensures
        line_start_at(s, l) matches Some(st) ==> l <= st <= s.len(),
    decreases l,
{
    if l > 0 {
        lemma_line_start_ge_line(s, (l - 1) as nat);
        if let Some(prev) = line_start_at(s, (l - 1) as nat) {
            lemma_newline_from_bounds(s, prev);
        }
    }
}

/// The line following a line that starts at `st` starts right after the
/// line's terminating newline, if there is one.
pub proof fn lemma_next_line_start(s: Seq<u8>, l: nat, st: int)
    requires
        line_start_at(s, l) == Some(st),
    ensures
        0 <= st <= newline_from(s, st) <= s.len(),
        line_start_at(s, l + 1) is None ==> newline_from(s, st) == s.len(),
        line_start_at(s, l + 1) matches Some(next) ==> next == newline_from(s, st) + 1,
{
    lemma_line_start_bounds(s, l);
    lemma_newline_from_bounds(s, st);
}

// ---------------------------------------------------------------------------
// Line index.

proof fn lemma_newline_from_first(s: Seq<u8>, from: int, j: int)
    requires
        0 <= from <= j < newline_from(s, from),
        j < s.len(),
    ensures
        s[j] != 0x0Au8,
    decreases j - from,
{
    if from < j {
        lemma_newline_from_first(s, from + 1, j);
    }
}

/// Between a line start and the line's terminating newline, neither the
/// newline count nor the current line start changes.
proof fn lemma_within_line(s: Seq<u8>, start: int, k: int)
    requires
        0 <= start <= k <= newline_from(s, start),
        k <= s.len(),
    ensures
        count_newlines(s.take(k)) == count_newlines(s.take(start)),
        k > start ==> last_line_start(s.take(k)) == last_line_start(s.take(start)),
    decreases k - start,
{
    if k > start {
        lemma_within_line(s, start, k - 1);
        lemma_newline_from_first(s, start, k - 1);
        assert(s.take(k).drop_last() =~= s.take(k - 1));
    }
}

/// At the start of line `l` exactly `l` newlines precede, the last of them
/// right before the start.
proof fn lemma_line_start_facts(s: Seq<u8>, l: nat)
    ensures
        line_start_at(s, l) matches Some(st) ==> {
            &&& count_newlines(s.take(st)) == l
            &&& last_line_start(s.take(st)) == st
        },
    decreases l,
{
    if l == 0 {
        assert(s.take(0) =~= Seq::<u8>::empty());
    } else {
        lemma_line_start_facts(s, (l - 1) as nat);
        lemma_line_start_bounds(s, (l - 1) as nat);
        if let Some(prev) = line_start_at(s, (l - 1) as nat) {
            let nl = newline_from(s, prev);
            lemma_newline_from_bounds(s, prev);
            if nl < s.len() {
                lemma_within_line(s, prev, nl);
                assert(s.take(nl + 1).drop_last() =~= s.take(nl));
                if prev == nl {
                } else {
                }
            }
        }
    }
}

/// Where the line containing byte offset `k` starts, and how many lines
/// precede it, given a line start `st` at or before `k` on the same line.
proof fn lemma_offset_on_line(s: Seq<u8>, l: nat, st: int, k: int)
    requires
        line_start_at(s, l) == Some(st),
        st <= k <= newline_from(s, st),
        k <= s.len(),
    ensures
        count_newlines(s.take(k)) == l,
        last_line_start(s.take(k)) == st,
{
    lemma_line_start_facts(s, l);
    lemma_line_start_bounds(s, l);
    lemma_within_line(s, st, k);
}

/// The line holding byte offset `k` starts where the last newline before
/// `k` ends, and runs on past `k` to its own newline.
proof fn lemma_line_of_offset(s: Seq<u8>, k: int)
    requires
        0 <= k <= s.len(),
    ensures
        line_start_at(s, count_newlines(s.take(k))) == Some(last_line_start(s.take(k))),
        last_line_start(s.take(k)) <= k <= newline_from(s, last_line_start(s.take(k))),
    decreases k,
{
    if k == 0 {
        assert(s.take(0) =~= Seq::<u8>::empty());
        lemma_newline_from_bounds(s, 0);
    } else {
        lemma_line_of_offset(s, k - 1);
        let l = last_line_start(s.take(k - 1));
        assert(s.take(k).drop_last() =~= s.take(k - 1));
        lemma_last_line_start_le(s.take(k - 1));
        lemma_newline_from_bounds(s, l);
        if s[k - 1] == 0x0Au8 {
            if newline_from(s, l) > k - 1 {
                lemma_newline_from_first(s, l, k - 1);
            }
            lemma_newline_from_bounds(s, k);
        }
    }
}

/// The first boundary reaching `column` is `target` when `target` reaches
/// it and no boundary from `from` on before `target` does.
proof fn lemma_first_reaching_is(
    encoding: PositionEncodingKind,
    s: Seq<u8>,
    column: nat,
    from: int,
    target: int,
)
    requires
        0 <= from <= target <= s.len(),
        is_boundary(s, target),
        units(encoding, s.take(target)) >= column,
        forall|j: int|
            from <= j < target ==> !(#[trigger] is_boundary(s, j) && units(encoding, s.take(j))
                >= column),
    ensures
        first_reaching(encoding, s, column, from) == target,
    decreases target - from,
{
    if from < target {
        lemma_first_reaching_is(encoding, s, column, from + 1, target);
    }
}

/// Within one line, converting a byte offset to a column and the column
/// back gives the offset floored to a character boundary (and clamped to
/// the line), in every encoding, so long as the column fits in 32 bits.
pub proof fn lemma_column_round_trip(line: &str, byte: int, encoding: PositionEncodingKind)
    requires
        offset_column(line.spec_bytes(), byte, encoding) <= u32::MAX,
    ensures
        column_offset(
            line.spec_bytes(),
            offset_column(line.spec_bytes(), byte, encoding),
            encoding,
        ) == floor_boundary(line.spec_bytes(), byte),
{
    let b = line.spec_bytes();
    let f = floor_boundary(b, byte);
    let column = offset_column(b, byte, encoding);
    lemma_floor_le(b, byte);
    match encoding {
        PositionEncodingKind::Utf8 => {
            lemma_units_utf8(b.take(f));
            lemma_floor_of_boundary(b, f);
        },
        _ => {
            broadcast use encode_utf8_valid_utf8;

            if f > 0 {
                is_char_boundary_start_end_of_seq(b);
                is_char_boundary_iff_not_is_continuation_byte(b, 0);
            }
            assert forall|j: int| 0 <= j < f implies !(#[trigger] is_boundary(b, j) && units(
                encoding,
                b.take(j),
            ) >= column) by {
                if is_boundary(b, j) {
                    assert(!is_continuation(b[j]));
                    lemma_units_take_step(encoding, b, j);
                    lemma_units_monotone(encoding, b, j + 1, f);
                }
            }
            lemma_first_reaching_is(encoding, b, column, 0, f);
        },
    }
}

/// Converting a character boundary of a string to a position and back
/// gives the same offset, in every encoding.
pub proof fn lemma_offset_position_round_trip(
    text: &str,
    offset: int,
    encoding: PositionEncodingKind,
)
    requires
        0 <= offset <= text.spec_bytes().len(),
        is_char_boundary(text.spec_bytes(), offset),
        offset_line(text.spec_bytes(), offset) <= u32::MAX,
        offset_character(text.spec_bytes(), offset, encoding) <= u32::MAX,
    ensures
        position_offset(
            text.spec_bytes(),
            Position {
                line: offset_line(text.spec_bytes(), offset) as u32,
                character: offset_character(text.spec_bytes(), offset, encoding) as u32,
            },
            encoding,
        ) == offset,
{
    let b = text.spec_bytes();
    let k = offset;
    broadcast use encode_utf8_valid_utf8;

    is_char_boundary_start_end_of_seq(b);
    if 0 < k < b.len() {
        is_char_boundary_iff_not_is_continuation_byte(b, k);
    }
    assert(is_boundary(b, k));
    lemma_floor_of_boundary(b, k);
    lemma_line_of_offset(b, k);
    let st = last_line_start(b.take(k));
    lemma_last_line_start_le(b.take(k));
    let nl = newline_from(b, st);
    lemma_newline_from_bounds(b, st);
    let line = b.subrange(st, nl);
    let column = units(encoding, b.subrange(st, k));
    assert(line.take(k - st) =~= b.subrange(st, k));
    lemma_boundary_sub(b, st, nl, k - st);
    assert(is_boundary(line, k - st));
    match encoding {
        PositionEncodingKind::Utf8 => {
            lemma_units_utf8(b.subrange(st, k));
            lemma_floor_of_boundary(line, k - st);
        },
        _ => {
            // The line's first byte leads a character: it starts the text
            // or follows a newline.
            if st < k {
                lemma_line_start_is_boundary(text, count_newlines(b.take(k)));
                if st == 0 {
                    is_char_boundary_iff_not_is_continuation_byte(b, 0);
                }
                assert(!is_continuation(line[0]));
            }
            assert forall|j: int| 0 <= j < k - st implies !(#[trigger] is_boundary(line, j) && units(
                encoding,
                line.take(j),
            ) >= column) by {
                if is_boundary(line, j) {
                    assert(!is_continuation(line[j]));
                    lemma_units_take_step(encoding, line, j);
                    lemma_units_monotone(encoding, line, j + 1, k - st);
                }
            }
            lemma_first_reaching_is(encoding, line, column, 0, k - st);
        },
    }
}

/// Precomputed line starts of a text, turning position conversions into a
/// lookup (position to offset) or a binary search (offset to position)
/// instead of a scan of the whole document.
pub struct LineIndex {
    /// Byte offset of the start of each line, in order.
    line_starts: Vec<usize>,
    /// The bytes of the text this index was built from.
    source: Ghost<Seq<u8>>,
}

impl LineIndex {
    /// The bytes of the text this index describes.
    pub closed spec fn text(&self) -> Seq<u8> {
        self.source@
    }

    #[verifier::type_invariant]
    closed spec fn well_formed(&self) -> bool {
        let s = self.source@;
        &&& self.line_starts.len() >= 1
        &&& forall|l: int|
            0 <= l < self.line_starts.len() ==> line_start_at(s, l as nat) == Some(
                #[trigger] self.line_starts@[l] as int,
            )
        &&& line_start_at(s, self.line_starts.len() as nat) is None
    }

    /// Index the line starts of `text`.
    pub fn new(text: &str) -> (r: Self)
        ensures
            r.text() == text.spec_bytes(),
    {
        let bytes = text.as_bytes();
        let ghost s = bytes@;
        let n = bytes.len();
        let mut line_starts: Vec<usize> = Vec::new();
        line_starts.push(0);
        let mut i: usize = 0;
        proof {
            lemma_newline_from_bounds(s, 0);
        }
        while i < n
            invariant
                s == bytes@,
                n == s.len(),
                i <= n,
                line_starts.len() >= 1,
                line_starts@[line_starts.len() - 1] <= i,
                newline_from(s, line_starts@[line_starts.len() - 1] as int) >= i,
                forall|l: int|
                    0 <= l < line_starts.len() ==> line_start_at(s, l as nat) == Some(
                        #[trigger] line_starts@[l] as int,
                    ),
            decreases n - i,
        {
            let ghost last = line_starts@[line_starts.len() - 1] as int;
            proof {
                lemma_newline_from_bounds(s, last);
                if newline_from(s, last) > i {
                    assert(newline_from(s, last) >= i + 1);
                }
            }
            if bytes[i] == 0x0A {
                proof {
                    if newline_from(s, last) > i {
                        lemma_newline_from_first(s, last, i as int);
                    }
                    assert(newline_from(s, last) == i);
                    assert(line_start_at(s, line_starts.len() as nat) == Some(i + 1));
                }
                line_starts.push(i + 1);
                proof {
                    assert(newline_from(s, i + 1) >= i + 1) by {
                        lemma_newline_from_bounds(s, i + 1);
                    }
                }
            } else {
                proof {
                    if newline_from(s, last) == i {
                        lemma_newline_from_bounds(s, last);
                    }
                }
            }
            i += 1;
        }
        proof {
            let last = line_starts@[line_starts.len() - 1] as int;
            lemma_newline_from_bounds(s, last);
            assert(line_start_at(s, (line_starts.len() - 1) as nat) == Some(last));
        }
        LineIndex { line_starts, source: Ghost(s) }
    }

    /// The number of lines: one more than the number of `\n` bytes.
    pub fn line_count(&self) -> (r: usize)
        ensures
            r == count_newlines(self.text()) + 1,
    {
        proof {
            use_type_invariant(self);
            let s = self.source@;
            let l = (self.line_starts.len() - 1) as nat;
            let st = self.line_starts@[l as int] as int;
            assert(line_start_at(s, l) == Some(st));
            lemma_line_start_bounds(s, l);
            lemma_newline_from_bounds(s, st);
            lemma_offset_on_line(s, l, st, s.len() as int);
            assert(s.take(s.len() as int) =~= s);
        }
        self.line_starts.len()
    }

    /// The byte offset at which line `line` starts, if the text has that
    /// many lines.
    pub fn line_start(&self, line: u32) -> (r: Option<usize>)
        ensures
            match r {
                Some(start) => line_start_at(self.text(), line as nat) == Some(start as int),
                None => line_start_at(self.text(), line as nat) is None,
            },
    {
        proof {
            use_type_invariant(self);
        }
        if (line as usize) < self.line_starts.len() {
            Some(self.line_starts[line as usize])
        } else {
            proof {
                lemma_line_start_none(
                    self.source@,
                    self.line_starts.len() as nat,
                    line as nat,
                );
            }
            None
        }
    }

    /// Like [`position_to_offset_with`], but resolving the line through the
    /// index. `text` must be the text the index was built from.
    pub fn position_to_offset(
        &self,
        text: &str,
        position: Position,
        encoding: PositionEncodingKind,
    ) -> (r: usize)
        requires
            self.text() == text.spec_bytes(),
        ensures
            r == position_offset(text.spec_bytes(), position, encoding),
    {
        proof {
            use_type_invariant(self);
        }
        let bytes = text.as_bytes();
        let ghost s = bytes@;
        let n = bytes.len();
        let count = self.line_starts.len();
        let line = position.line as usize;
        if line >= count {
            proof {
                lemma_line_start_none(s, count as nat, line as nat);
            }
            return n;
        }
        let start = self.line_starts[line];
        proof {
            assert(line_start_at(s, line as nat) == Some(start as int));
            lemma_line_start_bounds(s, line as nat);
            lemma_newline_from_bounds(s, start as int);
        }
        let end = if line + 1 < count {
            proof {
                assert(line_start_at(s, (line + 1) as nat) == Some(self.line_starts@[line + 1] as int));
            }
            self.line_starts[line + 1] - 1
        } else {
            n
        };
        let column = column_to_byte_in(text, bytes, start, end, position.character, encoding);
        start + column
    }

    /// Like [`offset_to_position_with`], but finding the line by binary
    /// search over the index. `text` must be the text the index was built
    /// from.
    pub fn offset_to_position(
        &self,
        text: &str,
        offset: usize,
        encoding: PositionEncodingKind,
    ) -> (r: Position)
        requires
            self.text() == text.spec_bytes(),
            offset_line(text.spec_bytes(), offset as int) <= u32::MAX,
            encoding != PositionEncodingKind::Utf8 ==> offset_character(
                text.spec_bytes(),
                offset as int,
                encoding,
            ) <= u32::MAX,
        ensures
            r.line == offset_line(text.spec_bytes(), offset as int),
            r.character == offset_character(text.spec_bytes(), offset as int, encoding) as u32,
    {
        proof {
            use_type_invariant(self);
        }
        let bytes = text.as_bytes();
        let ghost s = bytes@;
        let n = bytes.len();
        let k = floor_in(bytes, 0, n, offset);
        proof {
            assert(s.subrange(0, n as int) =~= s);
            lemma_floor_le(s, offset as int);
            assert(self.line_starts@[0] == 0);
        }
        let count = self.line_starts.len();
        let mut lo: usize = 0;
        let mut hi: usize = count;
        while hi - lo > 1
            invariant
                lo < hi <= count,
                count == self.line_starts.len(),
                self.line_starts@[lo as int] <= k,
                hi < count ==> self.line_starts@[hi as int] > k,
            decreases hi - lo,
        {
            let mid = lo + (hi - lo) / 2;
            if self.line_starts[mid] <= k {
                lo = mid;
            } else {
                hi = mid;
            }
        }
        let start = self.line_starts[lo];
        proof {
            assert(line_start_at(s, lo as nat) == Some(start as int));
            lemma_line_start_bounds(s, lo as nat);
            lemma_newline_from_bounds(s, start as int);
            if lo + 1 < count {
                assert(line_start_at(s, (lo + 1) as nat) == Some(
                    self.line_starts@[lo + 1] as int,
                ));
            }
            lemma_offset_on_line(s, lo as nat, start as int, k as int);
            let sub = s.subrange(start as int, n as int);
            lemma_boundary_sub(s, start as int, n as int, k - start);
            lemma_floor_of_boundary(sub, k - start);
            assert(sub.take(k - start) =~= s.subrange(start as int, k as int));
        }
        let character = byte_to_column_in(text, bytes, start, n, k - start, encoding);
        Position { line: lo as u32, character: character as u32 }
    }
}

} // verus!
