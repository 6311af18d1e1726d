//! Deterministic randomized tests of the text algorithms: a fixed-seed
//! generator produces hundreds of cases per property.

use rusty_lsp::error::{codes, Error};
use rusty_lsp::lsp::{Position, PositionEncodingKind, Range, TextEdit};
use rusty_lsp::text::{
    apply_edits, apply_edits_with, offset_to_position_with, position_to_offset_with, LineIndex,
};

/// A splitmix64 generator: small and deterministic.
struct Rng(u64);

impl Rng {
    fn next(&mut self) -> u64 {
        self.0 = self.0.wrapping_add(0x9E37_79B9_7F4A_7C15);
        let mut z = self.0;
        z = (z ^ (z >> 30)).wrapping_mul(0xBF58_476D_1CE4_E5B9);
        z = (z ^ (z >> 27)).wrapping_mul(0x94D0_49BB_1331_11EB);
        z ^ (z >> 31)
    }

    fn below(&mut self, bound: usize) -> usize {
        if bound == 0 {
            0
        } else {
            (self.next() % bound as u64) as usize
        }
    }
}

/// Random text mixing ASCII, multi-byte characters and newlines.
fn random_text(rng: &mut Rng, max_chars: usize) -> String {
    const ALPHABET: [char; 12] = [
        'a', 'b', ' ', '\n', 'é', '汉', '😀', 'x', '\n', '0', 'ß', '\t',
    ];
    (0..rng.below(max_chars + 1))
        .map(|_| ALPHABET[rng.below(ALPHABET.len())])
        .collect()
}

const ENCODINGS: [PositionEncodingKind; 3] = [
    PositionEncodingKind::Utf8,
    PositionEncodingKind::Utf16,
    PositionEncodingKind::Utf32,
];

#[test]
fn line_index_agrees_with_free_functions_on_random_texts() {
    let mut rng = Rng(0xDEC0DE);
    for _ in 0..300 {
        let text = random_text(&mut rng, 80);
        let index = LineIndex::new(&text);
        for encoding in ENCODINGS {
            for _ in 0..20 {
                let offset = rng.below(text.len() + 3);
                assert_eq!(
                    index.offset_to_position(&text, offset, encoding),
                    offset_to_position_with(&text, offset, encoding),
                    "offset {offset} in {text:?} ({encoding:?})"
                );
                let position = Position::new(rng.below(8) as u32, rng.below(12) as u32);
                assert_eq!(
                    index.position_to_offset(&text, position, encoding),
                    position_to_offset_with(&text, position, encoding),
                    "position {position:?} in {text:?} ({encoding:?})"
                );
            }
        }
    }
}

/// Snap a byte offset in `text` down to a character boundary.
fn snap(text: &str, mut offset: usize) -> usize {
    offset = offset.min(text.len());
    while offset > 0 && !text.is_char_boundary(offset) {
        offset -= 1;
    }
    offset
}

#[test]
fn apply_edits_matches_a_naive_reference_on_random_edit_batches() {
    let mut rng = Rng(0xED17);
    for _ in 0..300 {
        let text = random_text(&mut rng, 60);

        // Up to four non-overlapping byte ranges, from sorted distinct cut
        // points taken in pairs.
        let mut cuts: Vec<usize> = (0..rng.below(9))
            .map(|_| snap(&text, rng.below(text.len() + 1)))
            .collect();
        cuts.sort_unstable();
        cuts.dedup();
        let mut byte_edits: Vec<(usize, usize, String)> = cuts
            .chunks(2)
            .filter(|pair| pair.len() == 2)
            .map(|pair| (pair[0], pair[1], random_text(&mut rng, 6)))
            .collect();

        // The reference: apply back to front in byte space.
        let mut expected = text.clone();
        for (start, end, replacement) in byte_edits.iter().rev() {
            expected.replace_range(start..end, replacement);
        }

        for encoding in ENCODINGS {
            // The same edits as positions, shuffled.
            let mut edits: Vec<TextEdit> = byte_edits
                .iter()
                .map(|(start, end, replacement)| {
                    TextEdit::new(
                        Range::new(
                            offset_to_position_with(&text, *start, encoding),
                            offset_to_position_with(&text, *end, encoding),
                        ),
                        replacement,
                    )
                })
                .collect();
            for i in (1..edits.len()).rev() {
                edits.swap(i, rng.below(i + 1));
            }
            assert_eq!(
                apply_edits_with(&text, &edits, encoding).expect("non-overlapping"),
                expected,
                "text {text:?}, edits {byte_edits:?} ({encoding:?})"
            );
        }
        byte_edits.clear();
    }
}

fn edit(sl: u32, sc: u32, el: u32, ec: u32, text: &str) -> TextEdit {
    TextEdit::new(Range::new(Position::new(sl, sc), Position::new(el, ec)), text)
}

fn invalid_params_message(result: Result<String, Error>) -> String {
    match result {
        Err(Error::Response(e)) => {
            assert_eq!(e.code, codes::INVALID_PARAMS);
            assert!(e.data.is_none());
            e.message
        }
        other => panic!("expected an invalid-params error, got {other:?}"),
    }
}

#[test]
fn apply_edits_applies_a_batch_in_any_order() {
    let text = "let a = 1;\nlet b = 2;\n";
    let forward = [edit(0, 4, 0, 5, "x"), edit(1, 4, 1, 5, "y")];
    let backward = [edit(1, 4, 1, 5, "y"), edit(0, 4, 0, 5, "x")];
    assert_eq!(apply_edits(text, &forward).unwrap(), "let x = 1;\nlet y = 2;\n");
    assert_eq!(apply_edits(text, &backward).unwrap(), "let x = 1;\nlet y = 2;\n");
}

#[test]
fn apply_edits_reads_columns_in_utf16() {
    // '😀' is two UTF-16 units, four bytes.
    let text = "😀ab";
    assert_eq!(apply_edits(text, &[edit(0, 2, 0, 3, "X")]).unwrap(), "😀Xb");
    assert_eq!(
        apply_edits_with(text, &[edit(0, 1, 0, 2, "X")], PositionEncodingKind::Utf32).unwrap(),
        "😀Xb"
    );
}

#[test]
fn apply_edits_keeps_batch_order_for_inserts_at_one_position() {
    let text = "ab";
    let edits = [edit(0, 1, 0, 1, "1"), edit(0, 1, 0, 1, "2"), edit(0, 1, 0, 2, "Z")];
    assert_eq!(apply_edits(text, &edits).unwrap(), "a12Z");
    // An insert at the end of a replaced range goes after the replacement.
    let edits = [edit(0, 1, 0, 1, "<"), edit(0, 0, 0, 1, "A")];
    assert_eq!(apply_edits(text, &edits).unwrap(), "A<b");
}

#[test]
fn apply_edits_with_no_edits_returns_the_text() {
    assert_eq!(apply_edits("héllo\n", &[]).unwrap(), "héllo\n");
}

#[test]
fn apply_edits_rejects_overlapping_ranges() {
    let text = "abcdef";
    let edits = [edit(0, 1, 0, 4, "X"), edit(0, 3, 0, 5, "Y")];
    assert_eq!(invalid_params_message(apply_edits(text, &edits)), "text edits overlap");
    // An insert strictly inside a replaced range overlaps it.
    let edits = [edit(0, 1, 0, 4, "X"), edit(0, 2, 0, 2, "Y")];
    assert_eq!(invalid_params_message(apply_edits(text, &edits)), "text edits overlap");
}

#[test]
fn apply_edits_rejects_a_backwards_range() {
    let edits = [edit(0, 1, 0, 2, "ok"), edit(0, 4, 0, 2, "X"), edit(0, 0, 0, 6, "Y")];
    assert_eq!(
        invalid_params_message(apply_edits("abcdef", &edits)),
        "text edit range ends before it starts"
    );
}

#[test]
fn apply_edits_clamps_positions_past_the_end() {
    assert_eq!(apply_edits("ab\ncd", &[edit(1, 1, 9, 0, "!")]).unwrap(), "ab\nc!");
}
