use rusty_lsp::lsp::{Position, PositionEncodingKind};
use rusty_lsp::text::{
    byte_to_column, byte_to_utf16_column, byte_to_utf32_column, byte_to_utf8_column,
    column_to_byte, offset_position_fits, offset_to_position, offset_to_position_with, position_to_offset,
    position_to_offset_with, utf16_column_to_byte, utf32_column_to_byte, utf8_column_to_byte,
    LineIndex,
};

#[test]
fn ascii_round_trips() {
    let text = "let x = 1;\nfn main() {}\n";
    // Start of second line.
    let pos = Position::new(1, 0);
    let offset = position_to_offset(text, pos);
    assert_eq!(&text[offset..offset + 2], "fn");
    assert_eq!(offset_to_position(text, offset), pos);
}

#[test]
fn multibyte_columns_use_utf16_units() {
    // "é" is 2 UTF-8 bytes but 1 UTF-16 unit; "😀" is 4 bytes / 2 units.
    let line = "é😀x";
    assert_eq!(byte_to_utf16_column(line, 0), 0);
    assert_eq!(byte_to_utf16_column(line, 2), 1); // after "é"
    assert_eq!(byte_to_utf16_column(line, 6), 3); // after "é😀"
    // Inverse direction.
    assert_eq!(utf16_column_to_byte(line, 0), 0);
    assert_eq!(utf16_column_to_byte(line, 1), 2);
    assert_eq!(utf16_column_to_byte(line, 3), 6);
}

#[test]
fn position_with_multibyte_prefix() {
    let text = "α = 1\nβ = 2"; // α, β are 2 bytes / 1 UTF-16 unit each
    // Column 4 on line 1 is the "2" after "β = ".
    let offset = position_to_offset(text, Position::new(1, 4));
    assert_eq!(&text[offset..], "2");
    assert_eq!(offset_to_position(text, offset), Position::new(1, 4));
}

#[test]
fn out_of_range_clamps() {
    let text = "abc";
    assert_eq!(position_to_offset(text, Position::new(9, 9)), text.len());
    assert_eq!(utf16_column_to_byte("abc", 99), 3);
    assert_eq!(byte_to_utf16_column("abc", 99), 3);
}

#[test]
fn utf8_columns_are_byte_offsets() {
    // "é" is 2 UTF-8 bytes; "😀" is 4 bytes. UTF-8 columns count bytes.
    let line = "é😀x";
    assert_eq!(byte_to_utf8_column(line, 0), 0);
    assert_eq!(byte_to_utf8_column(line, 2), 2); // after "é"
    assert_eq!(byte_to_utf8_column(line, 6), 6); // after "é😀"
    assert_eq!(utf8_column_to_byte(line, 0), 0);
    assert_eq!(utf8_column_to_byte(line, 2), 2);
    assert_eq!(utf8_column_to_byte(line, 6), 6);
    // Mid-codepoint columns floor to the preceding boundary.
    assert_eq!(utf8_column_to_byte(line, 1), 0);
}

#[test]
fn utf32_columns_count_scalar_values() {
    // "é" and "😀" are each a single Unicode scalar value regardless of
    // their UTF-8/UTF-16 width.
    let line = "é😀x";
    assert_eq!(byte_to_utf32_column(line, 0), 0);
    assert_eq!(byte_to_utf32_column(line, 2), 1); // after "é"
    assert_eq!(byte_to_utf32_column(line, 6), 2); // after "é😀"
    assert_eq!(utf32_column_to_byte(line, 0), 0);
    assert_eq!(utf32_column_to_byte(line, 1), 2);
    assert_eq!(utf32_column_to_byte(line, 2), 6);
}

#[test]
fn position_to_offset_with_honours_encoding() {
    let text = "😀x";
    // UTF-16: "😀" is 2 units, so column 2 lands right after it.
    let utf16_offset =
        position_to_offset_with(text, Position::new(0, 2), PositionEncodingKind::Utf16);
    assert_eq!(&text[utf16_offset..], "x");
    // UTF-32: "😀" is 1 scalar value, so column 1 lands right after it.
    let utf32_offset =
        position_to_offset_with(text, Position::new(0, 1), PositionEncodingKind::Utf32);
    assert_eq!(&text[utf32_offset..], "x");
    // UTF-8: "😀" is 4 bytes, so column 4 lands right after it.
    let utf8_offset =
        position_to_offset_with(text, Position::new(0, 4), PositionEncodingKind::Utf8);
    assert_eq!(&text[utf8_offset..], "x");

    assert_eq!(
        offset_to_position_with(text, utf32_offset, PositionEncodingKind::Utf32),
        Position::new(0, 1)
    );
}

#[test]
fn floors_to_char_boundary() {
    let line = "é"; // bytes [0,1]; index 1 is mid-codepoint
    assert_eq!(byte_to_utf16_column(line, 1), 0);
}

#[test]
fn mid_surrogate_utf16_column_resolves_past_the_character() {
    // Column 1 falls inside the surrogate pair of "😀"; the first boundary
    // that reaches it is after the whole character.
    assert_eq!(utf16_column_to_byte("😀x", 1), 4);
    assert_eq!(column_to_byte("😀x", 1, PositionEncodingKind::Utf16), 4);
    assert_eq!(column_to_byte("😀x", 1, PositionEncodingKind::Utf8), 0);
    assert_eq!(byte_to_column("😀x", 5, PositionEncodingKind::Utf16), 3);
}

#[test]
fn offsets_inside_a_line_break_pair_stay_on_their_line() {
    let text = "ab\r\ncd";
    assert_eq!(offset_to_position(text, 3), Position::new(0, 3));
    assert_eq!(offset_to_position(text, 4), Position::new(1, 0));
    assert_eq!(position_to_offset(text, Position::new(0, 99)), 3);
    assert_eq!(position_to_offset(text, Position::new(1, 1)), 5);
}

#[test]
fn empty_text_has_one_empty_line() {
    assert_eq!(position_to_offset("", Position::new(0, 5)), 0);
    assert_eq!(offset_to_position("", 7), Position::new(0, 0));
    assert_eq!(LineIndex::new("").line_count(), 1);
}

#[test]
fn line_index_agrees_with_free_functions() {
    let texts = ["", "a", "é😀x\nsecond\n", "α = 1\nβ = 2", "\n\n\nx", "ab\r\ncd\n"];
    let encodings = [
        PositionEncodingKind::Utf8,
        PositionEncodingKind::Utf16,
        PositionEncodingKind::Utf32,
    ];
    for text in texts {
        let index = LineIndex::new(text);
        for encoding in encodings {
            for offset in 0..text.len() + 3 {
                assert_eq!(
                    index.offset_to_position(text, offset, encoding),
                    offset_to_position_with(text, offset, encoding),
                );
            }
            for line in 0..6 {
                for character in 0..12 {
                    let position = Position::new(line, character);
                    assert_eq!(
                        index.position_to_offset(text, position, encoding),
                        position_to_offset_with(text, position, encoding),
                    );
                }
            }
        }
    }
}

#[test]
fn line_index_reports_line_starts() {
    let index = LineIndex::new("one\ntwo\n");
    assert_eq!(index.line_count(), 3);
    assert_eq!(index.line_start(0), Some(0));
    assert_eq!(index.line_start(1), Some(4));
    assert_eq!(index.line_start(2), Some(8));
    assert_eq!(index.line_start(3), None);
}

#[test]
fn offsets_round_trip_through_positions() {
    let text = "é😀x\r\nsecond\n\n汉字";
    for encoding in [
        PositionEncodingKind::Utf8,
        PositionEncodingKind::Utf16,
        PositionEncodingKind::Utf32,
    ] {
        for offset in 0..=text.len() {
            if text.is_char_boundary(offset) {
                let position = offset_to_position_with(text, offset, encoding);
                assert_eq!(position_to_offset_with(text, position, encoding), offset);
            }
        }
    }
}

#[test]
fn small_texts_have_positions_that_fit() {
    let text = "é😀x\nsecond";
    for encoding in [
        PositionEncodingKind::Utf8,
        PositionEncodingKind::Utf16,
        PositionEncodingKind::Utf32,
    ] {
        for offset in 0..text.len() + 3 {
            assert!(offset_position_fits(text, offset, encoding));
        }
    }
}

#[test]
fn columns_round_trip_within_a_line() {
    let line = "é😀x\r";
    for encoding in [
        PositionEncodingKind::Utf8,
        PositionEncodingKind::Utf16,
        PositionEncodingKind::Utf32,
    ] {
        for byte in 0..line.len() + 2 {
            let mut floor = byte.min(line.len());
            while !line.is_char_boundary(floor) {
                floor -= 1;
            }
            let column = byte_to_column(line, byte, encoding);
            assert_eq!(column_to_byte(line, column, encoding), floor);
        }
    }
}
