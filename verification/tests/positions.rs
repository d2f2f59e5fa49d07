use virtual_world::source_location::{byte_to_utf16, line_column_to_byte};
use virtual_world::{SourceLocation, SourceRange};

const TEXT: &[u8] = b"one\ntwo\n\nfour";

#[test]
fn offset_zero_is_line_zero_column_zero() {
    let loc = SourceLocation::from_byte_offset(0, TEXT).unwrap();
    assert_eq!(loc.byte_offset, 0);
    assert_eq!(loc.line, 0);
    assert_eq!(loc.column, 0);
}

#[test]
fn offsets_resolve_to_their_line_and_column() {
    // byte 5 is the 'w' of "two": line 1, column 1
    let loc = SourceLocation::from_byte_offset(5, TEXT).unwrap();
    assert_eq!(loc.line, 1);
    assert_eq!(loc.column, 1);

    // byte 8 is the empty third line
    let loc = SourceLocation::from_byte_offset(8, TEXT).unwrap();
    assert_eq!(loc.line, 2);
    assert_eq!(loc.column, 0);

    // byte 13 is the end of the text, on the last line
    let loc = SourceLocation::from_byte_offset(13, TEXT).unwrap();
    assert_eq!(loc.line, 3);
    assert_eq!(loc.column, 4);
}

#[test]
fn a_newline_byte_belongs_to_its_line() {
    let loc = SourceLocation::from_byte_offset(3, TEXT).unwrap();
    assert_eq!(loc.line, 0);
    assert_eq!(loc.column, 3);
}

#[test]
fn an_offset_past_the_end_resolves_to_nothing() {
    assert!(SourceLocation::from_byte_offset(14, TEXT).is_none());
}

#[test]
fn line_and_column_resolve_back_to_the_byte() {
    assert_eq!(line_column_to_byte(TEXT, 0, 0), Some(0));
    assert_eq!(line_column_to_byte(TEXT, 1, 1), Some(5));
    assert_eq!(line_column_to_byte(TEXT, 2, 0), Some(8));
    assert_eq!(line_column_to_byte(TEXT, 3, 4), Some(13));
}

#[test]
fn a_column_past_the_line_end_resolves_to_nothing() {
    assert_eq!(line_column_to_byte(TEXT, 0, 4), None);
    assert_eq!(line_column_to_byte(TEXT, 3, 5), None);
}

#[test]
fn a_line_past_the_last_resolves_to_nothing() {
    assert_eq!(line_column_to_byte(TEXT, 4, 0), None);
}

#[test]
fn round_trip_through_both_directions() {
    for offset in 0..=TEXT.len() {
        let loc = SourceLocation::from_byte_offset(offset, TEXT).unwrap();
        assert_eq!(line_column_to_byte(TEXT, loc.line, loc.column), Some(offset));
    }
}

#[test]
fn columns_count_characters_not_bytes() {
    // "éx": C3 A9 78
    let text = "éx".as_bytes();
    let loc = SourceLocation::from_byte_offset(2, text).unwrap();
    assert_eq!(loc.line, 0);
    assert_eq!(loc.column, 1);
    let loc = SourceLocation::from_byte_offset(3, text).unwrap();
    assert_eq!(loc.column, 2);
}

#[test]
fn an_offset_inside_a_character_resolves_to_nothing() {
    let text = "éx".as_bytes();
    assert!(SourceLocation::from_byte_offset(1, text).is_none());
    assert!(SourceRange::from_range(1, 2, text).is_none());
    assert!(SourceRange::from_range(0, 1, text).is_none());
}

#[test]
fn character_columns_resolve_back_to_byte_offsets() {
    let text = "éx
é".as_bytes();
    assert_eq!(line_column_to_byte(text, 0, 0), Some(0));
    assert_eq!(line_column_to_byte(text, 0, 1), Some(2));
    assert_eq!(line_column_to_byte(text, 0, 2), Some(3));
    assert_eq!(line_column_to_byte(text, 0, 3), None);
    assert_eq!(line_column_to_byte(text, 1, 0), Some(4));
    assert_eq!(line_column_to_byte(text, 1, 1), Some(6));
    assert_eq!(line_column_to_byte(text, 1, 2), None);
}

#[test]
fn utf16_offsets_count_wide_scalars_twice() {
    // "a" (1 unit), "é" (2 bytes, 1 unit), "🎉" (4 bytes, 2 units), "b"
    let text = "aé🎉b".as_bytes();
    assert_eq!(byte_to_utf16(text, 0), Some(0));
    assert_eq!(byte_to_utf16(text, 1), Some(1));
    assert_eq!(byte_to_utf16(text, 3), Some(2));
    assert_eq!(byte_to_utf16(text, 7), Some(4));
    assert_eq!(byte_to_utf16(text, 8), Some(5));
    // inside the encoding of "é"
    assert_eq!(byte_to_utf16(text, 2), None);
    // past the end
    assert_eq!(byte_to_utf16(text, 9), None);
}

#[test]
fn ranges_carry_both_endpoints() {
    let range = SourceRange::from_range(4, 7, TEXT).unwrap();
    assert_eq!(range.start.byte_offset, 4);
    assert_eq!(range.start.line, 1);
    assert_eq!(range.start.column, 0);
    assert_eq!(range.end.byte_offset, 7);
    assert_eq!(range.end.line, 1);
    assert_eq!(range.end.column, 3);
}

#[test]
fn a_range_bound_past_the_end_resolves_to_nothing() {
    assert!(SourceRange::from_range(0, 99, TEXT).is_none());
    assert!(SourceRange::from_range(99, 99, TEXT).is_none());
}
