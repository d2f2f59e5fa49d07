use virtual_world::path_slot::decode_text;
use virtual_world::FileError;

#[test]
fn leading_bom_is_stripped() {
    let bytes = vec![0xef, 0xbb, 0xbf, 0x68, 0x65, 0x6c, 0x6c, 0x6f];
    assert_eq!(decode_text(bytes).unwrap(), "hello");
}

#[test]
fn text_without_bom_decodes_as_is() {
    let bytes = vec![0x68, 0x65, 0x6c, 0x6c, 0x6f];
    assert_eq!(decode_text(bytes).unwrap(), "hello");
}

#[test]
fn bom_alone_is_the_empty_text() {
    assert_eq!(decode_text(vec![0xef, 0xbb, 0xbf]).unwrap(), "");
    assert_eq!(decode_text(Vec::new()).unwrap(), "");
}

#[test]
fn a_bom_later_in_the_text_is_kept() {
    let bytes = vec![0x61, 0xef, 0xbb, 0xbf, 0x62];
    assert_eq!(decode_text(bytes).unwrap(), "a\u{feff}b");
}

#[test]
fn multibyte_text_decodes() {
    let bytes = "grüße ✓".as_bytes().to_vec();
    assert_eq!(decode_text(bytes).unwrap(), "grüße ✓");
}

#[test]
fn invalid_encoding_is_reported() {
    assert_eq!(decode_text(vec![0xff, 0xfe]), Err(FileError::InvalidUtf8));
}

#[test]
fn invalid_encoding_after_a_bom_is_reported() {
    assert_eq!(decode_text(vec![0xef, 0xbb, 0xbf, 0xff]), Err(FileError::InvalidUtf8));
}
