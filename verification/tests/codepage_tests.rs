use simetry::codepage::{cp1252_to_string, cp1252_to_string_or_empty};

#[test]
fn ascii_text_decodes_up_to_the_nul_padding() {
    let field = *b"Monza\0\0\0\0\0\0\0\0\0\0\0";
    assert_eq!(cp1252_to_string(&field), Some(String::from("Monza")));
}

#[test]
fn field_without_padding_decodes_whole() {
    let field = *b"Interlagos";
    assert_eq!(cp1252_to_string(&field), Some(String::from("Interlagos")));
}

#[test]
fn empty_field_decodes_to_empty_string() {
    let field = [0u8; 8];
    assert_eq!(cp1252_to_string(&field), Some(String::new()));
}

#[test]
fn codepage_specials_map_to_their_unicode_points() {
    let field: [u8; 4] = [0x80, 0x99, 0xE9, 0];
    assert_eq!(cp1252_to_string(&field), Some(String::from("\u{20AC}\u{2122}\u{E9}")));
}

#[test]
fn undefined_bytes_fail_the_field_and_read_as_empty() {
    let field: [u8; 4] = [b'A', 0x81, b'B', 0];
    assert_eq!(cp1252_to_string(&field), None);
    assert_eq!(cp1252_to_string_or_empty(&field), String::new());
}

#[test]
fn bytes_after_the_nul_are_padding() {
    let field: [u8; 6] = [b'O', b'K', 0, 0x81, 0xFF, 7];
    assert_eq!(cp1252_to_string(&field), Some(String::from("OK")));
}
