use pos_printing::wide::to_wide;

fn reference(text: &str) -> Vec<u16> {
    text.encode_utf16().chain(std::iter::once(0)).collect()
}

#[test]
fn empty_text_is_the_terminator_alone() {
    assert_eq!(to_wide(""), vec![0u16]);
}

#[test]
fn ascii_text_is_widened_and_terminated() {
    assert_eq!(to_wide("RAW"), vec![0x52, 0x41, 0x57, 0]);
}

#[test]
fn characters_above_the_basic_plane_become_surrogate_pairs() {
    assert_eq!(to_wide("\u{1F600}"), vec![0xD83D, 0xDE00, 0]);
    assert_eq!(to_wide("\u{10000}"), vec![0xD800, 0xDC00, 0]);
    assert_eq!(to_wide("\u{10FFFF}"), vec![0xDBFF, 0xDFFF, 0]);
    assert_eq!(to_wide("\u{FFFF}"), vec![0xFFFF, 0]);
}

#[test]
fn wide_text_is_what_the_standard_library_encodes() {
    for text in ["EPSON TM-T88V", "Drucker Büro", "プリンター", "a\u{1F5A8}b", "POS ESC/POS Receipt"] {
        assert_eq!(to_wide(text), reference(text));
    }
}

#[test]
fn every_character_is_encoded_as_the_standard_library_does() {
    let mut code: u32 = 0;
    while code <= 0x10FFFF {
        if let Some(c) = char::from_u32(code) {
            let text = c.to_string();
            assert_eq!(to_wide(&text), reference(&text), "U+{:04X}", code);
        }
        code += 257;
    }
}
