use pos_printing::text::{
    begins_with, chars_of, find_content, find_content_end, find_line_end, find_word_end, is_space,
};

#[test]
fn white_space_is_what_the_standard_library_says() {
    let mut code: u32 = 0;
    while code <= 0x10FFFF {
        if let Some(c) = char::from_u32(code) {
            assert_eq!(is_space(c), c.is_whitespace(), "U+{:04X}", code);
        }
        code += 1;
    }
}

#[test]
fn space_tab_and_line_ends_are_white_space() {
    for c in [' ', '\t', '\n', '\r', '\u{A0}', '\u{3000}'] {
        assert!(is_space(c));
    }
    for c in ['a', '0', '_', '\u{200B}', '\0'] {
        assert!(!is_space(c));
    }
}

#[test]
fn characters_of_a_string() {
    assert_eq!(chars_of(""), Vec::<char>::new());
    assert_eq!(chars_of("aß€😀"), vec!['a', 'ß', '€', '😀']);
}

#[test]
fn line_end_is_the_next_line_feed() {
    let text = chars_of("ab\ncd\n\nef");
    assert_eq!(find_line_end(&text, 0), 2);
    assert_eq!(find_line_end(&text, 2), 2);
    assert_eq!(find_line_end(&text, 3), 5);
    assert_eq!(find_line_end(&text, 6), 6);
    assert_eq!(find_line_end(&text, 7), 9);
    assert_eq!(find_line_end(&text, 9), 9);
}

#[test]
fn content_starts_after_leading_white_space() {
    let text = chars_of("  \t x y  ");
    assert_eq!(find_content(&text, 0, 9), 4);
    assert_eq!(find_content(&text, 4, 9), 4);
    assert_eq!(find_content(&text, 5, 9), 6);
    assert_eq!(find_content(&text, 7, 9), 9);
    assert_eq!(find_content(&text, 0, 3), 3);
    assert_eq!(find_content(&text, 2, 2), 2);
}

#[test]
fn content_ends_before_trailing_white_space() {
    let text = chars_of("  \t x y  ");
    assert_eq!(find_content_end(&text, 0, 9), 7);
    assert_eq!(find_content_end(&text, 4, 7), 7);
    assert_eq!(find_content_end(&text, 0, 4), 0);
    assert_eq!(find_content_end(&text, 4, 6), 5);
}

#[test]
fn word_ends_at_white_space() {
    let text = chars_of("one two\tthree");
    assert_eq!(find_word_end(&text, 0, 13), 3);
    assert_eq!(find_word_end(&text, 4, 13), 7);
    assert_eq!(find_word_end(&text, 8, 13), 13);
    assert_eq!(find_word_end(&text, 3, 13), 3);
    assert_eq!(find_word_end(&text, 0, 2), 2);
}

#[test]
fn prefix_is_looked_for_in_the_part_only() {
    let text = chars_of("xprinter A");
    let keyword = chars_of("printer ");
    assert!(!begins_with(&text, 0, 10, &keyword));
    assert!(begins_with(&text, 1, 10, &keyword));
    assert!(begins_with(&text, 1, 9, &keyword));
    assert!(!begins_with(&text, 1, 8, &keyword));
    assert!(begins_with(&text, 3, 3, &Vec::new()));
}
