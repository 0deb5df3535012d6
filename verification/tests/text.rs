use dioscuri::text::char_is_whitespace;
use dioscuri::text::chars_of;
use dioscuri::text::string_of;
use dioscuri::text::trim_bounds;
use dioscuri::text::utf8_width;

fn trimmed(text: &str) -> String {
    let chars = chars_of(text);
    let (from, to) = trim_bounds(&chars);
    string_of(&chars, from, to)
}

#[test]
fn white_space_is_what_unicode_calls_white_space() {
    for code in 0..=0x10FFFFu32 {
        if let Some(c) = char::from_u32(code) {
            assert_eq!(char_is_whitespace(c), c.is_whitespace(), "U+{:04X}", code);
        }
    }
}

#[test]
fn chars_and_strings_convert_both_ways() {
    let chars = chars_of("a\u{e9}\u{4e16}\u{1f600}");
    assert_eq!(chars, vec!['a', '\u{e9}', '\u{4e16}', '\u{1f600}']);
    assert_eq!(string_of(&chars, 0, 4), "a\u{e9}\u{4e16}\u{1f600}");
    assert_eq!(string_of(&chars, 1, 3), "\u{e9}\u{4e16}");
    assert_eq!(string_of(&chars, 2, 2), "");
    assert_eq!(chars_of(""), Vec::<char>::new());
}

#[test]
fn trim_takes_white_space_from_both_ends_only() {
    assert_eq!(trimmed("  text/gemini \r\n"), "text/gemini");
    assert_eq!(trimmed("a b"), "a b");
    assert_eq!(trimmed(""), "");
    assert_eq!(trimmed(" \t\r\n"), "");
    assert_eq!(trimmed("\u{a0}\u{3000}x y\u{2028}"), "x y");
    assert_eq!(trimmed("x"), "x");
}

#[test]
fn trim_agrees_with_the_standard_library() {
    for text in ["", " ", "  a", "a  ", " a b ", "\u{85}a\u{1680}", "\u{200b}a ", "\n\na\n\n"] {
        assert_eq!(trimmed(text), text.trim());
    }
}

#[test]
fn trim_bounds_are_the_ends_of_the_kept_text() {
    let chars = chars_of("  ab ");
    assert_eq!(trim_bounds(&chars), (2, 4));
    let blank = chars_of("   ");
    let (from, to) = trim_bounds(&blank);
    assert_eq!(from, to);
}

#[test]
fn width_is_the_length_of_the_encoding() {
    for code in 0..=0x10FFFFu32 {
        if let Some(c) = char::from_u32(code) {
            assert_eq!(utf8_width(c), c.len_utf8(), "U+{:04X}", code);
        }
    }
    assert_eq!(utf8_width('a'), 1);
    assert_eq!(utf8_width('\u{e9}'), 2);
    assert_eq!(utf8_width('\u{4e16}'), 3);
    assert_eq!(utf8_width('\u{1f600}'), 4);
}
