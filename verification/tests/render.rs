use dioscuri::input::InputMode;
use dioscuri::render::body_lines;
use dioscuri::render::expanded;
use dioscuri::render::instructions;
use dioscuri::render::MAX_WRAP_WIDTH;

#[test]
fn tabs_are_shown_as_spaces() {
    assert_eq!(expanded("a\tb\t\tc"), "a b  c");
    assert_eq!(expanded("no tabs"), "no tabs");
    assert_eq!(expanded(""), "");
    assert_eq!(expanded("\t\u{e9}\n"), " \u{e9}\n");
}

#[test]
fn lines_are_counted_with_the_borders() {
    assert_eq!(body_lines("Hello World", 20), 3);
    assert_eq!(body_lines("Hello World", 10), 4);
    assert_eq!(body_lines("one\ntwo\nthree", 40), 5);
    assert_eq!(body_lines("a\tb", 40), 3);
}

#[test]
fn nothing_fits_in_no_columns() {
    assert_eq!(body_lines("Hello World", 0), 0);
}

#[test]
fn hint_changes_with_the_mode() {
    assert_eq!(instructions(InputMode::Normal), " <SLASH> - Edit the address ");
    assert_eq!(
        instructions(InputMode::Editing),
        " <ENTER> - Request address | <ESC> - Focus the body "
    );
}

#[test]
fn long_word_is_broken_at_the_widest_pane() {
    assert_eq!(MAX_WRAP_WIDTH, 8192);
    let word = "a".repeat(20000);
    assert_eq!(body_lines(&word, MAX_WRAP_WIDTH), 5);
    let wide = "\u{4e16}".repeat(10000);
    assert_eq!(body_lines(&wide, MAX_WRAP_WIDTH), 5);
    let spaced = format!("{} {}", "a".repeat(8191), "b".repeat(8192));
    assert_eq!(body_lines(&spaced, MAX_WRAP_WIDTH), 4);
}
