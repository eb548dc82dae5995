use sidecar_supervisor::text::{char_is_space, chars_of, first_line_of, trimmed};

#[test]
fn whitespace_is_the_unicode_property() {
    let mut c = 0u32;
    while c <= 0x10FFFF {
        if let Some(ch) = char::from_u32(c) {
            assert_eq!(char_is_space(ch), ch.is_whitespace(), "U+{:04X}", c);
        }
        c += 1;
    }
}

#[test]
fn whitespace_examples() {
    for ch in [' ', '\t', '\n', '\r', '\u{0b}', '\u{0c}', '\u{85}', '\u{a0}', '\u{3000}', '\u{2028}'] {
        assert!(char_is_space(ch), "{:?}", ch);
    }
    for ch in ['a', '0', '\u{200b}', '\u{feff}', '\u{1c}', '\u{8}', '\u{180e}', '-'] {
        assert!(!char_is_space(ch), "{:?}", ch);
    }
}

#[test]
fn chars_are_kept_in_order() {
    assert_eq!(chars_of("a\u{e9}\u{1f600}z"), vec!['a', '\u{e9}', '\u{1f600}', 'z']);
    assert!(chars_of("").is_empty());
}

#[test]
fn trimming_removes_both_ends_only() {
    assert_eq!(trimmed("  a b  "), "a b");
    assert_eq!(trimmed("a"), "a");
    assert_eq!(trimmed(""), "");
    assert_eq!(trimmed(" \t\r\n"), "");
    assert_eq!(trimmed("\u{3000}\u{e9}t\u{e9}\u{2003}"), "\u{e9}t\u{e9}");
    assert_eq!(trimmed("\u{200b}x\u{200b}"), "\u{200b}x\u{200b}");
}

#[test]
fn trimming_agrees_with_the_standard_library() {
    let samples = [
        "",
        " ",
        "x",
        " x",
        "x ",
        "\n\nx y\tz\r\n",
        "\u{a0}\u{1680}mixed \u{2000} inside\u{205f}\u{202f}",
        "\u{1f600} ",
        "   \u{85}",
        "/usr/bin/acme",
    ];
    for s in samples {
        assert_eq!(trimmed(s), s.trim(), "{:?}", s);
    }
}

#[test]
fn first_line_ends_at_the_line_feed() {
    assert_eq!(first_line_of("one\ntwo\n"), "one");
    assert_eq!(first_line_of("one\r\ntwo"), "one");
    assert_eq!(first_line_of("one"), "one");
    assert_eq!(first_line_of("one\r"), "one\r");
    assert_eq!(first_line_of("one\r\r\n"), "one\r");
    assert_eq!(first_line_of("\nrest"), "");
    assert_eq!(first_line_of("\r\nrest"), "");
    assert_eq!(first_line_of(""), "");
}

#[test]
fn first_line_agrees_with_the_standard_library() {
    let samples = [
        "",
        "\n",
        "\r\n",
        "\r",
        "a\rb\nc",
        "a\r\nb",
        "no terminator",
        "\u{e9}\u{1f600}\r\nnext",
        "x\n\n\n",
        " spaced \r\n",
    ];
    for s in samples {
        assert_eq!(first_line_of(s), s.lines().next().unwrap_or(""), "{:?}", s);
    }
}
