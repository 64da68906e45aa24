use gitversion_build::literal::{chars_of, denotes, plain_literal};
use gitversion_build::render::string_literal;

#[test]
fn chars_of_a_string() {
    assert_eq!(chars_of(""), Vec::<char>::new());
    assert_eq!(chars_of("a\u{e9}\u{1f600}"), vec!['a', '\u{e9}', '\u{1f600}']);
}

#[test]
fn denotes_a_string_without_escapes() {
    assert!(denotes("\"\"", ""));
    assert!(denotes("\"abc\"", "abc"));
    assert!(denotes("\"1.2.3-beta.4+9\"", "1.2.3-beta.4+9"));
    assert!(denotes("\"caf\u{e9} \u{1f600}\"", "caf\u{e9} \u{1f600}"));
    assert!(denotes("\"it's\"", "it's"));
    assert!(denotes("\"a\nb\tc\"", "a\nb\tc"));
}

#[test]
fn denotes_reads_the_short_escapes() {
    assert!(denotes("\"\\n\"", "\n"));
    assert!(denotes("\"\\r\"", "\r"));
    assert!(denotes("\"\\t\"", "\t"));
    assert!(denotes("\"\\\\\"", "\\"));
    assert!(denotes("\"\\0\"", "\0"));
    assert!(denotes("\"\\'\"", "'"));
    assert!(denotes("\"\\\"\"", "\""));
    assert!(denotes("\"a\\\"b\\\\c\"", "a\"b\\c"));
    assert!(denotes("\"\\07\"", "\u{0}7"));
}

#[test]
fn denotes_reads_the_escapes_with_digits() {
    assert!(denotes("\"\\x41\"", "A"));
    assert!(denotes("\"\\x4a\\x4A\"", "JJ"));
    assert!(denotes("\"\\x00\\x7f\"", "\u{0}\u{7f}"));
    assert!(denotes("\"\\u{e9}\"", "\u{e9}"));
    assert!(denotes("\"\\u{E9}\"", "\u{e9}"));
    assert!(denotes("\"\\u{0000e9}\"", "\u{e9}"));
    assert!(denotes("\"\\u{7}\"", "\u{7}"));
    assert!(denotes("\"\\u{1f600}x\"", "\u{1f600}x"));
    assert!(denotes("\"\\u{d7ff}\\u{e000}\\u{10ffff}\"", "\u{d7ff}\u{e000}\u{10ffff}"));
}

#[test]
fn denotes_refuses_what_is_no_literal() {
    assert!(!denotes("", ""));
    assert!(!denotes("\"", ""));
    assert!(!denotes("abc", "abc"));
    assert!(!denotes("\"abc", "abc"));
    assert!(!denotes("abc\"", "abc"));
    assert!(!denotes("'abc'", "abc"));
    assert!(!denotes("\"a\"b\"", "a\"b"));
    assert!(!denotes("\"a\rb\"", "a\rb"));
    assert!(!denotes("\"\\\"", "\\"));
    assert!(!denotes("\"\\q\"", "q"));
    assert!(!denotes("\"\\x4\"", "\u{4}"));
    assert!(!denotes("\"\\x80\"", "\u{80}"));
    assert!(!denotes("\"\\xg1\"", "g"));
    assert!(!denotes("\"\\u{}\"", ""));
    assert!(!denotes("\"\\u{e9\"", "\u{e9}"));
    assert!(!denotes("\"\\ue9}\"", "\u{e9}"));
    assert!(!denotes("\"\\u{00000e9}\"", "\u{e9}"));
    assert!(!denotes("\"\\u{d800}\"", "x"));
    assert!(!denotes("\"\\u{dfff}\"", "x"));
    assert!(!denotes("\"\\u{110000}\"", "x"));
    assert!(!denotes("\"\\u{e_9}\"", "\u{e9}"));
}

#[test]
fn denotes_refuses_another_string() {
    assert!(!denotes("\"abc\"", "abd"));
    assert!(!denotes("\"abc\"", "ab"));
    assert!(!denotes("\"abc\"", "abcd"));
    assert!(!denotes("\"abc\"", ""));
    assert!(!denotes("\"\"", "a"));
    assert!(!denotes("\"\\n\"", "n"));
    assert!(!denotes("\"\\n\"", "\\n"));
    assert!(!denotes("\"\\x41\"", "a"));
    assert!(!denotes("\"\\u{e9}\"", "e"));
}

#[test]
fn plain_literal_escapes_what_it_must() {
    assert_eq!(plain_literal(""), "\"\"");
    assert_eq!(plain_literal("abc"), "\"abc\"");
    assert_eq!(plain_literal("a\"b\\c"), "\"a\\\"b\\\\c\"");
    assert_eq!(plain_literal("a\rb"), "\"a\\rb\"");
    assert_eq!(plain_literal("a\nb'c\u{e9}"), "\"a\nb'c\u{e9}\"");
}

#[test]
fn plain_literal_reads_back() {
    let samples = ["", "abc", "a\"b\\c", "\r\n\t\0", "\\", "\"", "\\\"\\", "caf\u{e9} \u{1f600}"];
    for sample in samples {
        assert!(denotes(&plain_literal(sample), sample));
    }
}

#[test]
fn string_literal_is_the_one_that_quote_writes() {
    assert_eq!(string_literal(""), "\"\"");
    assert_eq!(string_literal("1.2.3"), "\"1.2.3\"");
    assert_eq!(string_literal("a\"b\\c"), "\"a\\\"b\\\\c\"");
    assert_eq!(string_literal("it's"), "\"it's\"");
    assert_eq!(string_literal("a\nb\tc\rd"), "\"a\\nb\\tc\\rd\"");
    assert_eq!(string_literal("\u{0}"), "\"\\0\"");
    assert_eq!(string_literal("\u{0}7"), "\"\\x007\"");
    assert_eq!(string_literal("\u{7}"), "\"\\u{7}\"");
    assert_eq!(string_literal("e\u{301}"), "\"e\\u{301}\"");
    assert_eq!(string_literal("caf\u{e9}"), "\"caf\u{e9}\"");
}

#[test]
fn string_literal_reads_back() {
    let samples = [
        "",
        "release/5.12.7",
        "a\"b\\c",
        "\r\n\t\0",
        "\u{0}0\u{0}8",
        "\u{7f}\u{80}\u{9f}\u{a0}",
        "e\u{301}\u{200b}\u{202e}\u{feff}",
        "\u{d7ff}\u{e000}\u{fffd}\u{10ffff}",
        "caf\u{e9} \u{1f600}",
    ];
    for sample in samples {
        assert!(denotes(&string_literal(sample), sample));
    }
}

#[test]
fn string_literal_keeps_what_quote_writes_of_each_character() {
    let mut code: u32 = 0;
    while code <= 0x10ffff {
        if let Some(c) = char::from_u32(code) {
            let alone = c.to_string();
            let written = quote::ToTokens::to_token_stream(alone.as_str()).to_string();
            assert_eq!(string_literal(&alone), written);
            assert!(denotes(&written, &alone));
            let between = format!("a{}0", c);
            let written = quote::ToTokens::to_token_stream(between.as_str()).to_string();
            assert_eq!(string_literal(&between), written);
            assert!(denotes(&written, &between));
        }
        code += if code < 0x3100 { 1 } else { 89 };
    }
}
