use clipboard_history::text::{
    char_is_whitespace, chars_of, contains_chars, find_char, preview_of, string_from_chars, string_from_range, trim,
};

fn v(s: &str) -> Vec<char> {
    s.chars().collect()
}

#[test]
fn chars_of_copies_every_character() {
    assert_eq!(chars_of("aé😄"), vec!['a', 'é', '😄']);
    assert_eq!(chars_of(""), Vec::<char>::new());
}

#[test]
fn strings_rebuilt_from_characters() {
    let chars = v("héllo");
    assert_eq!(string_from_chars(&chars), "héllo");
    assert_eq!(string_from_range(&chars, 1, 3), "él");
    assert_eq!(string_from_range(&chars, 2, 2), "");
}

#[test]
fn find_char_finds_first_at_or_after() {
    let chars = v("a:b:c");
    assert_eq!(find_char(&chars, ':', 0), 1);
    assert_eq!(find_char(&chars, ':', 2), 3);
    assert_eq!(find_char(&chars, ':', 4), 5);
    assert_eq!(find_char(&chars, 'x', 0), 5);
}

#[test]
fn contains_chars_matches_str_contains() {
    for (hay, needle) in [
        ("hello world", "lo w"),
        ("hello", "hello"),
        ("hello", "helloo"),
        ("abc", ""),
        ("", ""),
        ("", "a"),
        ("aaab", "aab"),
        ("aab", "abb"),
    ] {
        assert_eq!(contains_chars(&v(hay), &v(needle)), hay.contains(needle), "{hay} / {needle}");
    }
}

#[test]
fn trim_removes_surrounding_white_space() {
    assert_eq!(trim("  hello world \n\t"), "hello world");
    assert_eq!(trim("\u{3000}x\u{a0}"), "x");
    assert_eq!(trim(" \n "), "");
    assert_eq!(trim(""), "");
    assert_eq!(trim("a b"), "a b");
}

#[test]
fn trim_agrees_with_str_trim() {
    for s in ["  a ", "\r\n x\ty \u{2003}", "\u{85}\u{2028}z\u{205f}", "no-space", "\u{200b}k"] {
        assert_eq!(trim(s), s.trim(), "{s:?}");
    }
}

#[test]
fn preview_of_short_single_line_is_unchanged() {
    assert_eq!(preview_of("hello", 5), "hello");
    assert_eq!(preview_of("", 35), "");
}

#[test]
fn preview_of_long_text_is_cut_with_ellipsis() {
    assert_eq!(preview_of("hello world", 5), "hello…");
    assert_eq!(preview_of("héllo wörld", 4), "héll…");
}

#[test]
fn preview_of_keeps_first_line_only() {
    assert_eq!(preview_of("first\nsecond", 35), "first…");
    assert_eq!(preview_of("first\r\nsecond", 35), "first…");
    assert_eq!(preview_of("\nsecond", 35), "…");
}

#[test]
fn preview_of_trailing_newline_counts_as_one_line() {
    assert_eq!(preview_of("only\n", 35), "only");
    assert_eq!(preview_of("only\r\n", 35), "only");
    assert_eq!(preview_of("a\r", 35), "a\r");
}

#[test]
fn preview_of_matches_lines_reference() {
    for (s, w) in [("x\n\ny", 3), ("abcdef\nxy", 3), ("abc", 3), ("abcd", 3), ("ab\r\n", 5)] {
        let first: String = s.lines().next().unwrap_or("").chars().take(w).collect();
        let expected = if s.lines().count() > 1 || s.chars().count() > w {
            format!("{}…", first)
        } else {
            first
        };
        assert_eq!(preview_of(s, w), expected, "{s:?}");
    }
}

#[test]
fn preview_never_longer_than_width_plus_one() {
    for s in ["", "short", "a much longer line of text", "two\nlines", "x\r\ny\r\nz"] {
        for w in 0..8 {
            assert!(preview_of(s, w).chars().count() <= w + 1, "{s:?} {w}");
        }
    }
}

#[test]
fn whitespace_test_agrees_with_char_is_whitespace() {
    for c in ['\t', '\n', '\u{b}', '\u{c}', '\r', ' ', '\u{85}', '\u{a0}', '\u{1680}', '\u{2000}',
        '\u{200a}', '\u{200b}', '\u{2028}', '\u{2029}', '\u{202f}', '\u{205f}', '\u{3000}', 'a', '\u{1f}', '\u{feff}']
    {
        assert_eq!(char_is_whitespace(c), c.is_whitespace(), "{c:?}");
    }
    for code in 0u32..0x3100 {
        if let Some(c) = char::from_u32(code) {
            assert_eq!(char_is_whitespace(c), c.is_whitespace(), "{code:x}");
        }
    }
}
