use meeting_minutes::text::{
    chars_of, copy_range, is_whitespace_char, occurs_at, remove_pattern, string_of, trim_chars,
};

fn cs(s: &str) -> Vec<char> {
    s.chars().collect()
}

#[test]
fn chars_and_strings_convert_both_ways() {
    assert_eq!(chars_of("héllo wörld"), cs("héllo wörld"));
    assert_eq!(chars_of(""), Vec::<char>::new());
    assert_eq!(string_of(&cs("héllo")), "héllo");
    assert_eq!(string_of(&['a', 'b']), "ab");
    assert_eq!(string_of(&[]), "");
}

#[test]
fn whitespace_agrees_with_unicode() {
    let mut code: u32 = 0;
    while code <= 0x10FFFF {
        if let Some(c) = char::from_u32(code) {
            assert_eq!(is_whitespace_char(c), c.is_whitespace(), "U+{:04X}", code);
        }
        code += 1;
    }
}

#[test]
fn trim_removes_surrounding_whitespace_only() {
    assert_eq!(trim_chars(&cs("  hello world \n")), cs("hello world"));
    assert_eq!(trim_chars(&cs("hello")), cs("hello"));
    assert_eq!(trim_chars(&cs(" \t\r\n ")), cs(""));
    assert_eq!(trim_chars(&cs("")), cs(""));
    assert_eq!(trim_chars(&cs("\u{3000}a b\u{00A0}")), cs("a b"));
    assert_eq!(trim_chars(&cs("x")), cs("x"));
}

#[test]
fn trim_agrees_with_std() {
    for s in ["", " ", "a", " a", "a ", "  a  b  ", "\n\ta\u{2003}", "\u{200B} a"] {
        assert_eq!(string_of(&trim_chars(&cs(s))), s.trim());
    }
}

#[test]
fn remove_pattern_removes_every_occurrence() {
    assert_eq!(remove_pattern(&cs("a[X]b[X]"), &cs("[X]")), cs("ab"));
    assert_eq!(remove_pattern(&cs("[X][X]"), &cs("[X]")), cs(""));
    assert_eq!(remove_pattern(&cs("abc"), &cs("[X]")), cs("abc"));
    assert_eq!(remove_pattern(&cs("ab"), &cs("abc")), cs("ab"));
    assert_eq!(remove_pattern(&cs(""), &cs("a")), cs(""));
}

#[test]
fn remove_pattern_scans_from_the_left_without_overlap() {
    assert_eq!(remove_pattern(&cs("aaa"), &cs("aa")), cs("a"));
    assert_eq!(remove_pattern(&cs("ababa"), &cs("aba")), cs("ba"));
    assert_eq!(remove_pattern(&cs("aabb"), &cs("ab")), cs("ab"));
}

#[test]
fn remove_pattern_with_empty_pattern_changes_nothing() {
    assert_eq!(remove_pattern(&cs("abc"), &cs("")), cs("abc"));
}

#[test]
fn remove_pattern_agrees_with_std_replace() {
    let cases = [
        ("hello [BLANK_AUDIO] world", "[BLANK_AUDIO]"),
        ("[AUDIO OUT][AUDIO OUT]", "[AUDIO OUT]"),
        ("xxyxxyxx", "xxy"),
        ("ééé", "é"),
        ("abcabc", "bc"),
    ];
    for (s, p) in cases {
        assert_eq!(string_of(&remove_pattern(&cs(s), &cs(p))), s.replace(p, ""));
    }
}

#[test]
fn occurs_at_compares_the_window() {
    let s = cs("hello world");
    assert!(occurs_at(&s, 6, &cs("world")));
    assert!(!occurs_at(&s, 5, &cs("world")));
    assert!(occurs_at(&s, 0, &cs("")));
    assert!(occurs_at(&s, 11, &cs("")));
}

#[test]
fn copy_range_copies_the_window() {
    let s = cs("hello");
    assert_eq!(copy_range(&s, 1, 4), cs("ell"));
    assert_eq!(copy_range(&s, 2, 2), cs(""));
    assert_eq!(copy_range(&s, 0, 5), cs("hello"));
}
