use gpt_shell::text::{
    contains_chars, find_from, is_space_char, matches_at, replace_in, str_contains, str_eq,
    strip_leading_char, to_chars, trimmed,
};

fn chars(s: &str) -> Vec<char> {
    s.chars().collect()
}

#[test]
fn str_eq_compares_contents() {
    assert!(str_eq("", ""));
    assert!(str_eq("abc", "abc"));
    assert!(!str_eq("abc", "abd"));
    assert!(!str_eq("abc", "ab"));
    assert!(!str_eq("ab", "abc"));
    assert!(str_eq("你好", "你好"));
    assert!(!str_eq("你好", "你们"));
}

#[test]
fn to_chars_lists_the_characters() {
    assert_eq!(to_chars(""), Vec::<char>::new());
    assert_eq!(to_chars("aé你"), vec!['a', 'é', '你']);
}

#[test]
fn matches_at_tests_one_position() {
    let hay = chars("hello");
    assert!(matches_at(&hay, &chars("ell"), 1));
    assert!(!matches_at(&hay, &chars("ell"), 0));
    assert!(matches_at(&hay, &chars(""), 5));
    assert!(!matches_at(&hay, &chars(""), 6));
    assert!(!matches_at(&hay, &chars("lo"), 4));
    assert!(matches_at(&hay, &chars("lo"), 3));
    assert!(!matches_at(&hay, &chars("hello!"), 0));
}

#[test]
fn contains_finds_a_run_anywhere() {
    assert!(str_contains("https://dashscope.aliyuncs.com/v1", "dashscope.aliyuncs.com"));
    assert!(str_contains("abc", "abc"));
    assert!(str_contains("abc", "c"));
    assert!(str_contains("abc", ""));
    assert!(str_contains("", ""));
    assert!(!str_contains("", "a"));
    assert!(!str_contains("abc", "abcd"));
    assert!(!str_contains("abc", "ac"));
    assert!(str_contains("aab", "ab"));
    assert!(contains_chars(&chars("x{{y"), &chars("{{")));
}

#[test]
fn replace_in_replaces_from_the_left_without_overlap() {
    assert_eq!(replace_in("a-b-c", "-", "+"), "a+b+c");
    assert_eq!(replace_in("aaa", "aa", "b"), "ba");
    assert_eq!(replace_in("abc", "x", "y"), "abc");
    assert_eq!(replace_in("abc", "abc", ""), "");
    assert_eq!(replace_in("abc", "abcd", "x"), "abc");
    assert_eq!(replace_in("", "a", "b"), "");
    assert_eq!(replace_in("{{k}} and {{k}}", "{{k}}", "v"), "v and v");
    assert_eq!(replace_in("你好你", "你", "x"), "x好x");
    assert_eq!(replace_in("abc", "", "x"), "abc");
    assert_eq!(replace_in("xay", "a", "aa"), "xaay");
}

#[test]
fn white_space_is_what_unicode_says() {
    for c in [' ', '\t', '\n', '\r', '\u{b}', '\u{c}', '\u{85}', '\u{a0}', '\u{1680}', '\u{2000}',
        '\u{200a}', '\u{2028}', '\u{2029}', '\u{202f}', '\u{205f}', '\u{3000}']
    {
        assert!(is_space_char(c));
        assert!(c.is_whitespace());
    }
    for c in ['a', '0', '\u{8}', '\u{e}', '\u{200b}', '\u{180e}', '\u{feff}', '\u{1f}', '_'] {
        assert!(!is_space_char(c));
        assert!(!c.is_whitespace());
    }
}

#[test]
fn white_space_agrees_with_the_standard_library_everywhere() {
    let mut code: u32 = 0;
    while code <= 0x10FFFF {
        if let Some(c) = char::from_u32(code) {
            assert_eq!(is_space_char(c), c.is_whitespace());
        }
        code += 1;
    }
}

#[test]
fn trimmed_drops_white_space_at_both_ends() {
    assert_eq!(trimmed("  hi there \n"), "hi there");
    assert_eq!(trimmed("hi"), "hi");
    assert_eq!(trimmed(""), "");
    assert_eq!(trimmed(" \t\r\n"), "");
    assert_eq!(trimmed("\u{3000}x\u{a0}"), "x");
    assert_eq!(trimmed("a b"), "a b");
}

#[test]
fn strip_leading_char_drops_the_run_at_the_start() {
    assert_eq!(strip_leading_char("v1.2.3", 'v'), "1.2.3");
    assert_eq!(strip_leading_char("vv1", 'v'), "1");
    assert_eq!(strip_leading_char("1.2.3", 'v'), "1.2.3");
    assert_eq!(strip_leading_char("1v", 'v'), "1v");
    assert_eq!(strip_leading_char("vvv", 'v'), "");
    assert_eq!(strip_leading_char("", 'v'), "");
}

#[test]
fn find_from_gives_the_first_place_at_or_after_the_start() {
    let hay = chars("a{{b{{c");
    let needle = chars("{{");
    assert_eq!(find_from(&hay, &needle, 0), Some(1));
    assert_eq!(find_from(&hay, &needle, 1), Some(1));
    assert_eq!(find_from(&hay, &needle, 2), Some(4));
    assert_eq!(find_from(&hay, &needle, 5), None);
    assert_eq!(find_from(&hay, &needle, 100), None);
    assert_eq!(find_from(&hay, &chars(""), 7), Some(7));
    assert_eq!(find_from(&hay, &chars(""), 8), None);
    assert_eq!(find_from(&chars(""), &needle, 0), None);
}
