use backend::text::chars_of;
use backend::text::comes_before;
use backend::text::contains;
use backend::text::copy_texts;
use backend::text::end_without_suffixes;
use backend::text::ends_with;
use backend::text::find_from;
use backend::text::join;
use backend::text::lists;
use backend::text::same;
use backend::text::split;
use backend::text::starts_with;
use backend::text::strip_prefix;
use backend::text::visible;
use backend::text::white_space;

#[test]
fn same_compares_whole_texts() {
    assert!(same("", ""));
    assert!(same("abc", "abc"));
    assert!(!same("abc", "abd"));
    assert!(!same("abc", "ab"));
    assert!(same("\u{e9}t\u{e9}", "\u{e9}t\u{e9}"));
    assert!(!same("e", "\u{e9}"));
}

#[test]
fn chars_are_the_characters_in_order() {
    assert_eq!(chars_of("a\u{4e2d}b"), vec!['a', '\u{4e2d}', 'b']);
    assert_eq!(chars_of(""), Vec::<char>::new());
}

#[test]
fn prefix_and_suffix_are_tested_by_characters() {
    assert!(starts_with("Bearer x", "Bearer "));
    assert!(starts_with("abc", ""));
    assert!(!starts_with("ab", "abc"));
    assert!(ends_with("a.sql", ".sql"));
    assert!(ends_with(".sql", ".sql"));
    assert!(!ends_with("sql", ".sql"));
    assert!(ends_with("abc", ""));
    assert_eq!(strip_prefix("Bearer x", "Bearer "), Some("x"));
    assert_eq!(strip_prefix("\u{e9}\u{e9}x", "\u{e9}"), Some("\u{e9}x"));
    assert_eq!(strip_prefix("x", "y"), None);
}

#[test]
fn suffixes_are_taken_off_as_trimming_does() {
    for (text, suffix) in [
        ("a.sql", ".sql"),
        ("a.sql.sql", ".sql"),
        (".sql", ".sql"),
        ("a.sq", ".sql"),
        ("", ".sql"),
        ("abc", ""),
        ("", ""),
        ("aaa", "a"),
        ("aaaa", "aa"),
        ("aaaaa", "aa"),
    ] {
        let end = end_without_suffixes(&chars_of(text), &chars_of(suffix));
        let left: String = text.chars().take(end).collect();
        assert_eq!(left, text.trim_end_matches(suffix));
    }
}

#[test]
fn white_space_is_the_unicode_property() {
    for c in [' ', '\t', '\n', '\r', '\u{b}', '\u{c}', '\u{85}', '\u{a0}', '\u{1680}', '\u{2000}',
        '\u{200a}', '\u{2028}', '\u{2029}', '\u{202f}', '\u{205f}', '\u{3000}'] {
        assert!(white_space(c));
    }
    for c in ['a', '0', '\u{200b}', '\u{8}', '\u{e}', '\u{2060}', '\u{feff}', '_'] {
        assert!(!white_space(c));
    }
    let mut code: u32 = 0;
    while code < 0x3100 {
        if let Some(c) = char::from_u32(code) {
            assert_eq!(white_space(c), c.is_whitespace());
        }
        code += 1;
    }
}

#[test]
fn visible_is_what_trimming_leaves() {
    for text in ["", " ", " \t\n", "a", " a ", "\u{3000}", "\u{3000}x", "\u{200b}"] {
        assert_eq!(visible(text), !text.trim().is_empty());
    }
}

#[test]
fn lists_is_exact_membership() {
    let list = vec!["app".to_string(), "web".to_string()];
    assert!(lists(&list, "app"));
    assert!(lists(&list, "web"));
    assert!(!lists(&list, "ap"));
    assert!(!lists(&list, "apps"));
    assert!(!lists(&Vec::new(), "app"));
    assert_eq!(copy_texts(&list), list);
}

#[test]
fn join_puts_the_separator_between() {
    assert_eq!(join(&vec![], " AND "), "");
    assert_eq!(join(&vec!["a"], " AND "), "a");
    assert_eq!(join(&vec!["a", "b", "c"], " AND "), "a AND b AND c");
    assert_eq!(join(&vec!["", ""], ","), ",");
}

#[test]
fn split_gives_one_piece_more_than_separators() {
    for text in ["", "a", "a,b", ",", "a,,b", ",a,", "\u{e9},\u{4e2d}"] {
        let expected: Vec<String> = text.split(',').map(String::from).collect();
        assert_eq!(split(text, ','), expected);
    }
    assert_eq!(split("a,b", ','), vec!["a".to_string(), "b".to_string()]);
    assert_eq!(split("", ','), vec!["".to_string()]);
}

#[test]
fn find_gives_the_first_position() {
    let text = chars_of("abcabc");
    assert_eq!(find_from(&text, &chars_of("bc"), 0), Some(1));
    assert_eq!(find_from(&text, &chars_of("bc"), 2), Some(4));
    assert_eq!(find_from(&text, &chars_of("bc"), 5), None);
    assert_eq!(find_from(&text, &chars_of(""), 6), Some(6));
    assert_eq!(find_from(&text, &chars_of(""), 7), None);
    assert_eq!(find_from(&text, &chars_of("abcabcd"), 0), None);
    assert!(contains("Challenge not found", "not found"));
    assert!(!contains("Challenge missing", "not found"));
    assert!(contains("x", ""));
}

#[test]
fn order_of_texts_is_that_of_strings() {
    let texts = ["", "a", "ab", "b", "B", "2025100401", "2025100402", "10", "9", "\u{e9}", "z"];
    for a in texts {
        for b in texts {
            assert_eq!(comes_before(a, b), a < b);
        }
    }
}
