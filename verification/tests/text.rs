use tessera_model_gate::lines::{join_with, nonblank_lines_of, same_lines, same_lines_in_any_order};
use tessera_model_gate::text::{chars_of, contains, ends_with, is_whitespace, starts_with, str_eq, trim};

fn strings(items: &[&str]) -> Vec<String> {
    items.iter().map(|s| s.to_string()).collect()
}

#[test]
fn trim_matches_the_standard_library() {
    for s in ["", "  ", " a ", "\t\na b\r\n", "\u{3000}x\u{a0}", "abc", "é "] {
        assert_eq!(trim(s), s.trim());
    }
}

#[test]
fn whitespace_follows_the_unicode_property() {
    for c in [' ', '\t', '\n', '\u{85}', '\u{a0}', '\u{2028}', '\u{3000}', 'a', '_', '\u{200b}'] {
        assert_eq!(is_whitespace(c), c.is_whitespace());
    }
}

#[test]
fn string_searches_match_the_standard_library() {
    let cases = [("hello world", "hello"), ("hello", "hello world"), ("abc", ""), ("abc", "bc"), ("abcabc", "ca"), ("", "")];
    for (s, p) in cases {
        assert_eq!(starts_with(s, p), s.starts_with(p));
        assert_eq!(ends_with(s, p), s.ends_with(p));
        assert_eq!(contains(s, p), s.contains(p));
        assert_eq!(str_eq(s, p), s == p);
    }
    assert_eq!(chars_of("añb"), vec!['a', 'ñ', 'b']);
}

#[test]
fn join_puts_the_separator_between_items() {
    assert_eq!(join_with(&strings(&["a", "b", "c"]), "; "), "a; b; c");
    assert_eq!(join_with(&strings(&["a"]), "; "), "a");
    assert_eq!(join_with(&strings(&[]), "; "), "");
}

#[test]
fn nonblank_lines_are_trimmed_and_kept_in_order() {
    assert_eq!(nonblank_lines_of("  one \n\n two\r\n   \nthree"), strings(&["one", "two", "three"]));
    assert_eq!(nonblank_lines_of(""), strings(&[]));
    assert_eq!(nonblank_lines_of("\n\n"), strings(&[]));
}

#[test]
fn line_lists_compare_with_and_without_order() {
    let a = strings(&["x", "y", "y"]);
    let b = strings(&["y", "x", "y"]);
    let c = strings(&["x", "x", "y"]);
    assert!(same_lines(&a, &a.clone()));
    assert!(!same_lines(&a, &b));
    assert!(same_lines_in_any_order(&a, &b));
    assert!(!same_lines_in_any_order(&a, &c));
    assert!(!same_lines_in_any_order(&a, &strings(&["x", "y"])));
}
