use mpcreator::text::{join_with, replace_literal, split_literal};

#[test]
fn split_on_separator() {
    assert_eq!(split_literal("a,b,,c", ","), vec!["a", "b", "", "c"]);
}

#[test]
fn split_without_occurrence() {
    assert_eq!(split_literal("abc", "x"), vec!["abc"]);
    assert_eq!(split_literal("", "x"), vec![""]);
}

#[test]
fn split_at_both_ends() {
    assert_eq!(split_literal("xax", "x"), vec!["", "a", ""]);
}

#[test]
fn split_is_leftmost_and_without_overlap() {
    assert_eq!(split_literal("aaaa", "aa"), vec!["", "", ""]);
    assert_eq!(split_literal("aaa", "aa"), vec!["", "a"]);
}

#[test]
fn split_on_empty_pattern_like_std() {
    assert_eq!(split_literal("ab", ""), "ab".split("").collect::<Vec<_>>());
    assert_eq!(split_literal("", ""), "".split("").collect::<Vec<_>>());
}

#[test]
fn split_multibyte_text() {
    assert_eq!(split_literal("äöüöä", "ö"), vec!["ä", "ü", "ä"]);
}

#[test]
fn join_puts_separator_between() {
    let parts = vec!["a".to_string(), "b".to_string(), "c".to_string()];
    assert_eq!(join_with(&parts, "--"), "a--b--c");
    assert_eq!(join_with(&Vec::new(), "--"), "");
}

#[test]
fn replace_matches_std() {
    for (s, f, t) in [
        ("aaa", "aa", "b"),
        ("com.example.Main", "com.example", "org.acme"),
        ("ab", "", "x"),
        ("", "a", "b"),
        ("no match here", "zzz", "y"),
    ] {
        assert_eq!(replace_literal(s, f, t), s.replace(f, t));
    }
}
