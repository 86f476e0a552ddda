use rust_plugin::text::{
    any_line_has_prefix, chars_of, contains, contains_char, has_prefix, has_suffix, matches_at,
    same_text,
};

#[test]
fn characters_in_order() {
    assert_eq!(chars_of("a-\u{e9}z"), vec!['a', '-', '\u{e9}', 'z']);
    assert_eq!(chars_of(""), Vec::<char>::new());
}

#[test]
fn pattern_at_a_position() {
    let text = chars_of("nightly-2024");
    assert!(matches_at(&text, 0, &chars_of("nightly")));
    assert!(matches_at(&text, 8, &chars_of("2024")));
    assert!(matches_at(&text, 12, &chars_of("")));
    assert!(!matches_at(&text, 13, &chars_of("")));
    assert!(!matches_at(&text, 9, &chars_of("2024")));
    assert!(!matches_at(&text, 1, &chars_of("nightly")));
    assert!(!matches_at(&text, usize::MAX, &chars_of("n")));
}

#[test]
fn prefixes_and_suffixes() {
    assert!(has_prefix("release-1.0", "release-"));
    assert!(has_prefix("abc", ""));
    assert!(has_prefix("", ""));
    assert!(!has_prefix("rel", "release-"));
    assert!(!has_prefix("xrelease-", "release-"));
    assert!(has_suffix("1.70.0-x86_64", "x86_64"));
    assert!(has_suffix("abc", ""));
    assert!(has_suffix("abc", "abc"));
    assert!(!has_suffix("bc", "abc"));
    assert!(!has_suffix("abcd", "abc"));
}

#[test]
fn equal_texts() {
    assert!(same_text("rust-toolchain", "rust-toolchain"));
    assert!(same_text("", ""));
    assert!(!same_text("rust-toolchain", "rust-toolchain.toml"));
    assert!(!same_text("abc", "abd"));
}

#[test]
fn substrings() {
    assert!(contains("musl libc (x86_64)", "musl"));
    assert!(contains("libc musl", "musl"));
    assert!(contains("musl", "musl"));
    assert!(contains("abc", ""));
    assert!(contains("", ""));
    assert!(!contains("mus", "musl"));
    assert!(!contains("m-u-s-l", "musl"));
    assert!(!contains("", "musl"));
    assert!(contains_char("a|b", '|'));
    assert!(!contains_char("ab", '|'));
    assert!(!contains_char("", '|'));
}

#[test]
fn lines_end_at_line_feeds() {
    assert!(any_line_has_prefix("one\ntwo\nthree", "two"));
    assert!(any_line_has_prefix("one\ntwo\nthree", "three"));
    assert!(any_line_has_prefix("one\r\ntwo\r\n", "two"));
    assert!(!any_line_has_prefix("one\ntwo", "wo"));
    assert!(!any_line_has_prefix("one\ntwo", "one\n"));
    assert!(!any_line_has_prefix("one\r\ntwo", "one\r"));
    assert!(any_line_has_prefix("one\r", "one\r"));
    assert!(any_line_has_prefix("\n", ""));
    assert!(!any_line_has_prefix("", ""));
}
