// Text helpers on concrete values.

use garry::utils::text;
use garry::utils::text::{before_char, chars_of, clone_texts, contains, decimal_string, has_char};
use garry::utils::text::{same_text, skip_chars, starts_with};

fn texts(items: &[&str]) -> Vec<String> {
    items.iter().map(|s| s.to_string()).collect()
}

#[test]
fn chars_come_out_in_order() {
    assert_eq!(chars_of("añ✅"), vec!['a', 'ñ', '✅']);
    assert_eq!(chars_of(""), Vec::<char>::new());
}

#[test]
fn contains_finds_a_needle_anywhere() {
    assert!(contains("feature..test", ".."));
    assert!(contains("..x", ".."));
    assert!(contains("x..", ".."));
    assert!(!contains("f.e.a.t", ".."));
    assert!(!contains(".", ".."));
    assert!(contains("abc", ""));
    assert!(contains("", ""));
    assert!(!contains("", "a"));
    assert!(contains("aab", "ab"));
}

#[test]
fn starts_with_looks_at_the_front_only() {
    assert!(starts_with("Merge failed: x", "Merge failed: "));
    assert!(!starts_with("x Merge failed: ", "Merge failed: "));
    assert!(!starts_with("Merge", "Merge failed: "));
    assert!(starts_with("abc", ""));
}

#[test]
fn same_text_compares_character_by_character() {
    assert!(same_text("github.com", "github.com"));
    assert!(!same_text("github.com", "github.co"));
    assert!(!same_text("github.com", "github.org"));
    assert!(same_text("", ""));
}

#[test]
fn has_char_and_before_char_agree() {
    assert!(has_char("owner/repo", '/'));
    assert!(!has_char("owner", '/'));
    assert_eq!(before_char("owner/repo/x", '/'), "owner");
    assert_eq!(before_char("owner", '/'), "owner");
    assert_eq!(before_char("/repo", '/'), "");
    assert_eq!(before_char("", '/'), "");
}

#[test]
fn skip_chars_counts_characters_not_bytes() {
    assert_eq!(skip_chars("ñandú", 1), "andú");
    assert_eq!(skip_chars("abc", 3), "");
    assert_eq!(skip_chars("abc", 0), "abc");
}

#[test]
fn concat_puts_texts_in_a_row() {
    assert_eq!(text::concat("a", "b"), "ab");
    assert_eq!(text::concat3("a", "", "c"), "ac");
}

#[test]
fn join_puts_the_separator_between_neighbours_only() {
    assert_eq!(text::join(&texts(&[]), ", "), "");
    assert_eq!(text::join(&texts(&["a"]), ", "), "a");
    assert_eq!(text::join(&texts(&["a", "b", "c"]), ", "), "a, b, c");
    assert_eq!(text::join(&texts(&["", ""]), "-"), "-");
}

#[test]
fn decimal_string_writes_base_ten() {
    assert_eq!(decimal_string(0), "0");
    assert_eq!(decimal_string(7), "7");
    assert_eq!(decimal_string(10), "10");
    assert_eq!(decimal_string(1234567890), "1234567890");
    assert_eq!(decimal_string(u64::MAX as u128), "18446744073709551615");
    assert_eq!(decimal_string(u128::MAX), u128::MAX.to_string());
}

#[test]
fn clone_texts_copies_every_text() {
    let items = texts(&["a", "", "c"]);
    assert_eq!(clone_texts(&items), items);
}
