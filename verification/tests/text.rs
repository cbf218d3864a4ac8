use alfred::text::{cat, contains, contains_word, failure, is_blank, is_whitespace, join, replace, str_eq_ignore_ascii_case, trim, u64_to_string};

#[test]
fn trim_removes_unicode_white_space_at_both_ends() {
    assert_eq!(trim("  \t hello world \n"), "hello world");
    assert_eq!(trim("\u{a0}\u{3000}x\u{2028}"), "x");
    assert_eq!(trim("   "), "");
    assert_eq!(trim(""), "");
    assert_eq!(trim(&trim("  a  ")), trim("  a  "));
    assert!(is_blank(" \n\t"));
    assert!(!is_blank(" a "));
    assert!(is_whitespace('\u{85}'));
    assert!(!is_whitespace('\u{200b}'));
}

#[test]
fn substring_search_and_replacement() {
    assert!(contains("hello world", "o w"));
    assert!(contains("abc", ""));
    assert!(!contains("abc", "abcd"));
    assert_eq!(replace("a-b-c", "-", "+"), "a+b+c");
    assert_eq!(replace("aaa", "aa", "b"), "ba");
    assert_eq!(replace("xyz", "q", "r"), "xyz");
}

#[test]
fn decimal_joins_and_formats() {
    assert_eq!(u64_to_string(0), "0");
    assert_eq!(u64_to_string(3600), "3600");
    assert_eq!(u64_to_string(u64::MAX), "18446744073709551615");
    assert_eq!(join(&vec!["a".to_string(), "b".to_string(), "c".to_string()], ", "), "a, b, c");
    assert_eq!(join(&vec![], "-"), "");
    assert_eq!(cat("ab", "cd"), "abcd");
    assert_eq!(failure("Erreur Gmail", "404 Not Found", "gone"), "Erreur Gmail (404 Not Found): gone");
    assert!(str_eq_ignore_ascii_case("RaS", "ras"));
    assert!(!str_eq_ignore_ascii_case("ràs", "RÀS"));
}

#[test]
fn whole_words_in_any_ascii_case() {
    assert!(contains_word("RAS", "ras"));
    assert!(contains_word("Ras.", "ras"));
    assert!(contains_word("ok - ras_", "ras") == false);
    assert!(contains_word("x ras y", "ras"));
    assert!(!contains_word("bras", "ras"));
    assert!(!contains_word("rase", "ras"));
    assert!(!contains_word("", "ras"));
    assert!(!contains_word("ra", "ras"));
}
