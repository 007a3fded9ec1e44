use paper_index::text;
use paper_index::text::{
    chars_of, concat3, trim, contains, ends_with, find_in, join, matches_at,
    push_decimal, replace_char, replace_text, str_eq, string_from, take_before,
};

fn numeral(n: u64) -> String {
    let mut s = String::new();
    push_decimal(&mut s, n);
    s
}

#[test]
fn decimal_writes_numerals() {
    assert_eq!(numeral(0), "0");
    assert_eq!(numeral(7), "7");
    assert_eq!(numeral(10), "10");
    assert_eq!(numeral(1234567890), "1234567890");
    assert_eq!(numeral(u64::MAX), "18446744073709551615");
    let mut s = "n=".to_string();
    push_decimal(&mut s, 42);
    assert_eq!(s, "n=42");
}

#[test]
fn concat_joins_in_order() {
    assert_eq!(text::concat("ab", "cd"), "abcd");
    assert_eq!(text::concat("", ""), "");
    assert_eq!(concat3("a", "", "c"), "ac");
    assert!(str_eq("é", "é"));
    assert!(!str_eq("a", "A"));
}

#[test]
fn chars_and_slices() {
    let chars = chars_of("héllo");
    assert_eq!(chars, vec!['h', 'é', 'l', 'l', 'o']);
    assert_eq!(string_from(&chars, 1, 3), "él");
    assert_eq!(string_from(&chars, 2, 2), "");
    assert_eq!(string_from(&chars, 0, 5), "héllo");
}

#[test]
fn find_gives_the_first_occurrence() {
    let text = chars_of("abcabc");
    let pattern = chars_of("bc");
    assert_eq!(find_in(&text, &pattern, 0), Some(1));
    assert_eq!(find_in(&text, &pattern, 2), Some(4));
    assert_eq!(find_in(&text, &pattern, 5), None);
    assert_eq!(find_in(&text, &chars_of("abcabcd"), 0), None);
    assert_eq!(find_in(&text, &chars_of(""), 6), Some(6));
    assert_eq!(find_in(&text, &chars_of(""), 7), None);
    assert!(matches_at(&text, &pattern, 4));
    assert!(!matches_at(&text, &pattern, 5));
    assert!(!matches_at(&text, &pattern, 0));
}

#[test]
fn contains_and_ends_with() {
    assert!(contains("operation timeout reached", "timeout"));
    assert!(!contains("time out", "timeout"));
    assert!(contains("abc", ""));
    assert!(!contains("", "a"));
    assert!(ends_with("arxiv:primary_category", "primary_category"));
    assert!(ends_with("primary_category", "primary_category"));
    assert!(!ends_with("primary_category2", "primary_category"));
    assert!(!ends_with("y", "primary_category"));
}

#[test]
fn take_before_stops_at_the_first_stop() {
    assert_eq!(take_before("2023-11-30T12:00:00Z", 'T'), "2023-11-30");
    assert_eq!(take_before("2311.18775v2", 'v'), "2311.18775");
    assert_eq!(take_before("novstop", 'x'), "novstop");
    assert_eq!(take_before("vv", 'v'), "");
    assert_eq!(take_before("", 'v'), "");
}

#[test]
fn replace_char_replaces_every_one() {
    assert_eq!(replace_char("a b  c", ' ', "+"), "a+b++c");
    assert_eq!(replace_char("line\nbreak\n", '\n', " "), "line break ");
    assert_eq!(replace_char("abc", 'x', "y"), "abc");
    assert_eq!(replace_char("aaa", 'a', ""), "");
    assert_eq!(replace_char("a", 'a', "aa"), "aa");
}

#[test]
fn replace_text_goes_left_to_right_without_overlap() {
    assert_eq!(replace_text("a  b", "  ", " "), "a b");
    assert_eq!(replace_text("a   b", "  ", " "), "a  b");
    assert_eq!(replace_text("a    b", "  ", " "), "a  b");
    assert_eq!(replace_text("aaa", "aa", "b"), "ba");
    assert_eq!(replace_text("abc", "abcd", "x"), "abc");
    assert_eq!(replace_text("", "ab", "x"), "");
    assert_eq!(replace_text("abc", "", "-"), "-a-b-c-");
    assert_eq!(replace_text("", "", "-"), "-");
    let spaced = "one  two   three";
    assert_eq!(replace_text(spaced, "  ", " "), spaced.replace("  ", " "));
}

#[test]
fn join_puts_the_separator_between() {
    let parts = vec!["John Doe".to_string(), "Jane Smith".to_string()];
    assert_eq!(join(&parts, ", "), "John Doe, Jane Smith");
    assert_eq!(join(&vec!["solo".to_string()], ", "), "solo");
    assert_eq!(join(&Vec::new(), ", "), "");
    assert_eq!(join(&vec!["".to_string(), "".to_string()], "-"), "-");
}

#[test]
fn trim_takes_white_space_off_both_ends() {
    assert_eq!(trim("  a b  "), "a b");
    assert_eq!(trim("a"), "a");
    assert_eq!(trim(""), "");
    assert_eq!(trim(" \t\r\n"), "");
    assert_eq!(trim("\u{2003}x\u{a0}y\u{3000}"), "x\u{a0}y");
    assert_eq!(trim("\u{200b}x"), "\u{200b}x");
    for sample in ["  lead", "trail \n", "\u{85}mid dle\u{2028}", "_ _", " \u{1680} "] {
        assert_eq!(trim(sample), sample.trim());
    }
}
