use aichat::text::{
    contains_sub, pad_right, replace_sub, split_char, str_eq, to_decimal, trim_spaces,
};

#[test]
fn replace_sub_basic() {
    assert_eq!(replace_sub("convert __ARG1__", "__ARG1__", "foo"), "convert foo");
    assert_eq!(replace_sub("a b a", "a", "x"), "x b x");
    assert_eq!(replace_sub("none here", "zzz", "x"), "none here");
    assert_eq!(replace_sub("", "a", "x"), "");
}

#[test]
fn replace_sub_leftmost_non_overlapping() {
    assert_eq!(replace_sub("aaa", "aa", "b"), "ba");
    assert_eq!(replace_sub("abab", "aba", "x"), "xb");
}

#[test]
fn contains_sub_basic() {
    assert!(contains_sub("say __INPUT__ now", "__INPUT__"));
    assert!(!contains_sub("say it now", "__INPUT__"));
    assert!(contains_sub("anything", ""));
}

#[test]
fn split_char_basic() {
    assert_eq!(split_char("a:b:c", ':'), vec!["a", "b", "c"]);
    assert_eq!(split_char("plain", ':'), vec!["plain"]);
    assert_eq!(split_char(":x:", ':'), vec!["", "x", ""]);
    assert_eq!(split_char("", ':'), vec![""]);
}

#[test]
fn trim_spaces_basic() {
    assert_eq!(trim_spaces("  hi there \n"), "hi there");
    assert_eq!(trim_spaces("\t\r\n "), "");
    assert_eq!(trim_spaces("solid"), "solid");
}

#[test]
fn pad_right_basic() {
    assert_eq!(pad_right("ab", 5), "ab   ");
    assert_eq!(pad_right("abcdef", 5), "abcdef");
}

#[test]
fn to_decimal_basic() {
    assert_eq!(to_decimal(0), "0");
    assert_eq!(to_decimal(7), "7");
    assert_eq!(to_decimal(120), "120");
    assert_eq!(to_decimal(98765), "98765");
}

#[test]
fn str_eq_basic() {
    assert!(str_eq("abc", "abc"));
    assert!(!str_eq("abc", "abd"));
    assert!(!str_eq("abc", "ab"));
    assert!(str_eq("", ""));
}
