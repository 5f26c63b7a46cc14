//! The text helpers: search, split, replace, decimal numbers, extensions.

use daily_strip::text::ext_after_last_dot;
use daily_strip::text::find_sub;
use daily_strip::text::parse_usize;
use daily_strip::text::replace_all;
use daily_strip::text::split_once_str;
use daily_strip::text::str_eq;
use daily_strip::text::usize_to_string;

#[test]
fn find_first_occurrence() {
    assert_eq!(find_sub("abcabc", "ca"), Some(2));
    assert_eq!(find_sub("abcabc", "zz"), None);
    assert_eq!(find_sub("abc", ""), Some(0));
    assert_eq!(find_sub("", "a"), None);
}

#[test]
fn split_at_first_occurrence() {
    let (a, b) = split_once_str("one(comic) two", "(comic) ").unwrap();
    assert_eq!(a, "one");
    assert_eq!(b, "two");
    assert!(split_once_str("one", "x").is_none());
    let (a, b) = split_once_str("2-01.png", ".").unwrap();
    assert_eq!(a, "2-01");
    assert_eq!(b, "png");
}

#[test]
fn replace_every_occurrence() {
    assert_eq!(replace_all("a..b..c", "..", "-"), "a-b-c");
    assert_eq!(replace_all("thumbs/x/thumbs/y", "thumbs/", ""), "x/y");
    assert_eq!(replace_all("abc", "z", "q"), "abc");
    assert_eq!(replace_all("https://xkcd.com/5/", "https://xkcd.com", ""), "/5/");
}

#[test]
fn parse_decimal_numbers() {
    assert_eq!(parse_usize("0"), Some(0));
    assert_eq!(parse_usize("0123"), Some(123));
    assert_eq!(parse_usize("4000"), Some(4000));
    assert_eq!(parse_usize(""), None);
    assert_eq!(parse_usize("12a"), None);
    assert_eq!(parse_usize("-5"), None);
    assert_eq!(parse_usize("99999999999999999999999999"), None);
}

#[test]
fn write_decimal_numbers() {
    assert_eq!(usize_to_string(0), "0");
    assert_eq!(usize_to_string(7), "7");
    assert_eq!(usize_to_string(4000), "4000");
    assert_eq!(usize_to_string(120345), "120345");
}

#[test]
fn extension_after_last_dot() {
    assert_eq!(ext_after_last_dot("a.b.png"), "png");
    assert_eq!(ext_after_last_dot("nodot"), "nodot");
    assert_eq!(ext_after_last_dot("trailing."), "");
    assert_eq!(ext_after_last_dot(""), "");
}

#[test]
fn string_equality_by_characters() {
    assert!(str_eq("og:url", "og:url"));
    assert!(!str_eq("og:url", "og:image"));
    assert!(!str_eq("a", "ab"));
    assert!(str_eq("", ""));
}
