use goki::text::{
    decimal_string, find_char, is_match_at, skip_chars, split, split_once_char, starts_with,
    str_equal,
};

#[test]
fn prefix_is_compared_character_by_character() {
    assert!(starts_with("spr:a", "spr:"));
    assert!(starts_with("spr:", "spr:"));
    assert!(starts_with("anything", ""));
    assert!(!starts_with("spr", "spr:"));
    assert!(!starts_with("sPr:a", "spr:"));
    assert!(!starts_with("", "a"));
    assert!(starts_with("\u{e9}t\u{e9}", "\u{e9}"));
}

#[test]
fn strings_are_equal_when_all_characters_are() {
    assert!(str_equal("deployer", "deployer"));
    assert!(str_equal("", ""));
    assert!(!str_equal("deployer", "deployers"));
    assert!(!str_equal("deployers", "deployer"));
    assert!(!str_equal("deployer", "Deployer"));
}

#[test]
fn first_occurrence_is_found() {
    assert_eq!(find_char("a@b@c", '@'), Some(1));
    assert_eq!(find_char("@", '@'), Some(0));
    assert_eq!(find_char("abc", '@'), None);
    assert_eq!(find_char("", '@'), None);
    assert_eq!(find_char("\u{e9}\u{e9}@", '@'), Some(2));
}

#[test]
fn split_once_cuts_at_the_first_occurrence() {
    assert_eq!(split_once_char("a@b@c", '@'), Some(("a", "b@c")));
    assert_eq!(split_once_char("@", '@'), Some(("", "")));
    assert_eq!(split_once_char("abc", '@'), None);
    assert_eq!(split_once_char("\u{e9}@\u{1F980}", '@'), Some(("\u{e9}", "\u{1F980}")));
}

#[test]
fn skip_counts_characters() {
    assert_eq!(skip_chars("spr:abc", 4), "abc");
    assert_eq!(skip_chars("\u{e9}\u{e9}x", 2), "x");
    assert_eq!(skip_chars("abc", 3), "");
    assert_eq!(skip_chars("abc", 0), "abc");
}

#[test]
fn match_is_told_at_each_position() {
    assert!(is_match_at("a\" \"b", "\" \"", 1));
    assert!(!is_match_at("a\" \"b", "\" \"", 0));
    assert!(!is_match_at("a\" \"b", "\" \"", 3));
    assert!(!is_match_at("ab", "b", 2));
    assert!(!is_match_at("ab", "b", usize::MAX));
    assert!(is_match_at("ab", "", 2));
}

#[test]
fn split_cuts_at_every_occurrence_from_the_left() {
    assert_eq!(split("a, b, c", ", "), vec!["a", "b", "c"]);
    assert_eq!(split("abc", ", "), vec!["abc"]);
    assert_eq!(split("", ", "), vec![""]);
    assert_eq!(split(", ", ", "), vec!["", ""]);
    assert_eq!(split("a, , b", ", "), vec!["a", "", "b"]);
    assert_eq!(split("aaa", "aa"), vec!["", "a"]);
    assert_eq!(split("xaaaax", "aa"), vec!["x", "", "x"]);
    assert_eq!(
        split("a\" \"b c\" \"d", "\" \""),
        "a\" \"b c\" \"d".split("\" \"").collect::<Vec<_>>()
    );
}

#[test]
fn numbers_are_written_in_decimal() {
    assert_eq!(decimal_string(0), "0");
    assert_eq!(decimal_string(7), "7");
    assert_eq!(decimal_string(10), "10");
    assert_eq!(decimal_string(1234567890), "1234567890");
    assert_eq!(decimal_string(u64::MAX), "18446744073709551615");
}

#[test]
fn strings_are_appended_in_order() {
    let mut v = vec!["a".to_string()];
    goki::text::push_str(&mut v, "b");
    goki::text::push_string(&mut v, "c".to_string());
    assert_eq!(v, vec!["a", "b", "c"]);
}
