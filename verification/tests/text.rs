use betfair_stream_proxy::text::{
    chars_of, first_after_blank, is_blank_text, split_text, split_text_once, str_eq, text_of,
    trim,
};

#[test]
fn trim_removes_white_space_at_both_ends_only() {
    assert_eq!(trim("  a b \t\n"), "a b");
    assert_eq!(trim("a"), "a");
    assert_eq!(trim(" \t "), "");
    assert_eq!(trim(""), "");
    assert_eq!(trim("\u{3000}\u{e9}t\u{e9}\u{2028}"), "\u{e9}t\u{e9}");
}

#[test]
fn blank_text_is_text_that_trims_to_nothing() {
    assert!(is_blank_text(""));
    assert!(is_blank_text(" \r\n\t"));
    assert!(!is_blank_text(" x "));
}

#[test]
fn chars_and_text_convert_both_ways() {
    let chars = chars_of("h\u{e9}llo");
    assert_eq!(chars, vec!['h', '\u{e9}', 'l', 'l', 'o']);
    assert_eq!(text_of(&chars, 1, 4), "\u{e9}ll");
    assert_eq!(text_of(&chars, 2, 2), "");
    assert_eq!(text_of(&chars, 0, 5), "h\u{e9}llo");
}

#[test]
fn str_eq_compares_contents() {
    assert!(str_eq("betting", "betting"));
    assert!(!str_eq("betting", "Betting"));
    assert!(!str_eq("betting", "bettin"));
    assert!(str_eq("", ""));
}

#[test]
fn split_gives_one_more_part_than_separators() {
    assert_eq!(split_text("a,b,,c", ','), vec!["a", "b", "", "c"]);
    assert_eq!(split_text("", ','), vec![""]);
    assert_eq!(split_text(",", ','), vec!["", ""]);
    assert_eq!(split_text("abc", ','), vec!["abc"]);
    assert_eq!(split_text("a&b=c&", '&'), vec!["a", "b=c", ""]);
}

#[test]
fn split_once_cuts_at_the_first_separator() {
    assert_eq!(split_text_once("a=b=c", '='), ("a".to_string(), "b=c".to_string()));
    assert_eq!(split_text_once("abc", '='), ("abc".to_string(), String::new()));
    assert_eq!(split_text_once("=x", '='), (String::new(), "x".to_string()));
    assert_eq!(split_text_once("x=", '='), ("x".to_string(), String::new()));
}

#[test]
fn first_after_blank_skips_leading_white_space() {
    assert_eq!(first_after_blank(" \n\t{\"a\":1}"), Some('{'));
    assert_eq!(first_after_blank("x "), Some('x'));
    assert_eq!(first_after_blank("   "), None);
    assert_eq!(first_after_blank(""), None);
}
