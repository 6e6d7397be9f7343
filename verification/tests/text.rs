use rbmt::order::{chars_in_order, sort_texts};
use rbmt::text::{
    char_is_digit, char_is_space, chars_of, decimal, join2, join3, join_with, list_contains,
    split_lines, text_contains, text_eq, trim,
};

fn names(list: &[&str]) -> Vec<String> {
    list.iter().map(|name| name.to_string()).collect()
}

#[test]
fn chars_are_read_in_order() {
    assert_eq!(chars_of("a-ß✓"), vec!['a', '-', 'ß', '✓']);
    assert!(chars_of("").is_empty());
}

#[test]
fn texts_are_joined() {
    assert_eq!(join2("ab", "cd"), "abcd");
    assert_eq!(join3("a", "", "c"), "ac");
    assert_eq!(join_with(&names(&["a", "b", "c"]), ", "), "a, b, c");
    assert_eq!(join_with(&names(&["a"]), ", "), "a");
    assert_eq!(join_with(&names(&[]), ", "), "");
    assert_eq!(join_with(&names(&["", ""]), "-"), "-");
}

#[test]
fn text_equality_and_membership() {
    assert!(text_eq("quiet", "quiet"));
    assert!(!text_eq("quiet", "Quiet"));
    assert!(!text_eq("quiet", "quiet "));
    assert!(list_contains(&names(&["a", "b"]), &"b".to_string()));
    assert!(!list_contains(&names(&["a", "b"]), &"c".to_string()));
}

#[test]
fn digits_and_white_space() {
    for c in "0123456789".chars() {
        assert!(char_is_digit(c));
    }
    for c in "/:a٣ ".chars() {
        assert!(!char_is_digit(c));
    }
    for c in '\0'..='\u{3100}' {
        assert_eq!(char_is_space(c), c.is_whitespace(), "{:?}", c);
    }
}

#[test]
fn substring_search() {
    assert!(text_contains("rustc 1.75.0-nightly", "nightly"));
    assert!(text_contains("nightly", "nightly"));
    assert!(!text_contains("nightl", "nightly"));
    assert!(text_contains("anything", ""));
    assert!(text_contains("", ""));
    assert!(!text_contains("", "a"));
    assert!(text_contains("aab", "ab"));
}

#[test]
fn trim_removes_white_space_at_both_ends() {
    assert_eq!(trim("  a b \t\n"), "a b");
    assert_eq!(trim("a"), "a");
    assert_eq!(trim(" \u{a0}\u{3000}"), "");
    assert_eq!(trim(""), "");
    assert_eq!(trim("\u{2003}x\u{2003}y"), "x\u{2003}y");
}

#[test]
fn numbers_are_written_in_decimal() {
    assert_eq!(decimal(0), "0");
    assert_eq!(decimal(7), "7");
    assert_eq!(decimal(10), "10");
    assert_eq!(decimal(1203), "1203");
    assert_eq!(decimal(usize::MAX), usize::MAX.to_string());
}

#[test]
fn lines_end_at_line_feeds() {
    assert_eq!(split_lines("a\nb\r\nc"), vec!["a", "b", "c"]);
    assert_eq!(split_lines("a\n"), vec!["a"]);
    assert_eq!(split_lines("a\n\nb\n"), vec!["a", "", "b"]);
    assert_eq!(split_lines("\n"), vec![""]);
    assert_eq!(split_lines("\r\n"), vec![""]);
    assert!(split_lines("").is_empty());
    assert_eq!(split_lines("a\rb"), vec!["a\rb"]);
    assert_eq!(split_lines("a\r"), vec!["a\r"]);
    assert_eq!(split_lines("a\r\r\n"), vec!["a\r"]);
    for text in ["", "x", "x\n", "\n\n", "a\r\nb\n\r\n", "\r", "a\n\rb", "last\r\n"] {
        let expected: Vec<&str> = text.lines().collect();
        assert_eq!(split_lines(text), expected, "{:?}", text);
    }
}

#[test]
fn alphabetical_order() {
    let le = |a: &str, b: &str| chars_in_order(&chars_of(a), &chars_of(b));
    assert!(le("", ""));
    assert!(le("", "a"));
    assert!(!le("a", ""));
    assert!(le("a", "a"));
    assert!(le("a", "ab"));
    assert!(!le("ab", "a"));
    assert!(le("ab", "b"));
    assert!(le("B", "a"));
    assert!(le("z", "ß"));
}

#[test]
fn sorting_keeps_every_text() {
    assert_eq!(
        sort_texts(&names(&["pear", "apple", "fig", "apple", "Fig", "", "figs"])),
        vec!["", "Fig", "apple", "apple", "fig", "figs", "pear"]
    );
    assert!(sort_texts(&names(&[])).is_empty());
    let mut expected = names(&["29_0", "28_2", "27_2", "0_17_2", "ß", "a-b", "a_b"]);
    let sorted = sort_texts(&expected);
    expected.sort();
    assert_eq!(sorted, expected);
}
