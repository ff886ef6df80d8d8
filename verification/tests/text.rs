use dsvideo_passthrough::text::{chars_of, contains, decimal, fold, same_text, starts_with, trim, trim_end};

#[test]
fn texts_are_compared() {
    assert!(same_text("", ""));
    assert!(same_text("h\u{e9}", "h\u{e9}"));
    assert!(!same_text("a", "b"));
    assert!(!same_text("a", "ab"));
    assert!(!same_text("\u{e9}", "\u{e8}"));
}

#[test]
fn prefixes_are_found() {
    assert!(starts_with("/webapi/x", "/webapi"));
    assert!(starts_with("/webapi", "/webapi"));
    assert!(starts_with("x", ""));
    assert!(!starts_with("/web", "/webapi"));
    assert!(!starts_with("/webapx", "/webapi"));
}

#[test]
fn parts_are_found() {
    assert!(contains("a/vtestreaming.cgi/1", "vtestreaming.cgi/"));
    assert!(contains("aab", "ab"));
    assert!(contains("", ""));
    assert!(contains("x", ""));
    assert!(!contains("vtestreaming.cgi", "vtestreaming.cgi/"));
    assert!(!contains("ab", "abc"));
}

#[test]
fn ends_are_trimmed() {
    assert_eq!(trim("--a-b--", '-'), "a-b");
    assert_eq!(trim("---", '-'), "");
    assert_eq!(trim_end("--a--", '-'), "--a");
    assert_eq!(trim_end("\u{e9}-", '-'), "\u{e9}");
}

#[test]
fn numbers_are_written() {
    assert_eq!(decimal(0), "0");
    assert_eq!(decimal(9), "9");
    assert_eq!(decimal(10), "10");
    assert_eq!(decimal(1048576), "1048576");
    assert_eq!(decimal(u64::MAX), "18446744073709551615");
}

#[test]
fn characters_are_listed() {
    assert_eq!(chars_of("a\u{e9}\u{1F600}"), vec!['a', '\u{e9}', '\u{1F600}']);
    assert!(chars_of("").is_empty());
}

#[test]
fn capitals_are_made_small() {
    assert_eq!(fold("Content-LENGTH @[Zz"), "content-length @[zz");
    assert_eq!(fold("\u{c9}"), "\u{c9}");
}
