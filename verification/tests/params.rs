use dsvideo_passthrough::headers::Header;
use dsvideo_passthrough::params::{is_form, leave_out, merged_params, param, replace_param, set_param, unquote};

fn pairs(list: &[(&str, &str)]) -> Vec<(String, String)> {
    list.iter().map(|(k, v)| (k.to_string(), v.to_string())).collect()
}

fn form_headers(kind: &[u8]) -> Vec<Header> {
    vec![Header { name: "content-type".to_string(), value: kind.to_vec() }]
}

#[test]
fn param_is_the_first_of_its_name() {
    let list = pairs(&[("a", "1"), ("b", "2"), ("a", "3"), ("", "empty")]);
    assert_eq!(param(&list, "a"), Some("1"));
    assert_eq!(param(&list, "b"), Some("2"));
    assert_eq!(param(&list, ""), Some("empty"));
    assert_eq!(param(&list, "c"), None);
    assert_eq!(param(&[], "a"), None);
}

#[test]
fn unquote_takes_marks_off_both_ends() {
    assert_eq!(unquote("\"abc\""), "abc");
    assert_eq!(unquote("abc"), "abc");
    assert_eq!(unquote("\"\"a\"b\"\"\""), "a\"b");
    assert_eq!(unquote("\"\"\""), "");
    assert_eq!(unquote(""), "");
    assert_eq!(unquote("\"é"), "é");
    assert_eq!(unquote(unquote("\"x\"")), "x");
}

#[test]
fn set_param_replaces_every_value() {
    assert_eq!(set_param("a=1&format=hls_remux&b=2", "format", "raw"), "a=1&format=raw&b=2");
    assert_eq!(set_param("format=a&x=&format=b", "format", "raw"), "format=raw&x=&format=raw");
}

#[test]
fn set_param_adds_what_is_missing() {
    assert_eq!(set_param("", "format", "raw"), "format=raw");
    assert_eq!(set_param("a=1", "format", "raw"), "a=1&format=raw");
}

#[test]
fn set_param_reads_and_writes_the_encoding() {
    assert_eq!(set_param("id=%22x+y%22&&flag", "format", "r&w"), "id=%22x+y%22&flag=&format=r%26w");
    assert_eq!(set_param("n=\u{e9}", "k", "v"), "n=%C3%A9&k=v");
}

#[test]
fn forms_escape_all_but_letters_digits_and_four_marks() {
    let kept = "*-.0123456789ABCXYZ_abcxyz";
    assert_eq!(set_param("", kept, kept), format!("{kept}={kept}"));
    assert_eq!(set_param("", " !\"#$%&'()", "+,/:;<=>?@"), "+%21%22%23%24%25%26%27%28%29=%2B%2C%2F%3A%3B%3C%3D%3E%3F%40");
    assert_eq!(set_param("", "[\\]^`", "{|}~\u{7f}\n"), "%5B%5C%5D%5E%60=%7B%7C%7D%7E%7F%0A");
    assert_eq!(set_param("", "", ""), "=");
    assert_eq!(set_param("=", "\u{1f600}", "\0"), "=&%F0%9F%98%80=%00");
}

#[test]
fn forms_are_announced_by_the_content_type() {
    assert!(is_form(&form_headers(b"application/x-www-form-urlencoded")));
    assert!(is_form(&form_headers(b"application/x-www-form-urlencoded; charset=UTF-8")));
    assert!(!is_form(&form_headers(b"application/json")));
    assert!(!is_form(&form_headers(b"application/x-www-form-urlencoded\xff")));
    assert!(!is_form(&vec![]));
}

#[test]
fn set_param_again_keeps_the_later_value() {
    let once = set_param("a=1", "format", "raw");
    assert_eq!(set_param(&once, "format", "raw"), once);
    assert_eq!(set_param(&once, "format", "hls"), "a=1&format=hls");
    assert_eq!(set_param(&once, "format", "hls"), set_param("a=1", "format", "hls"));
}

#[test]
fn replace_param_keeps_the_others() {
    let list = pairs(&[("a", "1"), ("k", "x"), ("b", "2"), ("k", "y")]);
    assert_eq!(replace_param(&list, "k", "z"), pairs(&[("a", "1"), ("k", "z"), ("b", "2"), ("k", "z")]));
    assert_eq!(replace_param(&list, "c", "z").len(), 5);
    assert_eq!(param(&replace_param(&list, "c", "z"), "c"), Some("z"));
}

#[test]
fn leave_out_keeps_the_order() {
    let list = pairs(&[("a", "1"), ("k", "x"), ("b", "2"), ("k", "y")]);
    assert_eq!(leave_out(&list, "k"), pairs(&[("a", "1"), ("b", "2")]));
    assert_eq!(leave_out(&list, "c"), list);
}

#[test]
fn merged_params_reads_the_query_first() {
    let headers = form_headers(b"application/x-www-form-urlencoded; charset=UTF-8");
    let merged = merged_params("a=1&b=%20", &headers, b"a=2&c=3");
    assert_eq!(merged, pairs(&[("a", "1"), ("b", " "), ("a", "2"), ("c", "3")]));
}

#[test]
fn merged_params_reads_only_announced_forms() {
    let query_only = pairs(&[("a", "1")]);
    assert_eq!(merged_params("a=1", &form_headers(b"application/json"), b"b=2"), query_only);
    assert_eq!(merged_params("a=1", &vec![], b"b=2"), query_only);
    let unreadable = form_headers(b"application/x-www-form-urlencoded\xff");
    assert_eq!(merged_params("a=1", &unreadable, b"b=2"), query_only);
    let mut two = form_headers(b"text/plain");
    two.extend(form_headers(b"application/x-www-form-urlencoded"));
    assert_eq!(merged_params("a=1", &two, b"b=2"), query_only);
}
