use dsvideo_passthrough::headers::{
    content_length, copy_headers, header, header_text, hop_by_hop, says, visible_text, Header,
};
use dsvideo_passthrough::message::streamed_headers;

fn list(entries: &[(&str, &str)]) -> Vec<Header> {
    entries
        .iter()
        .map(|(k, v)| Header { name: k.to_string(), value: v.as_bytes().to_vec() })
        .collect()
}

fn shown(headers: &[Header]) -> Vec<(String, String)> {
    headers
        .iter()
        .map(|h| (h.name.clone(), String::from_utf8(h.value.clone()).unwrap()))
        .collect()
}

fn handed_on(from: &Vec<Header>) -> Vec<Header> {
    let mut to = Vec::new();
    copy_headers(from, &mut to);
    to
}

#[test]
fn connection_headers_are_left_out() {
    for name in [
        "connection",
        "keep-alive",
        "proxy-authenticate",
        "proxy-authorization",
        "te",
        "trailer",
        "transfer-encoding",
        "upgrade",
        "content-length",
    ] {
        assert!(hop_by_hop(name));
        assert!(handed_on(&list(&[(name, "x")])).is_empty());
    }
    for name in ["Connection", "TE", "Transfer-Encoding"] {
        assert!(hop_by_hop(name));
        assert!(handed_on(&list(&[(name, "x")])).is_empty());
    }
    for name in ["host", "range", "Host", "cookie", "content-type", "content-range", "tea", ""] {
        assert!(!hop_by_hop(name));
        assert_eq!(handed_on(&list(&[(name, "x")])).len(), 1);
    }
}

#[test]
fn other_headers_keep_their_order() {
    let from = list(&[
        ("host", "nas"),
        ("cookie", "a"),
        ("connection", "close"),
        ("range", "bytes=0-1"),
        ("cookie", "b"),
    ]);
    let mut to = list(&[("x", "y")]);
    copy_headers(&from, &mut to);
    let want = shown(&list(&[
        ("x", "y"),
        ("host", "nas"),
        ("cookie", "a"),
        ("range", "bytes=0-1"),
        ("cookie", "b"),
    ]));
    assert_eq!(shown(&to), want);
    assert_eq!(shown(&handed_on(&to)), want);
}

#[test]
fn header_is_the_first_of_its_name() {
    let all = list(&[("a", "1"), ("b", "2"), ("a", "3")]);
    assert_eq!(header(&all, "a"), Some(&b"1"[..]));
    assert_eq!(header(&all, "c"), None);
    assert_eq!(header(&list(&[("Content-Type", "x")]), "content-type"), Some(&b"x"[..]));
    assert_eq!(header_text(&all, "b", "?"), "2");
    assert_eq!(header_text(&all, "c", "?"), "?");
    assert_eq!(header_text(&list(&[("a", "\u{7f}")]), "a", "?"), "?");
}

#[test]
fn visible_text_takes_printable_ascii() {
    assert_eq!(visible_text(b"a b\t~").as_deref(), Some("a b\t~"));
    assert_eq!(visible_text(b"").as_deref(), Some(""));
    assert_eq!(visible_text(b"a\x7f"), None);
    assert_eq!(visible_text(b"a\n"), None);
    assert_eq!(visible_text("\u{e9}".as_bytes()), None);
}

#[test]
fn says_ignores_capitals() {
    assert!(says(b"gzip", "gzip"));
    assert!(says(b"GZip", "gzip"));
    assert!(!says(b"gzip ", "gzip"));
    assert!(!says(b"", "gzip"));
    assert!(!says(b"g\x5aip\xff", "gzip"));
}

#[test]
fn content_length_is_decimal() {
    assert_eq!(content_length(0).value, b"0");
    assert_eq!(content_length(1024).value, b"1024");
    assert_eq!(content_length(u64::MAX).value, b"18446744073709551615");
    assert_eq!(content_length(7).name, "content-length");
}

#[test]
fn streamed_answers_tell_their_length() {
    let upstream = list(&[("content-length", "1"), ("content-type", "video/mp4")]);
    assert_eq!(
        shown(&streamed_headers(&upstream, Some(1024))),
        shown(&list(&[("content-type", "video/mp4"), ("content-length", "1024")]))
    );
    assert_eq!(
        shown(&streamed_headers(&upstream, None)),
        shown(&list(&[("content-type", "video/mp4")]))
    );
}
