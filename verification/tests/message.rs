use std::io::Write;

use dsvideo_passthrough::headers::Header;
use dsvideo_passthrough::json::Json;
use dsvideo_passthrough::message::{
    bad_gateway, build_request, decode_json, payload_too_large, upstream_base, Buffered, Call,
    BODY_LIMIT,
};

fn list(entries: &[(&str, &str)]) -> Vec<Header> {
    entries
        .iter()
        .map(|(k, v)| Header { name: k.to_string(), value: v.as_bytes().to_vec() })
        .collect()
}

fn names(headers: &[Header]) -> Vec<&str> {
    headers.iter().map(|h| h.name.as_str()).collect()
}

fn gzip(bytes: &[u8]) -> Vec<u8> {
    let mut enc = flate2::write::GzEncoder::new(Vec::new(), flate2::Compression::default());
    enc.write_all(bytes).unwrap();
    enc.finish().unwrap()
}

fn call(path: &str, query: &str) -> Call {
    Call {
        method: "PUT".to_string(),
        path: path.to_string(),
        query: query.to_string(),
        headers: list(&[("host", "nas:5080"), ("connection", "close"), ("range", "bytes=0-9")]),
        body: b"body".to_vec(),
    }
}

#[test]
fn requests_are_addressed_to_the_upstream() {
    let out = build_request("http://nas:5000", call("/webapi/entry.cgi", "a=1&b=2"));
    assert_eq!(out.url, "http://nas:5000/webapi/entry.cgi?a=1&b=2");
    assert_eq!(out.method, "PUT");
    assert_eq!(out.body, b"body");
    assert_eq!(names(&out.headers), ["host", "range"]);
    assert_eq!(build_request("http://nas", call("/", "")).url, "http://nas/");
}

#[test]
fn upstream_base_has_no_slash_at_its_end() {
    assert_eq!(upstream_base("http://127.0.0.1:5000"), "http://127.0.0.1:5000");
    assert_eq!(upstream_base("http://nas///"), "http://nas");
    assert_eq!(upstream_base("///"), "");
    assert_eq!(upstream_base(""), "");
}

#[test]
fn answers_are_handed_on() {
    let answer = Buffered {
        status: 418,
        headers: list(&[("transfer-encoding", "chunked"), ("x", "1"), ("x", "2")]),
        body: b"tea".to_vec(),
    };
    let response = answer.into_response();
    assert_eq!(response.status, 418);
    assert_eq!(response.body, b"tea");
    assert_eq!(names(&response.headers), ["x", "x"]);
    assert_eq!(response.headers[1].value, b"2");
}

#[test]
fn failures_are_told_in_plain_text() {
    let response = bad_gateway("connection refused");
    assert_eq!(response.status, 502);
    assert_eq!(response.body, b"connection refused");
    assert_eq!(names(&response.headers), ["content-type"]);
    assert_eq!(response.headers[0].value, b"text/plain; charset=utf-8");
    let response = payload_too_large("length limit exceeded");
    assert_eq!(response.status, 413);
    assert_eq!(response.body, b"length limit exceeded");
    assert_eq!(BODY_LIMIT, 1 << 20);
}

#[test]
fn plain_documents_are_read() {
    let json = decode_json(&vec![], &b"{\"success\":true}".to_vec()).unwrap();
    assert!(json.member_is("success", true));
    assert!(decode_json(&vec![], &b"<html>".to_vec()).is_none());
    assert!(decode_json(&vec![], &vec![]).is_none());
}

#[test]
fn packed_documents_are_read() {
    let packed = gzip(b"{\"success\":false}");
    let headers = list(&[("content-encoding", "GZIP")]);
    assert!(decode_json(&headers, &packed).unwrap().member_is("success", false));
    assert!(decode_json(&vec![], &packed).is_none());
    assert!(decode_json(&list(&[("content-encoding", "br")]), &packed).is_none());
    assert!(decode_json(&headers, &b"{\"success\":false}".to_vec()).is_none());
    let capitals = list(&[("Content-Encoding", "gzip")]);
    assert!(decode_json(&capitals, &packed).unwrap().member_is("success", false));
    let broken = packed[..packed.len() - 4].to_vec();
    assert!(decode_json(&headers, &broken).is_none());
    assert!(decode_json(&headers, &gzip(b"no json")).is_none());
}

#[test]
fn documents_are_looked_into() {
    let text = br#"{"error":{"code":-7,"big":18446744073709551615,"f":1.5},"data":{"id":"x\n"},"l":[1]}"#;
    let json = Json::parse(text).unwrap();
    assert_eq!(json.integer_at("error", "code"), Some(-7));
    assert_eq!(json.integer_at("error", "big"), None);
    assert_eq!(json.integer_at("error", "f"), None);
    assert_eq!(json.integer_at("error", "none"), None);
    assert_eq!(json.integer_at("l", "0"), None);
    assert_eq!(json.string_at("data", "id").as_deref(), Some("x\n"));
    assert_eq!(json.string_at("error", "code"), None);
    assert!(!json.member_is("success", true));
    assert!(!json.member_is("success", false));
    assert_eq!(json.member_text("data"), r#"{"id":"x\n"}"#);
    assert_eq!(json.member_text("none"), "null");
    assert_eq!(json.text_at("error", "f"), "1.5");
    assert_eq!(json.text_at("l", "x"), "null");
}

#[test]
fn documents_that_are_none_say_why() {
    let message = Json::parse(b"{").err().unwrap();
    assert_eq!(message, "EOF while parsing an object at line 1 column 1");
}

#[test]
fn objects_keep_the_later_member() {
    let json = Json::object(vec![
        ("b".to_string(), Json::string("\"")),
        ("a".to_string(), Json::boolean(false)),
        ("a".to_string(), Json::boolean(true)),
    ]);
    assert_eq!(json.text(), r#"{"a":true,"b":"\""}"#);
    assert_eq!(Json::parse(json.text().as_bytes()).unwrap().text(), json.text());
}
