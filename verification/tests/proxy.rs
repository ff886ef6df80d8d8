use dsvideo_passthrough::headers::Header;
use dsvideo_passthrough::json::Json;
use dsvideo_passthrough::message::{Buffered, Call, Response};
use dsvideo_passthrough::params::merged_params;
use dsvideo_passthrough::proxy::{
    finish_raw_open, handle, is_refusal, log_request, log_response, open_reply, opened_document,
    opened_id, raw_open_form, raw_params, resume, route, upstream_error, Action, Turn, Wait,
};
use dsvideo_passthrough::streams::RawStreams;

const FORM: &str = "application/x-www-form-urlencoded";
const OPEN: &[u8] = b"api=SYNO.VideoStation2.Streaming&version=1&method=open&file=%7B%22id%22%3A7%7D&hls_remux=%7B%7D&_sid=s";
const REFUSAL: &str = r#"{"error":{"code":1211},"success":false}"#;
const RAW_OK: &str = r#"{"data":{"format":"raw","stream_id":"abc123"},"success":true}"#;

fn header(name: &str, value: &str) -> Header {
    Header { name: name.to_string(), value: value.as_bytes().to_vec() }
}

fn get(path: &str, query: &str) -> Call {
    Call {
        method: "GET".to_string(),
        path: path.to_string(),
        query: query.to_string(),
        headers: vec![header("range", "bytes=0-1023")],
        body: vec![],
    }
}

fn post(path: &str, body: &[u8]) -> Call {
    Call {
        method: "POST".to_string(),
        path: path.to_string(),
        query: String::new(),
        headers: vec![header("content-type", FORM)],
        body: body.to_vec(),
    }
}

fn answer(body: &str) -> Buffered {
    Buffered {
        status: 200,
        headers: vec![header("content-type", "application/json"), header("connection", "close")],
        body: body.as_bytes().to_vec(),
    }
}

fn raw_with(ids: &[&str]) -> RawStreams {
    let mut raw = RawStreams::new();
    for id in ids {
        raw.insert(id.to_string());
    }
    raw
}

fn buffered(turn: Turn) -> (Call, Wait) {
    match turn.action {
        Action::Buffer { call, wait } => (call, wait),
        _ => panic!("no buffered call"),
    }
}

fn streamed(turn: Turn) -> Call {
    match turn.action {
        Action::Stream { call } => call,
        _ => panic!("no streamed call"),
    }
}

fn answered(turn: Turn) -> Response {
    match turn.action {
        Action::Answer { response } => response,
        _ => panic!("no answer"),
    }
}

fn document(text: &str) -> Option<Json> {
    Json::parse(text.as_bytes()).ok()
}

#[test]
fn refused_open_is_tried_again_as_raw() {
    let mut raw = RawStreams::new();
    let turn = handle(post("/webapi/entry.cgi", OPEN), &mut raw);
    assert_eq!(
        turn.log,
        ["POST /webapi/entry.cgi api=SYNO.VideoStation2.Streaming method=open format= id="]
    );
    let (call, wait) = buffered(turn);
    assert_eq!(call.body, OPEN);
    assert_eq!(call.path, "/webapi/entry.cgi");
    assert!(matches!(wait, Wait::Open { .. }));

    let turn = resume(wait, Ok(answer(REFUSAL)), &mut raw);
    assert_eq!(turn.log, ["   ↳ hls_remux refused (1211) for file {\"id\":7}; retrying as raw"]);
    let (call, wait) = buffered(turn);
    assert_eq!(call.method, "POST");
    assert_eq!(call.path, "/webapi/entry.cgi");
    assert_eq!(call.headers.len(), 1);
    let want: &[u8] = b"api=SYNO.VideoStation2.Streaming&version=1&method=open&file=%7B%22id%22%3A7%7D&_sid=s&raw=%7B%7D";
    assert_eq!(call.body, want);
    assert!(matches!(wait, Wait::RawOpen { .. }));
    assert!(!raw.contains("abc123"));

    let turn = resume(wait, Ok(answer(RAW_OK)), &mut raw);
    assert_eq!(
        turn.log,
        ["   ↳ raw open ok: stream_id abc123 ({\"format\":\"raw\",\"stream_id\":\"abc123\"})"]
    );
    let response = answered(turn);
    assert_eq!(response.status, 200);
    assert_eq!(response.headers.len(), 1);
    assert_eq!(response.headers[0].name, "content-type");
    assert_eq!(response.headers[0].value, b"application/json; charset=\"UTF-8\"");
    let want: &[u8] = br#"{"data":{"format":"hls_remux","stream_id":"abc123"},"success":true}"#;
    assert_eq!(response.body, want);
    assert!(raw.contains("abc123"));

    let turn = handle(
        get("/webapi/VideoStation/vtestreaming.cgi/DTV.mov", "method=stream&id=abc123&format=hls_remux"),
        &mut raw,
    );
    assert_eq!(turn.log.len(), 2);
    assert_eq!(turn.log[1], "   ↳ raw passthrough: stream abc123");
    let call = streamed(turn);
    assert_eq!(call.path, "/webapi/VideoStation/vtestreaming.cgi/1.mp4");
    assert_eq!(call.query, "method=stream&id=abc123&format=raw");
    assert_eq!(call.headers[0].value, b"bytes=0-1023");

    let turn = handle(
        get("/webapi/VideoStation/vtestreaming.cgi", "method=close&id=%22abc123%22"),
        &mut raw,
    );
    assert_eq!(turn.log[1], "   ↳ raw passthrough: close abc123");
    let (call, wait) = buffered(turn);
    assert_eq!(call.path, "/webapi/VideoStation/vtestreaming.cgi");
    assert_eq!(call.query, "method=close&id=%22abc123%22&format=raw");
    assert!(!raw.contains("abc123"));
    let turn = resume(wait, Ok(answer(r#"{"success":true}"#)), &mut raw);
    assert_eq!(turn.log, ["   ← 200 OK ok"]);
}

#[test]
fn remuxed_streams_pass_as_they_are() {
    let mut raw = RawStreams::new();
    for (text, outcome) in [
        (r#"{"data":{"stream_id":"x"},"success":true}"#, "ok"),
        (r#"{"error":{"code":1210},"success":false}"#, r#"error {"code":1210}"#),
        (r#"{"error":{"code":1211},"success":true}"#, "ok"),
        (r#"{"error":{"code":"1211"},"success":false}"#, r#"error {"code":"1211"}"#),
        (r#"{"error":{"code":1211}}"#, r#"error {"code":1211}"#),
        ("no json", "7 bytes, application/json"),
    ] {
        let (_, wait) = buffered(handle(post("/webapi/entry.cgi", OPEN), &mut raw));
        let turn = resume(wait, Ok(answer(text)), &mut raw);
        assert_eq!(turn.log, [format!("   ← 200 OK {outcome}")]);
        let response = answered(turn);
        assert_eq!(response.body, text.as_bytes());
        assert_eq!(response.headers.len(), 1);
        assert!(!raw.contains("x"));
    }
}

#[test]
fn refusal_stands_where_raw_fails_too() {
    for (text, line) in [
        (
            r#"{"error":{"code":100},"success":false}"#,
            Some(r#"   ↳ raw open failed too: {"error":{"code":100},"success":false}"#),
        ),
        (
            r#"{"data":{"stream_id":"y"},"success":false}"#,
            Some(r#"   ↳ raw open failed too: {"data":{"stream_id":"y"},"success":false}"#),
        ),
        (
            r#"{"data":{"stream_id":5},"success":true}"#,
            Some(r#"   ↳ raw open failed too: {"data":{"stream_id":5},"success":true}"#),
        ),
        ("<html>", Some("   ← 200 OK 6 bytes, application/json")),
    ] {
        let mut raw = RawStreams::new();
        let turn = resume(Wait::RawOpen { first: answer(REFUSAL) }, Ok(answer(text)), &mut raw);
        assert_eq!(turn.log.first().map(|l| l.as_str()), line);
        let response = answered(turn);
        assert_eq!(response.body, REFUSAL.as_bytes());
        assert_eq!(response.headers.len(), 1);
        assert!(!raw.contains("y"));
    }
}

#[test]
fn unreachable_upstream_is_a_bad_gateway() {
    let waits = [
        Wait::Api,
        Wait::Open { call: post("/webapi/entry.cgi", OPEN), file: "?".to_string() },
        Wait::RawOpen { first: answer(REFUSAL) },
    ];
    for wait in waits {
        let mut raw = raw_with(&["k"]);
        let turn = resume(wait, Err("refused".to_string()), &mut raw);
        assert_eq!(turn.log, ["   !! upstream error: refused"]);
        let response = answered(turn);
        assert_eq!(response.status, 502);
        assert_eq!(response.body, b"refused");
        assert!(raw.contains("k"));
    }
    assert_eq!(upstream_error("e"), "   !! upstream error: e");
}

#[test]
fn calls_of_the_interface_are_buffered_and_logged() {
    let mut raw = RawStreams::new();
    let turn = handle(get("/webapi/query.cgi", "api=SYNO.API.Info&method=query"), &mut raw);
    assert_eq!(turn.log, ["GET /webapi/query.cgi api=SYNO.API.Info method=query format= id="]);
    let (call, wait) = buffered(turn);
    assert_eq!(call.query, "api=SYNO.API.Info&method=query");
    let turn = resume(wait, Ok(answer(r#"{"success":true}"#)), &mut raw);
    assert_eq!(turn.log, ["   ← 200 OK ok"]);
    let response = answered(turn);
    assert_eq!(response.body, br#"{"success":true}"#);
    assert_eq!(response.headers.len(), 1);
}

#[test]
fn other_requests_are_streamed_unchanged() {
    let mut raw = raw_with(&["abc"]);
    for (path, query) in [
        ("/", ""),
        ("/webman/index.cgi", "x=1"),
        ("/webapi", ""),
        ("/webapi/VideoStation/vtestreaming.cgi/1.ts", "id=other&format=hls"),
        ("/webapi/VideoStation/poster.cgi", "method=stream"),
        ("/video", "id=abc&method=close"),
    ] {
        let turn = handle(get(path, query), &mut raw);
        let call = streamed(turn);
        assert_eq!(call.path, path);
        assert_eq!(call.query, query);
        assert!(raw.contains("abc"));
    }
}

#[test]
fn only_opens_with_remux_are_watched() {
    let mut raw = RawStreams::new();
    let form: &[u8] = b"api=SYNO.VideoStation2.Streaming&method=open&raw=%7B%7D";
    let (_, wait) = buffered(handle(post("/webapi/entry.cgi", form), &mut raw));
    assert!(matches!(wait, Wait::Api));
    let form: &[u8] = b"api=SYNO.VideoStation.Streaming&method=open&hls_remux=%7B%7D";
    let (_, wait) = buffered(handle(post("/webapi/entry.cgi", form), &mut raw));
    assert!(matches!(wait, Wait::Api));
    let form: &[u8] = b"api=SYNO.VideoStation2.Streaming&method=close&hls_remux=%7B%7D";
    let (_, wait) = buffered(handle(post("/webapi/entry.cgi", form), &mut raw));
    assert!(matches!(wait, Wait::Api));
    let mut plain = post("/webapi/entry.cgi", OPEN);
    plain.headers = vec![header("content-type", "text/plain")];
    let (_, wait) = buffered(handle(plain, &mut raw));
    assert!(matches!(wait, Wait::Api));
    let bare: &[u8] = b"api=SYNO.VideoStation2.Streaming&method=open&hls_remux";
    let (_, wait) = buffered(handle(post("/webapi/entry.cgi", bare), &mut raw));
    assert!(matches!(wait, Wait::Open { file, .. } if file == "?"));
}

#[test]
fn opens_are_watched_whatever_their_method_and_path() {
    let mut raw = RawStreams::new();
    let mut put = post("/webapi/entry.cgi", OPEN);
    put.method = "PUT".to_string();
    let (_, wait) = buffered(handle(put, &mut raw));
    assert!(matches!(wait, Wait::Open { .. }));
    let (_, wait) = buffered(handle(post("/webapi/other.cgi", OPEN), &mut raw));
    assert!(matches!(wait, Wait::Open { .. }));
}

#[test]
fn refused_get_is_tried_again_in_its_query() {
    let mut raw = RawStreams::new();
    let query = "api=SYNO.VideoStation2.Streaming&method=open&hls_remux=%7B%7D&file=7";
    let (call, wait) = buffered(handle(get("/webapi/entry.cgi", query), &mut raw));
    assert_eq!(call.query, query);
    let (call, wait) = buffered(resume(wait, Ok(answer(REFUSAL)), &mut raw));
    assert_eq!(call.method, "GET");
    assert_eq!(call.path, "/webapi/entry.cgi");
    assert_eq!(call.query, "api=SYNO.VideoStation2.Streaming&method=open&file=7&raw=%7B%7D");
    assert!(call.body.is_empty());
    answered(resume(wait, Ok(answer(RAW_OK)), &mut raw));
    assert!(raw.contains("abc123"));
}

#[test]
fn no_remux_is_left_in_the_retry() {
    let mut raw = RawStreams::new();
    let mut split = post("/webapi/entry.cgi", b"method=open&file=7");
    split.query = "api=SYNO.VideoStation2.Streaming&hls_remux=%7B%7D".to_string();
    let (_, wait) = buffered(handle(split, &mut raw));
    let (call, _) = buffered(resume(wait, Ok(answer(REFUSAL)), &mut raw));
    assert_eq!(call.query, "api=SYNO.VideoStation2.Streaming&raw=%7B%7D");
    assert_eq!(call.body, b"method=open&file=7&raw=%7B%7D");

    let mut both = post("/webapi/entry.cgi", OPEN);
    both.query = "x=1&hls_remux=2".to_string();
    both.method = "GET".to_string();
    let (_, wait) = buffered(handle(both, &mut raw));
    let (call, _) = buffered(resume(wait, Ok(answer(REFUSAL)), &mut raw));
    assert_eq!(call.query, "x=1&raw=%7B%7D");
    assert!(!String::from_utf8(call.body).unwrap().contains("hls_remux"));

    let mut kept = post("/webapi/entry.cgi", OPEN);
    kept.query = "a=%7e".to_string();
    let (_, wait) = buffered(handle(kept, &mut raw));
    let (call, _) = buffered(resume(wait, Ok(answer(REFUSAL)), &mut raw));
    assert_eq!(call.query, "a=%7e");
}

#[test]
fn posted_requests_carry_raw_in_their_body() {
    let mut raw = raw_with(&["abc"]);
    let turn = handle(
        post("/webapi/VideoStation/vtestreaming.cgi", b"id=abc&method=close&format=hls&n=\xff"),
        &mut raw,
    );
    let (call, _) = buffered(turn);
    assert_eq!(call.path, "/webapi/VideoStation/vtestreaming.cgi");
    assert_eq!(call.query, "");
    assert_eq!(call.body, b"id=abc&method=close&format=raw&n=%EF%BF%BD");
    assert!(!raw.contains("abc"));

    raw.insert("abc".to_string());
    let mut head = get("/webapi/VideoStation/vtestreaming.cgi/x", "id=abc&method=stream");
    head.method = "HEAD".to_string();
    head.body = b"kept".to_vec();
    let call = streamed(handle(head, &mut raw));
    assert_eq!(call.query, "id=abc&method=stream&format=raw");
    assert_eq!(call.body, b"kept");
}

#[test]
fn no_other_format_is_left_in_raw_requests() {
    let mut raw = raw_with(&["s1"]);
    let mut stream = post("/webapi/VideoStation/vtestreaming.cgi", b"");
    stream.query = "method=stream&id=s1&format=hls_remux".to_string();
    let call = streamed(handle(stream, &mut raw));
    assert_eq!(call.query, "method=stream&id=s1&format=raw");
    assert_eq!(call.body, b"format=raw");

    let mut fetch = post("/webapi/VideoStation/vtestreaming.cgi", b"format=hls&x=1");
    fetch.method = "GET".to_string();
    fetch.query = "method=stream&id=s1".to_string();
    let call = streamed(handle(fetch, &mut raw));
    assert_eq!(call.query, "method=stream&id=s1&format=raw");
    assert_eq!(call.body, b"format=raw&x=1");
}

#[test]
fn a_body_that_is_no_form_is_left_alone() {
    let mut raw = raw_with(&["s1"]);
    for method in ["GET", "HEAD"] {
        let mut fetch = get("/webapi/VideoStation/vtestreaming.cgi", "method=stream&id=s1");
        fetch.method = method.to_string();
        fetch.body = b"format=hls&x=1".to_vec();
        let call = streamed(handle(fetch, &mut raw));
        assert_eq!(call.query, "method=stream&id=s1&format=raw");
        assert_eq!(call.body, b"format=hls&x=1");
    }

    let query = "api=SYNO.VideoStation2.Streaming&method=open&hls_remux=%7B%7D";
    let mut open = get("/webapi/entry.cgi", query);
    open.body = b"hls_remux=1&x=1".to_vec();
    let (_, wait) = buffered(handle(open, &mut raw));
    let (call, _) = buffered(resume(wait, Ok(answer(REFUSAL)), &mut raw));
    assert_eq!(call.query, "api=SYNO.VideoStation2.Streaming&method=open&raw=%7B%7D");
    assert_eq!(call.body, b"hls_remux=1&x=1");
}

#[test]
fn other_methods_of_a_raw_stream_pass_unchanged() {
    let mut raw = raw_with(&["s1"]);
    for query in ["method=info&id=s1&format=hls_remux", "id=s1&format=hls_remux", "method=seek&id=s1"] {
        let turn = handle(get("/webapi/VideoStation/vtestreaming.cgi", query), &mut raw);
        assert_eq!(turn.log.len(), 1);
        let (call, wait) = buffered(turn);
        assert_eq!(call.path, "/webapi/VideoStation/vtestreaming.cgi");
        assert_eq!(call.query, query);
        assert!(matches!(wait, Wait::Api));
        assert!(raw.contains("s1"));
    }
}

#[test]
fn closing_forgets_no_other_stream() {
    let mut raw = raw_with(&["a", "b"]);
    handle(get("/webapi/VideoStation/vtestreaming.cgi", "method=close&id=a"), &mut raw);
    assert!(!raw.contains("a"));
    assert!(raw.contains("b"));
    let turn = handle(get("/webapi/VideoStation/vtestreaming.cgi", "method=close&id=a"), &mut raw);
    let (call, _) = buffered(turn);
    assert_eq!(call.query, "method=close&id=a");
    assert!(raw.contains("b"));
    raw.remove("b");
    assert!(!raw.contains("b"));
}

#[test]
fn route_goes_by_the_parameters_it_is_given() {
    let mut raw = raw_with(&["z"]);
    let params = vec![
        ("id".to_string(), "\"z\"".to_string()),
        ("method".to_string(), "stream".to_string()),
    ];
    let call = streamed(route(get("/webapi/VideoStation/vtestreaming.cgi", "q"), &params, &mut raw));
    assert_eq!(call.query, "q=&format=raw");
    let (call, _) = buffered(route(get("/webapi/VideoStation/vtestreaming.cgi", "q"), &vec![], &mut raw));
    assert_eq!(call.query, "q");
}

#[test]
fn requests_are_logged() {
    let line = |call: &Call| log_request(call, &merged_params(&call.query, &call.headers, &call.body));
    assert_eq!(
        line(&get("/webapi/VideoStation/vtestreaming.cgi/1.ts", "method=stream&format=hls&id=%22i%22&fragment_id=%223%22")).as_deref(),
        Some("GET /webapi/VideoStation/vtestreaming.cgi/1.ts api= method=stream format=hls id=i frag=3")
    );
    assert_eq!(line(&get("/favicon.ico", "")), None);
    assert_eq!(line(&get("/x", "api=A")).as_deref(), Some("GET /x api=A method= format= id="));
}

#[test]
fn answers_are_logged() {
    let ok = answer("12345");
    assert_eq!(log_response(&ok, &document(r#"{"success":true}"#)), "   ← 200 OK ok");
    assert_eq!(
        log_response(&ok, &document(r#"{"success":false,"error":{"code":105}}"#)),
        "   ← 200 OK error {\"code\":105}"
    );
    assert_eq!(log_response(&ok, &document("[]")), "   ← 200 OK error null");
    assert_eq!(log_response(&ok, &None), "   ← 200 OK 5 bytes, application/json");
    let odd = Buffered { status: 799, headers: vec![], body: vec![0; 10] };
    assert_eq!(log_response(&odd, &None), "   ← 799 <unknown status code> 10 bytes, ?");
}

#[test]
fn refusals_are_told_from_other_answers() {
    assert!(is_refusal(&document(REFUSAL)));
    assert!(!is_refusal(&document(RAW_OK)));
    assert!(!is_refusal(&document(r#"{"error":{"code":1211.0},"success":false}"#)));
    assert!(!is_refusal(&None));
    assert_eq!(opened_id(&document(RAW_OK)).as_deref(), Some("abc123"));
    assert_eq!(opened_id(&document(REFUSAL)), None);
    assert_eq!(opened_id(&None), None);
}

#[test]
fn raw_forms_keep_the_other_parameters() {
    assert_eq!(raw_open_form(b"a=1&hls_remux=x&b=2&hls_remux=y"), "a=1&b=2&raw=%7B%7D");
    assert_eq!(raw_open_form(b""), "raw=%7B%7D");
    let params = vec![("hls_remux".to_string(), "x".to_string()), ("raw".to_string(), "1".to_string())];
    assert_eq!(
        raw_params(&params),
        vec![("raw".to_string(), "1".to_string()), ("raw".to_string(), "{}".to_string())]
    );
}

#[test]
fn handed_over_ids_read_back() {
    for id in ["abc", "", "a\"b\\c\n\u{1F600}\u{1}"] {
        let response = open_reply(id);
        let json = Json::parse(&response.body).unwrap();
        assert!(json.member_is("success", true));
        assert_eq!(json.string_at("data", "stream_id").as_deref(), Some(id));
        assert_eq!(json.string_at("data", "format").as_deref(), Some("hls_remux"));
        assert_eq!(json.text(), opened_document(id).text());
    }
}

#[test]
fn second_answers_finish_the_open() {
    let mut raw = RawStreams::new();
    let turn = finish_raw_open(answer(REFUSAL), &answer(RAW_OK), &document(RAW_OK), &mut raw);
    assert_eq!(answered(turn).status, 200);
    assert!(raw.contains("abc123"));
}
