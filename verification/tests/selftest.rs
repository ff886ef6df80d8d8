use dsvideo_passthrough::headers::Header;
use dsvideo_passthrough::json::Json;
use dsvideo_passthrough::message::{Call, Outgoing};
use dsvideo_passthrough::proxy::{handle, opened_document, Action, Wait};
use dsvideo_passthrough::selftest::{
    check_stream, close_request, is_mp4, last_lines, login_params, login_sid, logout_params, open_params, post,
    proxied_stream, stream_request, summary,
};
use dsvideo_passthrough::streams::RawStreams;

fn body(out: &Outgoing) -> &str {
    std::str::from_utf8(&out.body).unwrap()
}

fn json(text: &str) -> Json {
    Json::parse(text.as_bytes()).ok().unwrap()
}

fn mp4() -> Vec<u8> {
    b"\x00\x00\x00\x20ftypisom".to_vec()
}

#[test]
fn logins_are_posted() {
    let out = post("http://nas:5000", &login_params("me", "p&w"));
    assert_eq!(out.method, "POST");
    assert_eq!(out.url, "http://nas:5000/webapi/entry.cgi");
    assert_eq!(out.headers[0].name, "content-type");
    assert_eq!(out.headers[0].value, b"application/x-www-form-urlencoded");
    assert_eq!(
        body(&out),
        "api=SYNO.API.Auth&version=6&method=login&account=me&passwd=p%26w&session=VideoStation&format=sid"
    );
    assert_eq!(
        body(&post("", &logout_params("S"))),
        "api=SYNO.API.Auth&version=6&method=logout&session=VideoStation&_sid=S"
    );
}

#[test]
fn the_proxy_watches_the_open() {
    let out = post("", &open_params(1234567890, "S"));
    assert_eq!(
        body(&out),
        "api=SYNO.VideoStation2.Streaming&version=1&method=open&file=%7B%22id%22%3A1234567890%7D&hls_remux=%7B%22device%22%3A%22tvos%22%2C%22force_open_vte%22%3Afalse%2C%22audio_track%22%3A1%2C%22profile%22%3A%22%22%7D&_sid=S"
    );
    let call = Call {
        method: out.method,
        path: "/webapi/entry.cgi".to_string(),
        query: String::new(),
        headers: out.headers,
        body: out.body,
    };
    let turn = handle(call, &mut RawStreams::new());
    match turn.action {
        Action::Buffer { wait: Wait::Open { file, .. }, .. } => {
            assert_eq!(file, "{\"id\":1234567890}");
        }
        _ => panic!("not watched"),
    }
}

#[test]
fn sessions_are_read() {
    assert_eq!(login_sid(&json(r#"{"data":{"sid":"S"}}"#)), Ok("S".to_string()));
    assert_eq!(
        login_sid(&json(r#"{"error":{"code":400}}"#)),
        Err("login failed: {\"code\":400}".to_string())
    );
}

#[test]
fn opens_are_summed_up() {
    assert_eq!(summary(&opened_document("x")), "ok, format \"hls_remux\"");
    assert_eq!(summary(&json(r#"{"error":{"code":1211},"success":false}"#)), "error {\"code\":1211}");
    assert_eq!(summary(&json("3")), "error null");
}

#[test]
fn handed_over_streams_are_found() {
    assert_eq!(proxied_stream(&opened_document("abc")), Ok("abc".to_string()));
    assert_eq!(
        proxied_stream(&json(r#"{"data":{}}"#)),
        Err("proxied open did not return a stream_id".to_string())
    );
}

#[test]
fn streams_are_fetched_and_closed() {
    let out = stream_request("http://p", "I", "S");
    assert_eq!(out.method, "GET");
    assert_eq!(
        out.url,
        "http://p/webapi/VideoStation/vtestreaming.cgi/DTV.mov?api=SYNO.VideoStation.Streaming&version=1&method=stream&id=I&format=hls_remux&_sid=S"
    );
    assert_eq!(out.headers[0].name, "range");
    assert_eq!(out.headers[0].value, b"bytes=0-1023");
    let out = close_request("http://p", "I", "S");
    assert_eq!(
        out.url,
        "http://p/webapi/VideoStation/vtestreaming.cgi?api=SYNO.VideoStation.Streaming&version=1&method=close&id=I&format=hls_remux&_sid=S"
    );
    assert!(out.headers.is_empty());
}

#[test]
fn mp4_files_are_known_by_their_first_box() {
    assert!(is_mp4(&mp4()));
    assert!(!is_mp4(&mp4()[..11]));
    assert!(!is_mp4(b"\x00\x00\x00\x20ftyqisom"));
    assert!(!is_mp4(b""));
}

#[test]
fn ranged_mp4_passes() {
    let headers = vec![
        Header { name: "content-type".to_string(), value: b"video/mp4".to_vec() },
        Header { name: "content-range".to_string(), value: b"bytes 0-11/99".to_vec() },
    ];
    let check = check_stream(206, &headers, &mp4());
    assert_eq!(
        check.line,
        "stream: 206 Partial Content, video/mp4, content-range bytes 0-11/99, 12 bytes, mp4 header: true"
    );
    assert_eq!(check.outcome, Ok(()));
}

#[test]
fn other_streams_fail() {
    let fail = Err("FAIL: stream is not a ranged MP4".to_string());
    let check = check_stream(200, &vec![], &mp4());
    assert_eq!(check.line, "stream: 200 OK, ?, content-range -, 12 bytes, mp4 header: true");
    assert_eq!(check.outcome, fail);
    let check = check_stream(206, &vec![], b"#EXTM3U");
    assert_eq!(
        check.line,
        "stream: 206 Partial Content, ?, content-range -, 7 bytes, mp4 header: false"
    );
    assert_eq!(check.outcome, fail);
}

#[test]
fn a_passing_check_ends_with_pass() {
    let check = check_stream(206, &vec![], b"\x00\x00\x00\x18ftypisom");
    assert_eq!(last_lines(check.outcome.is_ok()), ["logged out", "PASS"]);
    let check = check_stream(200, &vec![], b"");
    assert_eq!(last_lines(check.outcome.is_ok()), ["logged out"]);
}
