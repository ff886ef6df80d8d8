//! The end-to-end check of the passthrough: it plays the part of the player.
//!
//! It logs in, opens a file with `hls_remux` directly and through the proxy, and fetches the
//! first bytes of the stream, which must be a ranged MP4.

use crate::headers;
use crate::headers::Header;
use crate::json;
use crate::json::Json;
use crate::message;
use crate::message::Outgoing;
use crate::params;
use crate::proxy;
use crate::text;
use vstd::prelude::*;
use vstd::string::*;
use vstd::utf8::*;

verus! {

/// A parameter.
fn pair(name: &str, value: &str) -> (p: (String, String))
    ensures
        p.0@ == name@,
        p.1@ == value@,
{
    (name.to_owned(), value.to_owned())
}

/// The parameters of the login.
pub open spec fn login_pairs(account: Seq<char>, password: Seq<char>) -> Seq<params::Pair> {
    seq![
        ("api"@, "SYNO.API.Auth"@),
        ("version"@, "6"@),
        ("method"@, "login"@),
        ("account"@, account),
        ("passwd"@, password),
        ("session"@, "VideoStation"@),
        ("format"@, "sid"@),
    ]
}

/// The parameters of the login.
pub fn login_params(account: &str, password: &str) -> (params: Vec<(String, String)>)
    ensures
        params::pairs_of(params@) == login_pairs(account@, password@),
{
    let mut params: Vec<(String, String)> = Vec::new();
    params.push(pair("api", "SYNO.API.Auth"));
    params.push(pair("version", "6"));
    params.push(pair("method", "login"));
    params.push(pair("account", account));
    params.push(pair("passwd", password));
    params.push(pair("session", "VideoStation"));
    params.push(pair("format", "sid"));
    assert(params::pairs_of(params@) =~= login_pairs(account@, password@));
    params
}

/// How a file is named in a request.
pub open spec fn file_reference(file_id: u64) -> Seq<char> {
    "{\"id\":"@ + text::decimal_digits(file_id as nat) + "}"@
}

/// The parameters that ask for a remuxed stream of a file, as the player does.
pub open spec fn open_pairs(file_id: u64, sid: Seq<char>) -> Seq<params::Pair> {
    seq![
        ("api"@, "SYNO.VideoStation2.Streaming"@),
        ("version"@, "1"@),
        ("method"@, "open"@),
        ("file"@, file_reference(file_id)),
        (
            "hls_remux"@,
            "{\"device\":\"tvos\",\"force_open_vte\":false,\"audio_track\":1,\"profile\":\"\"}"@,
        ),
        ("_sid"@, sid),
    ]
}

/// The parameters that ask for a remuxed stream of a file, as the player does.
pub fn open_params(file_id: u64, sid: &str) -> (params: Vec<(String, String)>)
    ensures
        params::pairs_of(params@) == open_pairs(file_id, sid@),
{
    let mut file = "{\"id\":".to_owned();
    file.append(text::decimal(file_id).as_str());
    file.append("}");
    let mut params: Vec<(String, String)> = Vec::new();
    params.push(pair("api", "SYNO.VideoStation2.Streaming"));
    params.push(pair("version", "1"));
    params.push(pair("method", "open"));
    params.push(pair("file", file.as_str()));
    params.push(
        pair(
            "hls_remux",
            "{\"device\":\"tvos\",\"force_open_vte\":false,\"audio_track\":1,\"profile\":\"\"}",
        ),
    );
    params.push(pair("_sid", sid));
    assert(params::pairs_of(params@) =~= open_pairs(file_id, sid@));
    params
}

/// The parameters of the logout.
pub open spec fn logout_pairs(sid: Seq<char>) -> Seq<params::Pair> {
    seq![
        ("api"@, "SYNO.API.Auth"@),
        ("version"@, "6"@),
        ("method"@, "logout"@),
        ("session"@, "VideoStation"@),
        ("_sid"@, sid),
    ]
}

/// The parameters of the logout.
pub fn logout_params(sid: &str) -> (params: Vec<(String, String)>)
    ensures
        params::pairs_of(params@) == logout_pairs(sid@),
{
    let mut params: Vec<(String, String)> = Vec::new();
    params.push(pair("api", "SYNO.API.Auth"));
    params.push(pair("version", "6"));
    params.push(pair("method", "logout"));
    params.push(pair("session", "VideoStation"));
    params.push(pair("_sid", sid));
    assert(params::pairs_of(params@) =~= logout_pairs(sid@));
    params
}

/// A call of the interface at `base`: a form with the given parameters.
pub fn post(base: &str, params: &Vec<(String, String)>) -> (out: Outgoing)
    ensures
        out.method@ == "POST"@,
        out.url@ == base@ + "/webapi/entry.cgi"@,
        headers::headers_of(out.headers@) == seq![
            ("content-type"@, encode_utf8("application/x-www-form-urlencoded"@)),
        ],
        out.body@ == encode_utf8(params::form_text(params::pairs_of(params@))),
        params::parsed_form(out.body@) == params::pairs_of(params@),
{
    let mut url = base.to_owned();
    url.append("/webapi/entry.cgi");
    let mut list: Vec<Header> = Vec::new();
    list.push(
        Header {
            name: "content-type".to_owned(),
            value: "application/x-www-form-urlencoded".as_bytes_vec(),
        },
    );
    assert(headers::headers_of(list@) =~= seq![
        ("content-type"@, encode_utf8("application/x-www-form-urlencoded"@)),
    ]);
    let form = params::write_form(params);
    Outgoing { method: "POST".to_owned(), url, headers: list, body: form.as_str().as_bytes_vec() }
}

/// The session that a login opened, or why there is none.
pub open spec fn session_of(login: json::JsonTree) -> Result<Seq<char>, Seq<char>> {
    match login.member("data"@).member("sid"@).string() {
        Some(sid) => Ok(sid),
        None => Err("login failed: "@ + json::json_text(login.member("error"@))),
    }
}

/// The session that a login opened, or why there is none.
pub fn login_sid(login: &Json) -> (sid: Result<String, String>)
    ensures
        sid is Ok == session_of(login@) is Ok,
        sid matches Ok(found) ==> found@ == session_of(login@)->Ok_0,
        sid matches Err(reason) ==> reason@ == session_of(login@)->Err_0,
{
    match login.string_at("data", "sid") {
        Some(sid) => Ok(sid),
        None => {
            let mut reason = "login failed: ".to_owned();
            reason.append(login.member_text("error").as_str());
            Err(reason)
        },
    }
}

/// What is said of an answer to a request for a stream.
pub open spec fn summary_text(answer: json::JsonTree) -> Seq<char> {
    if answer.member("success"@) == json::JsonTree::Bool(true) {
        "ok, format "@ + json::json_text(answer.member("data"@).member("format"@))
    } else {
        "error "@ + json::json_text(answer.member("error"@))
    }
}

/// What is said of an answer to a request for a stream.
pub fn summary(answer: &Json) -> (text: String)
    ensures
        text@ == summary_text(answer@),
{
    if answer.member_is("success", true) {
        let mut text = "ok, format ".to_owned();
        text.append(answer.text_at("data", "format").as_str());
        text
    } else {
        let mut text = "error ".to_owned();
        text.append(answer.member_text("error").as_str());
        text
    }
}

/// The stream that the proxy handed over, or why there is none.
pub fn proxied_stream(open: &Json) -> (id: Result<String, String>)
    ensures
        id is Ok == open@.member("data"@).member("stream_id"@).string() is Some,
        id matches Ok(found) ==> open@.member("data"@).member("stream_id"@).string() == Some(
            found@,
        ),
        id matches Err(reason) ==> reason@ == "proxied open did not return a stream_id"@,
{
    match open.string_at("data", "stream_id") {
        Some(id) => Ok(id),
        None => Err("proxied open did not return a stream_id".to_owned()),
    }
}

/// The address under which the proxy serves a stream, for the given method.
pub open spec fn stream_address(
    proxy: Seq<char>,
    place: Seq<char>,
    method: Seq<char>,
    id: Seq<char>,
    sid: Seq<char>,
) -> Seq<char> {
    proxy + place + "?api=SYNO.VideoStation.Streaming&version=1&method="@ + method + "&id="@ + id
        + "&format=hls_remux&_sid="@ + sid
}

/// The address under which the proxy serves a stream, for the given method.
fn stream_url(proxy: &str, place: &str, method: &str, id: &str, sid: &str) -> (url: String)
    ensures
        url@ == stream_address(proxy@, place@, method@, id@, sid@),
{
    let mut url = proxy.to_owned();
    url.append(place);
    url.append("?api=SYNO.VideoStation.Streaming&version=1&method=");
    url.append(method);
    url.append("&id=");
    url.append(id);
    url.append("&format=hls_remux&_sid=");
    url.append(sid);
    url
}

/// The request for the first bytes of a stream.
pub fn stream_request(proxy: &str, id: &str, sid: &str) -> (out: Outgoing)
    ensures
        out.method@ == "GET"@,
        out.url@ == stream_address(
            proxy@,
            "/webapi/VideoStation/vtestreaming.cgi/DTV.mov"@,
            "stream"@,
            id@,
            sid@,
        ),
        headers::headers_of(out.headers@) == seq![("range"@, encode_utf8("bytes=0-1023"@))],
        out.body@ == Seq::<u8>::empty(),
{
    let mut list: Vec<Header> = Vec::new();
    list.push(Header { name: "range".to_owned(), value: "bytes=0-1023".as_bytes_vec() });
    assert(headers::headers_of(list@) =~= seq![("range"@, encode_utf8("bytes=0-1023"@))]);
    Outgoing {
        method: "GET".to_owned(),
        url: stream_url(
            proxy,
            "/webapi/VideoStation/vtestreaming.cgi/DTV.mov",
            "stream",
            id,
            sid,
        ),
        headers: list,
        body: Vec::new(),
    }
}

/// The request that closes a stream.
pub fn close_request(proxy: &str, id: &str, sid: &str) -> (out: Outgoing)
    ensures
        out.method@ == "GET"@,
        out.url@ == stream_address(
            proxy@,
            "/webapi/VideoStation/vtestreaming.cgi"@,
            "close"@,
            id@,
            sid@,
        ),
        out.headers.len() == 0,
        out.body@ == Seq::<u8>::empty(),
{
    Outgoing {
        method: "GET".to_owned(),
        url: stream_url(proxy, "/webapi/VideoStation/vtestreaming.cgi", "close", id, sid),
        headers: Vec::new(),
        body: Vec::new(),
    }
}

/// Whether bytes start like an MP4 file: a box of type `ftyp`.
pub open spec fn starts_as_mp4(head: Seq<u8>) -> bool {
    head.len() >= 12 && head.subrange(4, 8) == seq![102u8, 116u8, 121u8, 112u8]
}

/// Whether bytes start like an MP4 file: a box of type `ftyp`.
pub fn is_mp4(head: &[u8]) -> (found: bool)
    ensures
        found == starts_as_mp4(head@),
{
    if head.len() < 12 {
        return false;
    }
    let found = head[4] == 102 && head[5] == 116 && head[6] == 121 && head[7] == 112;
    proof {
        let kind = head@.subrange(4, 8);
        assert(kind[0] == head@[4] && kind[1] == head@[5] && kind[2] == head@[6] && kind[3]
            == head@[7]);
        if found {
            assert(kind =~= seq![102u8, 116u8, 121u8, 112u8]);
        }
    }
    found
}

/// What came of the check of a stream.
pub struct Check {
    /// What is said of the stream.
    pub line: String,
    /// Whether it is a ranged MP4; if not, the reason why the check fails.
    pub outcome: Result<(), String>,
}

/// What is said of a stream.
pub open spec fn stream_line(
    status: u16,
    headers: Seq<(Seq<char>, Seq<u8>)>,
    head: Seq<u8>,
) -> Seq<char> {
    "stream: "@ + message::status_words(status) + ", "@ + headers::text_or(
        headers,
        "content-type"@,
        "?"@,
    ) + ", content-range "@ + headers::text_or(headers, "content-range"@, "-"@) + ", "@
        + text::decimal_digits(head.len()) + " bytes, mp4 header: "@ + (if starts_as_mp4(head) {
        "true"@
    } else {
        "false"@
    })
}

/// Judges the first bytes of a stream: the answer must be partial content, and an MP4 file.
pub fn check_stream(status: u16, headers: &Vec<Header>, head: &[u8]) -> (check: Check)
    requires
        message::is_status(status),
    ensures
        check.line@ == stream_line(status, headers::headers_of(headers@), head@),
        check.outcome is Ok == (status == 206 && starts_as_mp4(head@)),
        check.outcome matches Err(reason) ==> reason@ == "FAIL: stream is not a ranged MP4"@,
{
    let mp4 = is_mp4(head);
    let mut line = "stream: ".to_owned();
    line.append(message::status_text(status).as_str());
    line.append(", ");
    line.append(headers::header_text(headers, "content-type", "?").as_str());
    line.append(", content-range ");
    line.append(headers::header_text(headers, "content-range", "-").as_str());
    line.append(", ");
    line.append(text::decimal(head.len() as u64).as_str());
    line.append(" bytes, mp4 header: ");
    if mp4 {
        line.append("true");
    } else {
        line.append("false");
    }
    let outcome = if status == 206 && mp4 {
        Ok(())
    } else {
        Err("FAIL: stream is not a ranged MP4".to_owned())
    };
    Check { line, outcome }
}

/// The lines that are printed after the logout; nothing is printed after them. Of a check that
/// fails no more is said here: its reason is an error of the program.
pub open spec fn closing_lines(passed: bool) -> Seq<Seq<char>> {
    if passed {
        seq!["logged out"@, "PASS"@]
    } else {
        seq!["logged out"@]
    }
}

/// The lines that are printed after the logout.
pub fn last_lines(passed: bool) -> (lines: Vec<String>)
    ensures
        proxy::lines_of(lines@) == closing_lines(passed),
{
    let mut lines: Vec<String> = Vec::new();
    lines.push("logged out".to_owned());
    if passed {
        lines.push("PASS".to_owned());
    }
    assert(proxy::lines_of(lines@) =~= closing_lines(passed));
    lines
}

} // verus!
