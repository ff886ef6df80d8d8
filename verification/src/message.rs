//! What goes to Video Station and what comes back.

use crate::headers;
use crate::headers::{copy_headers, Header};
use crate::json;
use crate::json::Json;
use crate::params;
use crate::text;
use vstd::prelude::*;
use vstd::string::*;
use vstd::utf8::*;

verus! {

/// The largest request body that is taken in, in bytes.
pub const BODY_LIMIT: usize = 1048576;

/// A request, as the player sends it or as it is to be sent to Video Station.
pub struct Call {
    pub method: String,
    pub path: String,
    /// What follows the question mark; empty where there is none.
    pub query: String,
    pub headers: Vec<Header>,
    pub body: Vec<u8>,
}

/// What a [`Call`] holds.
pub struct CallView {
    pub method: Seq<char>,
    pub path: Seq<char>,
    pub query: Seq<char>,
    pub headers: Seq<(Seq<char>, Seq<u8>)>,
    pub body: Seq<u8>,
}

impl View for Call {
    type V = CallView;

    open spec fn view(&self) -> CallView {
        CallView {
            method: self.method@,
            path: self.path@,
            query: self.query@,
            headers: headers::headers_of(self.headers@),
            body: self.body@,
        }
    }
}

impl CallView {
    /// The parameters of the request.
    pub open spec fn params(self) -> Seq<params::Pair> {
        params::request_params(self.query, self.headers, self.body)
    }
}

/// A request with its full address and the headers that are handed on.
pub struct Outgoing {
    pub method: String,
    pub url: String,
    pub headers: Vec<Header>,
    pub body: Vec<u8>,
}

/// The address of a request: its query follows a question mark, unless it is empty.
pub open spec fn address(upstream: Seq<char>, path: Seq<char>, query: Seq<char>) -> Seq<char> {
    if query.len() == 0 {
        upstream + path
    } else {
        upstream + path + "?"@ + query
    }
}

/// Addresses a request to `upstream`. The host header is kept: Video Station builds absolute
/// addresses from it, so that follow-up requests come back through the proxy.
pub fn build_request(upstream: &str, call: Call) -> (out: Outgoing)
    ensures
        out.method == call.method,
        out.url@ == address(upstream@, call.path@, call.query@),
        headers::headers_of(out.headers@) == headers::end_to_end(call@.headers),
        out.body == call.body,
{
    let mut url = upstream.to_owned();
    url.append(call.path.as_str());
    if !call.query.as_str().is_empty() {
        url.append("?");
        url.append(call.query.as_str());
    }
    let mut kept: Vec<Header> = Vec::new();
    copy_headers(&call.headers, &mut kept);
    assert(headers::headers_of(kept@) =~= headers::end_to_end(call@.headers));
    Outgoing { method: call.method, url, headers: kept, body: call.body }
}

/// The address of Video Station without the slashes at its end.
pub fn upstream_base(address: &str) -> (base: &str)
    ensures
        base@ == text::trimmed_end(address@, '/'),
{
    text::trim_end(address, '/')
}

/// An answer of Video Station, read to its end.
pub struct Buffered {
    pub status: u16,
    pub headers: Vec<Header>,
    pub body: Vec<u8>,
}

/// What a [`Buffered`] or a [`Response`] holds.
pub struct AnswerView {
    pub status: u16,
    pub headers: Seq<(Seq<char>, Seq<u8>)>,
    pub body: Seq<u8>,
}

impl View for Buffered {
    type V = AnswerView;

    open spec fn view(&self) -> AnswerView {
        AnswerView {
            status: self.status,
            headers: headers::headers_of(self.headers@),
            body: self.body@,
        }
    }
}

/// Whether a number is an HTTP status code.
pub open spec fn is_status(status: u16) -> bool {
    100 <= status < 1000
}

/// How `StatusCode` of the `http` crate writes a status: the number and what it stands for.
pub uninterp spec fn status_words(status: u16) -> Seq<char>;

/// Calls `StatusCode::from_u16` and `to_string` of the status.
///
/// Believed: a number from 100 to 999 is a status; its text depends on it alone, and starts with
/// it and a space.
#[verifier::external_body]
pub(crate) fn status_text(status: u16) -> (text: String)
    requires
        is_status(status),
    ensures
        text@ == status_words(status),
        (text::decimal_digits(status as nat) + " "@).is_prefix_of(text@),
{
    axum::http::StatusCode::from_u16(status).unwrap().to_string()
}

/// What the player is answered.
pub struct Response {
    pub status: u16,
    pub headers: Vec<Header>,
    pub body: Vec<u8>,
}

impl View for Response {
    type V = AnswerView;

    open spec fn view(&self) -> AnswerView {
        AnswerView {
            status: self.status,
            headers: headers::headers_of(self.headers@),
            body: self.body@,
        }
    }
}

impl AnswerView {
    /// The answer as it is handed on: all of it but the headers of the connection.
    pub open spec fn relayed(self) -> AnswerView {
        AnswerView { headers: headers::end_to_end(self.headers), ..self }
    }
}

impl Buffered {
    /// The answer as it is handed on.
    pub fn into_response(self) -> (response: Response)
        ensures
            response@ == self@.relayed(),
    {
        let mut kept: Vec<Header> = Vec::new();
        copy_headers(&self.headers, &mut kept);
        assert(headers::headers_of(kept@) =~= headers::end_to_end(self@.headers));
        Response { status: self.status, headers: kept, body: self.body }
    }
}

/// The headers of an answer whose body is handed on as it arrives: those of Video Station, and
/// the length of the body where it is known.
pub fn streamed_headers(upstream: &Vec<Header>, length: Option<u64>) -> (kept: Vec<Header>)
    ensures
        length is None ==> headers::headers_of(kept@) == headers::end_to_end(
            headers::headers_of(upstream@),
        ),
        length matches Some(n) ==> {
            &&& kept.len() > 0
            &&& headers::headers_of(kept@.drop_last()) == headers::end_to_end(
                headers::headers_of(upstream@),
            )
            &&& kept@.last().name@ == "content-length"@
            &&& headers::ascii_text(kept@.last().value@) == text::decimal_digits(n as nat)
        },
{
    let mut kept: Vec<Header> = Vec::new();
    copy_headers(upstream, &mut kept);
    assert(headers::headers_of(kept@) =~= headers::end_to_end(headers::headers_of(upstream@)));
    if let Some(n) = length {
        let ghost before = kept@;
        kept.push(headers::content_length(n));
        assert(kept@.drop_last() =~= before);
    }
    kept
}

/// The answer that says `text`, in plain text.
pub open spec fn plain_answer(status: u16, text: Seq<char>) -> AnswerView {
    AnswerView {
        status,
        headers: seq![("content-type"@, encode_utf8("text/plain; charset=utf-8"@))],
        body: encode_utf8(text),
    }
}

/// An answer of one header, which tells the type of the text that is its body.
pub fn text_response(status: u16, kind: &str, text: &str) -> (response: Response)
    ensures
        response@ == (AnswerView {
            status,
            headers: seq![("content-type"@, encode_utf8(kind@))],
            body: encode_utf8(text@),
        }),
{
    let mut list: Vec<Header> = Vec::new();
    list.push(Header { name: "content-type".to_owned(), value: kind.as_bytes_vec() });
    assert(headers::headers_of(list@) =~= seq![("content-type"@, encode_utf8(kind@))]);
    Response { status, headers: list, body: text.as_bytes_vec() }
}

/// The answer to a request whose body is larger than [`BODY_LIMIT`], or breaks off.
pub fn payload_too_large(reason: &str) -> (response: Response)
    ensures
        response@ == plain_answer(413, reason@),
{
    text_response(413, "text/plain; charset=utf-8", reason)
}

/// The answer where Video Station cannot be reached.
pub fn bad_gateway(reason: &str) -> (response: Response)
    ensures
        response@ == plain_answer(502, reason@),
{
    text_response(502, "text/plain; charset=utf-8", reason)
}

/// What `flate2::read::GzDecoder` makes of a byte string: what it unpacks to, if it is whole.
pub uninterp spec fn unpacked(bytes: Seq<u8>) -> Option<Seq<u8>>;

/// Reads a new `flate2::read::GzDecoder` to its end.
///
/// Believed: the outcome depends on the bytes alone.
#[verifier::external_body]
fn gunzip(bytes: &[u8]) -> (plain: Option<Vec<u8>>)
    ensures
        plain is Some == unpacked(bytes@) is Some,
        plain matches Some(found) ==> unpacked(bytes@) == Some(found@),
{
    let mut plain = Vec::new();
    std::io::Read::read_to_end(&mut flate2::read::GzDecoder::new(bytes), &mut plain).ok()?;
    Some(plain)
}

/// The bytes of a body before it was packed; none where it does not unpack.
pub open spec fn plain_body(
    headers: Seq<(Seq<char>, Seq<u8>)>,
    body: Seq<u8>,
) -> Option<Seq<u8>> {
    match headers::header_value(headers, "content-encoding"@) {
        Some(value) => if headers::is_word(value, "gzip"@) {
            unpacked(body)
        } else {
            Some(body)
        },
        None => Some(body),
    }
}

/// The JSON document that a body holds; none where it does not unpack or is no JSON.
pub open spec fn body_json(
    headers: Seq<(Seq<char>, Seq<u8>)>,
    body: Seq<u8>,
) -> Option<json::JsonTree> {
    match plain_body(headers, body) {
        Some(bytes) => match json::parsed_json(bytes) {
            Ok(tree) => Some(tree),
            Err(_) => None,
        },
        None => None,
    }
}

/// Reads the JSON document that a body holds, packed or not.
pub fn decode_json(headers: &Vec<Header>, body: &Vec<u8>) -> (document: Option<Json>)
    ensures
        document is Some == body_json(headers::headers_of(headers@), body@) is Some,
        document matches Some(found) ==> body_json(headers::headers_of(headers@), body@) == Some(
            found@,
        ),
{
    let packed = match headers::header(headers, "content-encoding") {
        Some(value) => headers::says(value, "gzip"),
        None => false,
    };
    let outcome = if packed {
        match gunzip(body.as_slice()) {
            Some(bytes) => Json::parse(bytes.as_slice()),
            None => return None,
        }
    } else {
        Json::parse(body.as_slice())
    };
    match outcome {
        Ok(document) => Some(document),
        Err(_) => None,
    }
}

} // verus!
