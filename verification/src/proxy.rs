//! The decisions of the proxy: where a request goes, and what the player is answered.
//!
//! [`handle`] takes a request and [`resume`] an answer of Video Station; both say in a [`Turn`]
//! what is to be logged and what is to be done next.

use crate::headers;
use crate::json;
use crate::json::Json;
use crate::message;
use crate::message::{
    bad_gateway, decode_json, text_response, AnswerView, Buffered, Call, CallView, Response,
};
use crate::params;
use crate::params::{merged_params, param, set_param, unquote};
use crate::streams::RawStreams;
use crate::text;
use vstd::prelude::*;
use vstd::string::*;
use vstd::utf8::*;

verus! {

/// The error by which Video Station says that it has no format for a stream.
pub const ERR_NO_STREAM_FORMAT: i64 = 1211;

/// What is waited for while Video Station works on a request.
pub enum Wait {
    /// The answer to a call of which nothing is known.
    Api,
    /// The answer to `call`, which asks for a remuxed stream of `file`.
    Open { call: Call, file: String },
    /// The answer to the same request for a raw stream, the first one having got `first`.
    RawOpen { first: Buffered },
}

/// What a [`Wait`] holds.
pub enum WaitView {
    Api,
    Open { call: CallView, file: Seq<char> },
    RawOpen { first: AnswerView },
}

impl View for Wait {
    type V = WaitView;

    open spec fn view(&self) -> WaitView {
        match self {
            Wait::Api => WaitView::Api,
            Wait::Open { call, file } => WaitView::Open { call: call@, file: file@ },
            Wait::RawOpen { first } => WaitView::RawOpen { first: first@ },
        }
    }
}

/// What is to be done next.
pub enum Action {
    /// Send the request, read the answer to its end and resume with it.
    Buffer { call: Call, wait: Wait },
    /// Send the request and hand the answer on as it arrives.
    Stream { call: Call },
    /// Answer the player.
    Answer { response: Response },
}

/// What an [`Action`] holds.
pub enum ActionView {
    Buffer { call: CallView, wait: WaitView },
    Stream { call: CallView },
    Answer { response: AnswerView },
}

impl View for Action {
    type V = ActionView;

    open spec fn view(&self) -> ActionView {
        match self {
            Action::Buffer { call, wait } => ActionView::Buffer { call: call@, wait: wait@ },
            Action::Stream { call } => ActionView::Stream { call: call@ },
            Action::Answer { response } => ActionView::Answer { response: response@ },
        }
    }
}

/// The lines to log, and what is to be done after that.
pub struct Turn {
    pub log: Vec<String>,
    pub action: Action,
}

/// The lines that a list stands for.
pub open spec fn lines_of(log: Seq<String>) -> Seq<Seq<char>> {
    log.map_values(|line: String| line@)
}

/// The request that an action sends.
pub open spec fn sent_call(action: ActionView) -> Option<CallView> {
    match action {
        ActionView::Buffer { call, .. } => Some(call),
        ActionView::Stream { call } => Some(call),
        ActionView::Answer { .. } => None,
    }
}

// ---------- requests ----------

/// Whether a request asks Video Station for a remuxed stream.
pub open spec fn asks_remux(params: Seq<params::Pair>) -> bool {
    &&& params::lookup(params, "api"@) == Some("SYNO.VideoStation2.Streaming"@)
    &&& params::lookup(params, "method"@) == Some("open"@)
    &&& params::lookup(params, "hls_remux"@) is Some
}

/// The stream that a request fetches or closes, where it is one that was opened in raw mode.
pub open spec fn raw_stream(
    call: CallView,
    params: Seq<params::Pair>,
    raw: Set<Seq<char>>,
) -> Option<Seq<char>> {
    match params::lookup(params, "id"@) {
        Some(id) => if "/webapi/VideoStation/vtestreaming.cgi"@.is_prefix_of(call.path)
            && raw.contains(params::unquoted(id)) && (params::lookup(params, "method"@) == Some(
            "stream"@,
        ) || params::lookup(params, "method"@) == Some("close"@)) {
            Some(params::unquoted(id))
        } else {
            None
        },
        None => None,
    }
}

/// The value of a parameter; empty where there is none.
pub open spec fn value_or_empty(params: Seq<params::Pair>, key: Seq<char>) -> Seq<char> {
    match params::lookup(params, key) {
        Some(value) => value,
        None => Seq::empty(),
    }
}

/// Whether a request has its parameters in its query, not in its body.
pub open spec fn has_query(method: Seq<char>) -> bool {
    method == "GET"@ || method == "HEAD"@
}

/// Whether the body of a request may hold parameters: that of a `GET` or `HEAD` does only where
/// the headers announce a form.
pub open spec fn has_form(call: CallView) -> bool {
    !has_query(call.method) || params::announces_form(call.headers)
}

/// Whether bytes, read as a form, hold a parameter named `key`.
pub open spec fn holds(bytes: Seq<u8>, key: Seq<char>) -> bool {
    params::lookup(params::parsed_form(bytes), key) is Some
}

/// An urlencoded text with the format set to raw.
pub open spec fn raw_form(encoded: Seq<char>) -> Seq<char> {
    params::form_text(
        params::with_param(params::parsed_form(encode_utf8(encoded)), "format"@, "raw"@),
    )
}

/// The request that is sent in place of one about a stream that was opened in raw mode: its
/// format is raw, and what is fetched is the original file. The format is set in the query for
/// `GET` and `HEAD`, or else in the body; a format that stands in the other part is raw too. The
/// body of a `GET` or `HEAD` is sent as it is where the headers announce no form.
pub open spec fn raw_call(call: CallView, params: Seq<params::Pair>) -> CallView {
    CallView {
        path: if params::lookup(params, "method"@) == Some("stream"@) {
            "/webapi/VideoStation/vtestreaming.cgi/1.mp4"@
        } else {
            call.path
        },
        query: if has_query(call.method) || holds(encode_utf8(call.query), "format"@) {
            raw_form(call.query)
        } else {
            call.query
        },
        body: if !has_query(call.method) || has_form(call) && holds(call.body, "format"@) {
            encode_utf8(raw_form(text::lossy_text(call.body)))
        } else {
            call.body
        },
        ..call
    }
}

/// Whether every format among the parameters is raw.
pub open spec fn formats_are_raw(pairs: Seq<params::Pair>) -> bool {
    forall|i: int|
        0 <= i < pairs.len() && (#[trigger] pairs[i]).0 == "format"@ ==> pairs[i].1 == "raw"@
}

/// Whether `sent` are the parameters `asked` with the format set to raw; where it need not be
/// set, only one that is there is.
pub open spec fn set_to_raw(
    sent: Seq<params::Pair>,
    asked: Seq<params::Pair>,
    needed: bool,
) -> bool {
    sent == (if needed || params::lookup(asked, "format"@) is Some {
        params::with_param(asked, "format"@, "raw"@)
    } else {
        asked
    })
}

/// Whether the parameters of `sent` are those of `asked` with the format set to raw. A body
/// that is not UTF-8 is read as the text that stands for it; one that can hold no parameters
/// stays as it is.
pub open spec fn carries_raw_format(sent: CallView, asked: CallView) -> bool {
    &&& formats_are_raw(params::parsed_form(encode_utf8(sent.query)))
    &&& has_form(asked) ==> formats_are_raw(params::parsed_form(sent.body))
    &&& !has_form(asked) ==> sent.body == asked.body
    &&& set_to_raw(
        params::parsed_form(encode_utf8(sent.query)),
        params::parsed_form(encode_utf8(asked.query)),
        has_query(asked.method),
    )
    &&& !has_query(asked.method) ==> set_to_raw(
        params::parsed_form(sent.body),
        params::parsed_form(encode_utf8(text::lossy_text(asked.body))),
        true,
    )
    &&& has_form(asked) && valid_utf8(asked.body) ==> set_to_raw(
        params::parsed_form(sent.body),
        params::parsed_form(asked.body),
        !has_query(asked.method),
    )
}

/// Whether a request is a call of the interface, with a small answer, and fetches no stream.
pub open spec fn is_api_call(call: CallView, params: Seq<params::Pair>) -> bool {
    &&& "/webapi/"@.is_prefix_of(call.path)
    &&& params::lookup(params, "method"@) != Some("stream"@)
    &&& !text::occurs(call.path, "vtestreaming.cgi/"@)
}

/// The file that a request names.
pub open spec fn file_of(params: Seq<params::Pair>) -> Seq<char> {
    match params::lookup(params, "file"@) {
        Some(file) => file,
        None => "?"@,
    }
}

/// Where a request goes.
pub open spec fn routed(
    call: CallView,
    params: Seq<params::Pair>,
    raw: Set<Seq<char>>,
) -> ActionView {
    let sent = if raw_stream(call, params, raw) is Some {
        raw_call(call, params)
    } else {
        call
    };
    if asks_remux(params) {
        ActionView::Buffer { call, wait: WaitView::Open { call, file: file_of(params) } }
    } else if is_api_call(call, params) {
        ActionView::Buffer { call: sent, wait: WaitView::Api }
    } else {
        ActionView::Stream { call: sent }
    }
}

/// The raw streams once a request was routed: one that is closed is forgotten.
pub open spec fn streams_after_request(
    call: CallView,
    params: Seq<params::Pair>,
    raw: Set<Seq<char>>,
) -> Set<Seq<char>> {
    match raw_stream(call, params, raw) {
        Some(id) => if params::lookup(params, "method"@) == Some("close"@) {
            raw.remove(id)
        } else {
            raw
        },
        None => raw,
    }
}

/// The line that is logged of a request; none where it does not concern Video Station.
pub open spec fn request_line(call: CallView, params: Seq<params::Pair>) -> Option<Seq<char>> {
    if value_or_empty(params, "api"@).len() == 0 && !"/webapi"@.is_prefix_of(call.path) {
        None
    } else {
        Some(
            call.method + " "@ + call.path + " api="@ + value_or_empty(params, "api"@) + " method="@
                + value_or_empty(params, "method"@) + " format="@ + value_or_empty(
                params,
                "format"@,
            ) + " id="@ + params::unquoted(value_or_empty(params, "id"@)) + fragment_note(params),
        )
    }
}

/// What the line of a request says of the fragment that it asks for.
pub open spec fn fragment_note(params: Seq<params::Pair>) -> Seq<char> {
    match params::lookup(params, "fragment_id"@) {
        Some(fragment) => " frag="@ + params::unquoted(fragment),
        None => Seq::empty(),
    }
}

/// The lines that are logged of a request.
pub open spec fn request_lines(
    call: CallView,
    params: Seq<params::Pair>,
    raw: Set<Seq<char>>,
) -> Seq<Seq<char>> {
    let first = match request_line(call, params) {
        Some(line) => seq![line],
        None => Seq::empty(),
    };
    match raw_stream(call, params, raw) {
        Some(id) => first.push(
            "   ↳ raw passthrough: "@ + value_or_empty(params, "method"@) + " "@ + id,
        ),
        None => first,
    }
}

/// The value of a parameter; empty where there is none.
fn pick<'a>(params: &'a Vec<(String, String)>, key: &str) -> (value: &'a str)
    ensures
        value@ == value_or_empty(params::pairs_of(params@), key@),
{
    match param(params.as_slice(), key) {
        Some(value) => value,
        None => {
            proof {
                reveal_strlit("");
            }
            assert(""@ =~= Seq::empty());
            ""
        },
    }
}

/// Whether the first parameter named `key` has the value `value`.
fn has_param(params: &Vec<(String, String)>, key: &str, value: &str) -> (same: bool)
    ensures
        same == (params::lookup(params::pairs_of(params@), key@) == Some(value@)),
{
    match param(params.as_slice(), key) {
        Some(found) => text::same_text(found, value),
        None => false,
    }
}

/// The line that is logged of a request; none where it does not concern Video Station.
pub fn log_request(call: &Call, params: &Vec<(String, String)>) -> (line: Option<String>)
    ensures
        line is Some == request_line(call@, params::pairs_of(params@)) is Some,
        line matches Some(found) ==> request_line(call@, params::pairs_of(params@)) == Some(found@),
{
    let api = pick(params, "api");
    if api.is_empty() && !text::starts_with(call.path.as_str(), "/webapi") {
        return None;
    }
    let mut line = call.method.clone();
    line.append(" ");
    line.append(call.path.as_str());
    line.append(" api=");
    line.append(api);
    line.append(" method=");
    line.append(pick(params, "method"));
    line.append(" format=");
    line.append(pick(params, "format"));
    line.append(" id=");
    line.append(unquote(pick(params, "id")));
    if let Some(fragment) = param(params.as_slice(), "fragment_id") {
        let mut note = " frag=".to_owned();
        note.append(unquote(fragment));
        line.append(note.as_str());
    } else {
        assert(line@ + Seq::empty() =~= line@);
    }
    Some(line)
}

/// A copy of a request.
fn copy_call(call: &Call) -> (copy: Call)
    ensures
        copy@ == call@,
{
    let mut list: Vec<headers::Header> = Vec::new();
    let mut i: usize = 0;
    while i < call.headers.len()
        invariant
            i <= call.headers.len(),
            list.len() == i,
            forall|j: int| 0 <= j < i ==> (#[trigger] list[j])@ == call.headers[j]@,
        decreases call.headers.len() - i,
    {
        let h = headers::copy_header(&call.headers[i]);
        list.push(h);
        i = i + 1;
    }
    let body = call.body.clone();
    assert(body@ =~= call.body@);
    assert(headers::headers_of(list@) =~= headers::headers_of(call.headers@));
    Call {
        method: call.method.clone(),
        path: call.path.clone(),
        query: call.query.clone(),
        headers: list,
        body,
    }
}

/// Setting the format leaves no format but raw.
proof fn lemma_formats_are_raw(pairs: Seq<params::Pair>)
    ensures
        formats_are_raw(params::with_param(pairs, "format"@, "raw"@)),
        params::lookup(pairs, "format"@) is None ==> formats_are_raw(pairs),
{
    params::lemma_lookup_is_some(pairs, "format"@);
}

/// Whether bytes, read as a form, hold a parameter named `key`.
fn form_holds(bytes: &[u8], key: &str) -> (found: bool)
    ensures
        found == holds(bytes@, key@),
{
    let params = params::parse_form(bytes);
    param(params.as_slice(), key).is_some()
}

/// Whether a request has its parameters in its query, not in its body.
fn in_query(method: &str) -> (found: bool)
    ensures
        found == has_query(method@),
{
    text::same_text(method, "GET") || text::same_text(method, "HEAD")
}

/// Whether the body of a request may hold parameters.
fn in_body(call: &Call) -> (found: bool)
    ensures
        found == has_form(call@),
{
    !in_query(call.method.as_str()) || params::is_form(&call.headers)
}

/// The request that is sent in place of one about a stream that was opened in raw mode.
fn rewrite_raw(call: Call, params: &Vec<(String, String)>) -> (changed: Call)
    ensures
        changed@ == raw_call(call@, params::pairs_of(params@)),
        carries_raw_format(changed@, call@),
{
    let fetch = has_param(params, "method", "stream");
    let query_method = in_query(call.method.as_str());
    let mut changed = call;
    if fetch {
        changed.path = "/webapi/VideoStation/vtestreaming.cgi/1.mp4".to_owned();
    }
    proof {
        lemma_formats_are_raw(params::parsed_form(encode_utf8(call.query@)));
        lemma_formats_are_raw(params::parsed_form(call.body@));
        lemma_formats_are_raw(params::parsed_form(encode_utf8(text::lossy_text(call.body@))));
        if valid_utf8(call.body@) {
            decode_utf8_encode_utf8(call.body@);
        }
    }
    if query_method || form_holds(changed.query.as_str().as_bytes(), "format") {
        changed.query = set_param(changed.query.as_str(), "format", "raw");
    }
    if !query_method || in_body(&changed) && form_holds(changed.body.as_slice(), "format") {
        let form = text::from_utf8_lossy(changed.body.as_slice());
        changed.body = set_param(form.as_str(), "format", "raw").as_str().as_bytes_vec();
    }
    changed
}

/// Decides where a request with the given parameters goes.
pub fn route(call: Call, params: &Vec<(String, String)>, raw: &mut RawStreams) -> (turn: Turn)
    ensures
        turn.action@ == routed(call@, params::pairs_of(params@), old(raw)@),
        raw_stream(call@, params::pairs_of(params@), old(raw)@) is Some ==> sent_call(
            turn.action@,
        ) is Some && carries_raw_format(sent_call(turn.action@)->0, call@),
        lines_of(turn.log@) == request_lines(call@, params::pairs_of(params@), old(raw)@),
        final(raw)@ == streams_after_request(call@, params::pairs_of(params@), old(raw)@),
{
    let ghost pairs = params::pairs_of(params@);
    let ghost asked = call@;
    let mut log: Vec<String> = Vec::new();
    if let Some(line) = log_request(&call, params) {
        log.push(line);
    }
    let ghost first = match request_line(asked, pairs) {
        Some(line) => seq![line],
        None => Seq::empty(),
    };
    assert(lines_of(log@) =~= first);
    proof {
        lemma_open_is_no_stream(asked, pairs, raw@);
    }

    // Streaming.open with hls_remux: to be tried again as raw if Video Station refuses.
    if has_param(params, "api", "SYNO.VideoStation2.Streaming") && has_param(
        params,
        "method",
        "open",
    ) && param(params.as_slice(), "hls_remux").is_some() {
        let file = match param(params.as_slice(), "file") {
            Some(file) => file.to_owned(),
            None => "?".to_owned(),
        };
        let kept = copy_call(&call);
        return Turn { log, action: Action::Buffer { call, wait: Wait::Open { call: kept, file } } };
    }
    let fetch = has_param(params, "method", "stream");
    let close = has_param(params, "method", "close");
    // Calls of the interface are buffered, so that the outcome can be logged.
    let is_api = text::starts_with(call.path.as_str(), "/webapi/") && !fetch && !text::contains(
        call.path.as_str(),
        "vtestreaming.cgi/",
    );
    let mut sent = call;
    // Stream or close for a stream that was opened as raw: switch the format to raw.
    if (fetch || close) && text::starts_with(
        sent.path.as_str(),
        "/webapi/VideoStation/vtestreaming.cgi",
    ) {
        if let Some(quoted) = param(params.as_slice(), "id") {
            let id = unquote(quoted);
            if raw.contains(id) {
                if close {
                    raw.remove(id);
                }
                let mut line = "   ↳ raw passthrough: ".to_owned();
                line.append(pick(params, "method"));
                line.append(" ");
                line.append(id);
                log.push(line);
                assert(lines_of(log@) =~= first.push(line@));
                sent = rewrite_raw(sent, params);
            }
        }
    }
    if is_api {
        Turn { log, action: Action::Buffer { call: sent, wait: Wait::Api } }
    } else {
        Turn { log, action: Action::Stream { call: sent } }
    }
}

/// A request that opens a stream neither fetches nor closes one.
pub proof fn lemma_open_is_no_stream(
    call: CallView,
    pairs: Seq<params::Pair>,
    raw: Set<Seq<char>>,
)
    ensures
        asks_remux(pairs) ==> raw_stream(call, pairs, raw) is None,
{
    reveal_strlit("open");
    reveal_strlit("stream");
    reveal_strlit("close");
    assert("open"@.len() == 4 && "stream"@.len() == 6 && "close"@.len() == 5);
}

/// Decides where a request goes.
pub fn handle(call: Call, raw: &mut RawStreams) -> (turn: Turn)
    ensures
        turn.action@ == routed(call@, call@.params(), old(raw)@),
        raw_stream(call@, call@.params(), old(raw)@) is Some ==> sent_call(turn.action@) is Some
            && carries_raw_format(sent_call(turn.action@)->0, call@),
        lines_of(turn.log@) == request_lines(call@, call@.params(), old(raw)@),
        final(raw)@ == streams_after_request(call@, call@.params(), old(raw)@),
{
    let params = merged_params(call.query.as_str(), &call.headers, call.body.as_slice());
    route(call, &params, raw)
}

// ---------- answers ----------

/// Whether an answer says that Video Station has no format for a stream.
pub open spec fn refuses(document: Option<json::JsonTree>) -> bool {
    match document {
        Some(tree) => tree.member("success"@) == json::JsonTree::Bool(false) && tree.member(
            "error"@,
        ).member("code"@).integer() == Some(ERR_NO_STREAM_FORMAT),
        None => false,
    }
}

/// The stream that an answer says was opened.
pub open spec fn opened_stream(document: Option<json::JsonTree>) -> Option<Seq<char>> {
    match document {
        Some(tree) => if tree.member("success"@) == json::JsonTree::Bool(true) {
            tree.member("data"@).member("stream_id"@).string()
        } else {
            None
        },
        None => None,
    }
}

/// The parameters of a request for a raw stream, made from those of one for a remuxed stream.
pub open spec fn raw_open_params(pairs: Seq<params::Pair>) -> Seq<params::Pair> {
    params::without(pairs, "hls_remux"@).push(("raw"@, "{}"@))
}

/// The parameters with `raw={}` in place of `hls_remux`, where they hold that.
pub open spec fn swapped_params(pairs: Seq<params::Pair>) -> Seq<params::Pair> {
    if params::lookup(pairs, "hls_remux"@) is Some {
        raw_open_params(pairs)
    } else {
        pairs
    }
}

/// The request for a raw stream, made from one for a remuxed stream: the same, but for `raw={}`
/// in place of `hls_remux`, in the query and in the body alike. The body gets `raw={}` in any
/// case, but for `GET` and `HEAD`; theirs is sent as it is where the headers announce no form.
pub open spec fn raw_open_call(call: CallView) -> CallView {
    CallView {
        query: if holds(encode_utf8(call.query), "hls_remux"@) {
            params::form_text(raw_open_params(params::parsed_form(encode_utf8(call.query))))
        } else {
            call.query
        },
        body: if !has_query(call.method) || has_form(call) && holds(call.body, "hls_remux"@) {
            encode_utf8(params::form_text(raw_open_params(params::parsed_form(call.body))))
        } else {
            call.body
        },
        ..call
    }
}

/// Whether the parameters of `sent` are those of `asked` with `raw={}` in place of `hls_remux`;
/// a body that can hold no parameters stays as it is.
pub open spec fn carries_raw_open(sent: CallView, asked: CallView) -> bool {
    &&& params::parsed_form(encode_utf8(sent.query)) == swapped_params(
        params::parsed_form(encode_utf8(asked.query)),
    )
    &&& if !has_query(asked.method) {
        params::parsed_form(sent.body) == raw_open_params(params::parsed_form(asked.body))
    } else if has_form(asked) {
        params::parsed_form(sent.body) == swapped_params(params::parsed_form(asked.body))
    } else {
        sent.body == asked.body
    }
}

/// What the player is told of a raw stream: that it is a remuxed one.
pub open spec fn opened_tree(id: Seq<char>) -> json::JsonTree {
    json::JsonTree::Object(
        map![
            "data"@ => json::JsonTree::Object(
                map![
                    "format"@ => json::JsonTree::Str("hls_remux"@),
                    "stream_id"@ => json::JsonTree::Str(id),
                ],
            ),
            "success"@ => json::JsonTree::Bool(true),
        ],
    )
}

/// The answer that hands a raw stream to the player.
pub open spec fn opened_answer(id: Seq<char>) -> AnswerView {
    AnswerView {
        status: 200,
        headers: seq![
            ("content-type"@, encode_utf8("application/json; charset=\"UTF-8\""@)),
        ],
        body: encode_utf8(json::json_text(opened_tree(id))),
    }
}

/// The document that an answer holds.
pub open spec fn document_of(answer: AnswerView) -> Option<json::JsonTree> {
    message::body_json(answer.headers, answer.body)
}

/// What is done after the answer to a request for a remuxed stream: it is handed on, unless
/// Video Station refuses; in that case the same file is asked for as a raw stream.
pub open spec fn after_open(
    call: CallView,
    answer: AnswerView,
    document: Option<json::JsonTree>,
) -> ActionView {
    if refuses(document) {
        ActionView::Buffer {
            call: raw_open_call(call),
            wait: WaitView::RawOpen { first: answer },
        }
    } else {
        ActionView::Answer { response: answer.relayed() }
    }
}

/// What is done after the answer to the request for a raw stream: the stream is handed to the
/// player, or else the refusal that came first.
pub open spec fn after_raw_open(
    first: AnswerView,
    document: Option<json::JsonTree>,
) -> ActionView {
    match opened_stream(document) {
        Some(id) => ActionView::Answer { response: opened_answer(id) },
        None => ActionView::Answer { response: first.relayed() },
    }
}

/// What is done after an answer, or after word that there is none.
pub open spec fn resumed(wait: WaitView, event: Result<AnswerView, Seq<char>>) -> ActionView {
    match event {
        Err(reason) => ActionView::Answer { response: message::plain_answer(502, reason) },
        Ok(answer) => match wait {
            WaitView::Api => ActionView::Answer { response: answer.relayed() },
            WaitView::Open { call, .. } => after_open(call, answer, document_of(answer)),
            WaitView::RawOpen { first } => after_raw_open(first, document_of(answer)),
        },
    }
}

/// The raw stream that an answer opens.
pub open spec fn newly_opened(wait: WaitView, event: Result<AnswerView, Seq<char>>) -> Option<
    Seq<char>,
> {
    match event {
        Ok(answer) => if wait is RawOpen {
            opened_stream(document_of(answer))
        } else {
            None
        },
        Err(_) => None,
    }
}

/// The raw streams after an answer: one that it opens is noted.
pub open spec fn streams_after_answer(
    wait: WaitView,
    event: Result<AnswerView, Seq<char>>,
    raw: Set<Seq<char>>,
) -> Set<Seq<char>> {
    match newly_opened(wait, event) {
        Some(id) => raw.insert(id),
        None => raw,
    }
}

/// What is logged of the outcome of a call.
pub open spec fn outcome_text(answer: AnswerView, document: Option<json::JsonTree>) -> Seq<char> {
    match document {
        Some(tree) => if tree.member("success"@) == json::JsonTree::Bool(true) {
            "ok"@
        } else {
            "error "@ + json::json_text(tree.member("error"@))
        },
        None => text::decimal_digits(answer.body.len()) + " bytes, "@ + headers::text_or(
            answer.headers,
            "content-type"@,
            "?"@,
        ),
    }
}

/// The line that is logged of an answer.
pub open spec fn response_line(answer: AnswerView, document: Option<json::JsonTree>) -> Seq<char> {
    "   ← "@ + message::status_words(answer.status) + " "@ + outcome_text(answer, document)
}

/// The lines that are logged after the answer to a request for a remuxed stream of `file`.
pub open spec fn open_lines(
    file: Seq<char>,
    answer: AnswerView,
    document: Option<json::JsonTree>,
) -> Seq<Seq<char>> {
    if refuses(document) {
        seq!["   ↳ hls_remux refused (1211) for file "@ + file + "; retrying as raw"@]
    } else {
        seq![response_line(answer, document)]
    }
}

/// The lines that are logged after the answer to the request for a raw stream.
pub open spec fn raw_open_lines(
    answer: AnswerView,
    document: Option<json::JsonTree>,
) -> Seq<Seq<char>> {
    match document {
        Some(tree) => match opened_stream(document) {
            Some(id) => seq![
                "   ↳ raw open ok: stream_id "@ + id + " ("@ + json::json_text(
                    tree.member("data"@),
                ) + ")"@,
            ],
            None => seq!["   ↳ raw open failed too: "@ + json::json_text(tree)],
        },
        None => seq![response_line(answer, document)],
    }
}

/// The lines that are logged after an answer, or after word that there is none.
pub open spec fn answer_lines(
    wait: WaitView,
    event: Result<AnswerView, Seq<char>>,
) -> Seq<Seq<char>> {
    match event {
        Err(reason) => seq!["   !! upstream error: "@ + reason],
        Ok(answer) => match wait {
            WaitView::Api => seq![response_line(answer, document_of(answer))],
            WaitView::Open { file, .. } => open_lines(file, answer, document_of(answer)),
            WaitView::RawOpen { .. } => raw_open_lines(answer, document_of(answer)),
        },
    }
}

/// The document that may be there.
pub open spec fn tree_of(document: Option<Json>) -> Option<json::JsonTree> {
    match document {
        Some(found) => Some(found@),
        None => None,
    }
}

/// Whether an answer says that Video Station has no format for a stream.
pub fn is_refusal(document: &Option<Json>) -> (refused: bool)
    ensures
        refused == refuses(tree_of(*document)),
{
    match document {
        Some(json) => json.member_is("success", false) && match json.integer_at("error", "code") {
            Some(code) => code == ERR_NO_STREAM_FORMAT,
            None => false,
        },
        None => false,
    }
}

/// The stream that an answer says was opened.
pub fn opened_id(document: &Option<Json>) -> (id: Option<String>)
    ensures
        id is Some == opened_stream(tree_of(*document)) is Some,
        id matches Some(found) ==> opened_stream(tree_of(*document)) == Some(found@),
{
    match document {
        Some(json) => if json.member_is("success", true) {
            json.string_at("data", "stream_id")
        } else {
            None
        },
        None => None,
    }
}

/// The parameters of a request for a raw stream, made from those of one for a remuxed stream.
pub fn raw_params(params: &Vec<(String, String)>) -> (changed: Vec<(String, String)>)
    ensures
        params::pairs_of(changed@) == raw_open_params(params::pairs_of(params@)),
{
    let mut changed = params::leave_out(params, "hls_remux");
    changed.push(("raw".to_owned(), "{}".to_owned()));
    assert(params::pairs_of(changed@) =~= raw_open_params(params::pairs_of(params@)));
    changed
}

/// The form that asks for a raw stream, made from one that asks for a remuxed stream: the same,
/// but for `raw={}` in place of `hls_remux`.
pub fn raw_open_form(body: &[u8]) -> (form: String)
    ensures
        form@ == params::form_text(raw_open_params(params::parsed_form(body@))),
        params::parsed_form(encode_utf8(form@)) == raw_open_params(params::parsed_form(body@)),
{
    let params = params::parse_form(body);
    params::write_form(&raw_params(&params))
}

/// The document that hands a raw stream to the player as if it were a remuxed one.
pub fn opened_document(id: &str) -> (document: Json)
    ensures
        document@ == opened_tree(id@),
{
    let mut data: Vec<(String, Json)> = Vec::new();
    data.push(("format".to_owned(), Json::string("hls_remux")));
    data.push(("stream_id".to_owned(), Json::string(id)));
    let mut reply: Vec<(String, Json)> = Vec::new();
    let ghost inner = data@;
    reply.push(("data".to_owned(), Json::object(data)));
    reply.push(("success".to_owned(), Json::boolean(true)));
    let ghost outer = reply@;
    proof {
        reveal_with_fuel(json::members_of, 3);
        assert(json::members_of(inner) =~= map![
            "format"@ => json::JsonTree::Str("hls_remux"@),
            "stream_id"@ => json::JsonTree::Str(id@),
        ]);
        assert(json::members_of(outer) =~= opened_tree(id@)->Object_0);
    }
    Json::object(reply)
}

/// An answer whose one header tells its type is not packed.
proof fn lemma_not_packed(answer: AnswerView)
    requires
        answer.headers.len() == 1,
        answer.headers[0].0 == "content-type"@,
    ensures
        message::plain_body(answer.headers, answer.body) == Some(answer.body),
{
    reveal_strlit("content-type");
    reveal_strlit("content-encoding");
    assert("content-type"@.len() != "content-encoding"@.len());
    let all = headers::folded_names(answer.headers);
    assert(all[0].0.len() == "content-type"@.len());
    let rest = all.drop_first();
    assert(params::lookup(rest, "content-encoding"@) is None);
}

/// What the player is told of a raw stream reads back as it was written.
proof fn lemma_opened_tree_is_plain(id: Seq<char>)
    ensures
        opened_tree(id).plain_object(),
{
    reveal_strlit("data");
    reveal_strlit("success");
    reveal_strlit("format");
    reveal_strlit("stream_id");
    assert("data"@[0] == 'd' && "success"@[0] == 's' && "format"@[0] == 'f' && "stream_id"@[0]
        == 's');
}

/// The answer that hands a raw stream to the player as if it were a remuxed one.
pub fn open_reply(id: &str) -> (response: Response)
    ensures
        response@ == opened_answer(id@),
        document_of(response@) == Some(opened_tree(id@)),
{
    let text = opened_document(id).text();
    proof {
        lemma_not_packed(opened_answer(id@));
        lemma_opened_tree_is_plain(id@);
    }
    text_response(200, "application/json; charset=\"UTF-8\"", text.as_str())
}

/// The line that is logged of an answer.
pub fn log_response(answer: &Buffered, document: &Option<Json>) -> (line: String)
    requires
        message::is_status(answer.status),
    ensures
        line@ == response_line(answer@, tree_of(*document)),
{
    let mut outcome = String::new();
    match document {
        Some(json) => {
            if json.member_is("success", true) {
                outcome = "ok".to_owned();
            } else {
                outcome = "error ".to_owned();
                outcome.append(json.member_text("error").as_str());
            }
        },
        None => {
            outcome = text::decimal(answer.body.len() as u64);
            outcome.append(" bytes, ");
            outcome.append(headers::header_text(&answer.headers, "content-type", "?").as_str());
        },
    }
    let mut line = "   ← ".to_owned();
    line.append(message::status_text(answer.status).as_str());
    line.append(" ");
    line.append(outcome.as_str());
    line
}

/// The line that is logged where Video Station cannot be reached.
pub fn upstream_error(reason: &str) -> (line: String)
    ensures
        line@ == "   !! upstream error: "@ + reason@,
{
    let mut line = "   !! upstream error: ".to_owned();
    line.append(reason);
    line
}

/// The request for a raw stream, made from one for a remuxed stream.
fn rewrite_open(call: Call) -> (changed: Call)
    ensures
        changed@ == raw_open_call(call@),
        carries_raw_open(changed@, call@),
{
    let query_method = in_query(call.method.as_str());
    let mut changed = call;
    if form_holds(changed.query.as_str().as_bytes(), "hls_remux") {
        changed.query = raw_open_form(changed.query.as_str().as_bytes());
    }
    if !query_method || in_body(&changed) && form_holds(changed.body.as_slice(), "hls_remux") {
        changed.body = raw_open_form(changed.body.as_slice()).as_str().as_bytes_vec();
    }
    changed
}

/// Goes on after the answer to `call`, which asks for a remuxed stream of `file`; `document` is
/// what the answer holds.
pub fn open_with_raw_fallback(
    call: Call,
    file: &str,
    first: Buffered,
    document: &Option<Json>,
) -> (turn: Turn)
    requires
        message::is_status(first.status),
    ensures
        turn.action@ == after_open(call@, first@, tree_of(*document)),
        lines_of(turn.log@) == open_lines(file@, first@, tree_of(*document)),
        refuses(tree_of(*document)) ==> carries_raw_open(turn.action@->Buffer_call, call@),
{
    let mut log: Vec<String> = Vec::new();
    if !is_refusal(document) {
        log.push(log_response(&first, document));
        assert(lines_of(log@) =~= open_lines(file@, first@, tree_of(*document)));
        return Turn { log, action: Action::Answer { response: first.into_response() } };
    }
    let mut line = "   ↳ hls_remux refused (1211) for file ".to_owned();
    line.append(file);
    line.append("; retrying as raw");
    log.push(line);
    assert(lines_of(log@) =~= open_lines(file@, first@, tree_of(*document)));
    let again = rewrite_open(call);
    Turn { log, action: Action::Buffer { call: again, wait: Wait::RawOpen { first } } }
}

/// Goes on after `second`, the answer to the request for a raw stream, where the request for a
/// remuxed one got `first`; `document` is what `second` holds.
pub fn finish_raw_open(
    first: Buffered,
    second: &Buffered,
    document: &Option<Json>,
    raw: &mut RawStreams,
) -> (turn: Turn)
    requires
        message::is_status(second.status),
    ensures
        turn.action@ == after_raw_open(first@, tree_of(*document)),
        lines_of(turn.log@) == raw_open_lines(second@, tree_of(*document)),
        final(raw)@ == (match opened_stream(tree_of(*document)) {
            Some(id) => old(raw)@.insert(id),
            None => old(raw)@,
        }),
        opened_stream(tree_of(*document)) matches Some(id) ==> document_of(
            turn.action@->response,
        ) == Some(opened_tree(id)),
{
    let mut log: Vec<String> = Vec::new();
    let json = match document {
        Some(json) => json,
        None => {
            log.push(log_response(second, document));
            assert(lines_of(log@) =~= raw_open_lines(second@, tree_of(*document)));
            return Turn { log, action: Action::Answer { response: first.into_response() } };
        },
    };
    let id = match opened_id(document) {
        Some(id) => id,
        None => {
            let mut line = "   ↳ raw open failed too: ".to_owned();
            line.append(json.text().as_str());
            log.push(line);
            assert(lines_of(log@) =~= raw_open_lines(second@, tree_of(*document)));
            return Turn { log, action: Action::Answer { response: first.into_response() } };
        },
    };
    let mut line = "   ↳ raw open ok: stream_id ".to_owned();
    line.append(id.as_str());
    line.append(" (");
    line.append(json.member_text("data").as_str());
    line.append(")");
    log.push(line);
    assert(lines_of(log@) =~= raw_open_lines(second@, tree_of(*document)));
    let response = open_reply(id.as_str());
    raw.insert(id);
    Turn { log, action: Action::Answer { response } }
}

/// What came of a request: the answer, or the reason why there is none.
pub open spec fn event_of(event: Result<Buffered, String>) -> Result<AnswerView, Seq<char>> {
    match event {
        Ok(answer) => Ok(answer@),
        Err(reason) => Err(reason@),
    }
}

/// Goes on after what was waited for: an answer of Video Station, or the reason why there is
/// none.
pub fn resume(wait: Wait, event: Result<Buffered, String>, raw: &mut RawStreams) -> (turn: Turn)
    requires
        event matches Ok(answer) ==> message::is_status(answer.status),
    ensures
        turn.action@ == resumed(wait@, event_of(event)),
        lines_of(turn.log@) == answer_lines(wait@, event_of(event)),
        final(raw)@ == streams_after_answer(wait@, event_of(event), old(raw)@),
        turn.action@ is Buffer ==> carries_raw_open(
            turn.action@->Buffer_call,
            wait@->Open_call,
        ),
        newly_opened(wait@, event_of(event)) matches Some(id) ==> document_of(
            turn.action@->response,
        ) == Some(opened_tree(id)),
{
    let answer = match event {
        Ok(answer) => answer,
        Err(reason) => {
            let mut log: Vec<String> = Vec::new();
            log.push(upstream_error(reason.as_str()));
            assert(lines_of(log@) =~= answer_lines(wait@, event_of(event)));
            return Turn { log, action: Action::Answer { response: bad_gateway(reason.as_str()) } };
        },
    };
    let document = decode_json(&answer.headers, &answer.body);
    assert(tree_of(document) == document_of(answer@));
    match wait {
        Wait::Api => {
            let mut log: Vec<String> = Vec::new();
            log.push(log_response(&answer, &document));
            assert(lines_of(log@) =~= answer_lines(wait@, event_of(event)));
            Turn { log, action: Action::Answer { response: answer.into_response() } }
        },
        Wait::Open { call, file } => open_with_raw_fallback(call, file.as_str(), answer, &document),
        Wait::RawOpen { first } => finish_raw_open(first, &answer, &document, raw),
    }
}

} // verus!
