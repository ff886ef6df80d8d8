//! What holds of the answers of Video Station: what is read from them, what the player gets, and
//! what is noted and logged.

use crate::headers;
use crate::json;
use crate::json::JsonTree;
use crate::message;
use crate::message::{AnswerView, CallView};
use crate::params;
use crate::proxy;
use crate::proxy::{ActionView, WaitView};
use crate::text;
use vstd::prelude::*;
use vstd::utf8::*;

verus! {

// ---------- headers ----------

/// Nine headers concern one connection only, in whatever capitals they are written, and no
/// others.
pub proof fn law_headers_of_the_connection(name: Seq<char>)
    ensures
        headers::is_hop_by_hop(name) <==> seq![
            "connection"@,
            "keep-alive"@,
            "proxy-authenticate"@,
            "proxy-authorization"@,
            "te"@,
            "trailer"@,
            "transfer-encoding"@,
            "upgrade"@,
            "content-length"@,
        ].contains(text::folded(name)),
{
    let names = seq![
        "connection"@,
        "keep-alive"@,
        "proxy-authenticate"@,
        "proxy-authorization"@,
        "te"@,
        "trailer"@,
        "transfer-encoding"@,
        "upgrade"@,
        "content-length"@,
    ];
    let folded = text::folded(name);
    if names.contains(folded) {
        let i = choose|i: int| 0 <= i < names.len() && names[i] == folded;
        assert(i == 0 || i == 1 || i == 2 || i == 3 || i == 4 || i == 5 || i == 6 || i == 7 || i
            == 8);
    }
    if headers::is_hop_by_hop(name) {
        assert(names[0] == folded || names[1] == folded || names[2] == folded || names[3] == folded
            || names[4] == folded || names[5] == folded || names[6] == folded || names[7] == folded
            || names[8] == folded);
    }
}

/// Headers are handed on one by one, in their order; those of the connection are left out.
pub proof fn law_headers_are_handed_on_one_by_one(
    all: Seq<(Seq<char>, Seq<u8>)>,
    header: (Seq<char>, Seq<u8>),
)
    ensures
        headers::end_to_end(Seq::empty()) == Seq::<(Seq<char>, Seq<u8>)>::empty(),
        headers::is_hop_by_hop(header.0) ==> headers::end_to_end(all.push(header))
            == headers::end_to_end(all),
        !headers::is_hop_by_hop(header.0) ==> headers::end_to_end(all.push(header))
            == headers::end_to_end(all).push(header),
{
    reveal(Seq::filter);
    assert(headers::end_to_end(Seq::empty()) =~= Seq::<(Seq<char>, Seq<u8>)>::empty());
    assert(all.push(header).drop_last() =~= all);
}

/// Whether the player gets an answer as it came: with its status, its body, and every header of it
/// that does not concern the connection, in its order, and no others.
pub open spec fn gets(response: AnswerView, answer: AnswerView) -> bool {
    &&& response.status == answer.status
    &&& response.body == answer.body
    &&& response.headers == headers::end_to_end(answer.headers)
    &&& forall|i: int|
        0 <= i < answer.headers.len() && !headers::is_hop_by_hop((#[trigger] answer.headers[i]).0)
            ==> response.headers.contains(answer.headers[i])
    &&& forall|i: int|
        0 <= i < response.headers.len() ==> !headers::is_hop_by_hop(
            (#[trigger] response.headers[i]).0,
        ) && answer.headers.contains(response.headers[i])
}

/// An answer that is handed on is the one that came.
proof fn lemma_relayed_as_it_came(answer: AnswerView)
    ensures
        gets(answer.relayed(), answer),
{
    let kept = |h: (Seq<char>, Seq<u8>)| !headers::is_hop_by_hop(h.0);
    let left = answer.relayed().headers;
    assert forall|i: int|
        0 <= i < answer.headers.len() && !headers::is_hop_by_hop(
            (#[trigger] answer.headers[i]).0,
        ) implies left.contains(answer.headers[i]) by {
        answer.headers.lemma_filter_contains(kept, i);
    }
    assert forall|i: int| 0 <= i < left.len() implies !headers::is_hop_by_hop((#[trigger] left[i]).0)
        && answer.headers.contains(left[i]) by {
        answer.headers.lemma_filter_pred(kept, i);
        assert(left.contains(left[i]));
        answer.headers.lemma_filter_contains_rev(kept, left[i]);
    }
}

// ---------- what answers say ----------

/// An answer is a refusal exactly where it is an object that says of success that it is false,
/// and of the error that its code is 1211.
pub proof fn law_refusals_say_1211(
    members: Map<Seq<char>, JsonTree>,
    error: Map<Seq<char>, JsonTree>,
    code: i64,
    digits: Seq<char>,
    document: Option<JsonTree>,
)
    ensures
        proxy::refuses(
            Some(
                JsonTree::Object(
                    members.insert("success"@, JsonTree::Bool(false)).insert(
                        "error"@,
                        JsonTree::Object(
                            error.insert(
                                "code"@,
                                JsonTree::Number { integer: Some(code), text: digits },
                            ),
                        ),
                    ),
                ),
            ),
        ) <==> code == 1211,
        proxy::refuses(document) ==> {
            &&& document matches Some(JsonTree::Object(found))
            &&& found.contains_key("success"@) && found["success"@] == JsonTree::Bool(false)
            &&& found.contains_key("error"@)
            &&& found["error"@] matches JsonTree::Object(inner)
            &&& inner.contains_key("code"@)
            &&& inner["code"@] matches JsonTree::Number { integer, .. }
            &&& integer == Some(1211i64)
        },
{
    reveal_strlit("success");
    reveal_strlit("error");
    assert("success"@.len() != "error"@.len());
}

/// An answer opens a stream exactly where it is an object that says of success that it is true,
/// and gives the id of the stream, a text, among its data.
pub proof fn law_opened_streams_have_an_id(
    members: Map<Seq<char>, JsonTree>,
    data: Map<Seq<char>, JsonTree>,
    success: bool,
    id: Seq<char>,
    document: Option<JsonTree>,
)
    ensures
        proxy::opened_stream(
            Some(
                JsonTree::Object(
                    members.insert("success"@, JsonTree::Bool(success)).insert(
                        "data"@,
                        JsonTree::Object(data.insert("stream_id"@, JsonTree::Str(id))),
                    ),
                ),
            ),
        ) == (if success {
            Some(id)
        } else {
            None
        }),
        proxy::opened_stream(document) matches Some(opened) ==> {
            &&& document matches Some(JsonTree::Object(found))
            &&& found.contains_key("success"@) && found["success"@] == JsonTree::Bool(true)
            &&& found.contains_key("data"@)
            &&& found["data"@] matches JsonTree::Object(inner)
            &&& inner.contains_key("stream_id"@) && inner["stream_id"@] == JsonTree::Str(opened)
        },
{
    reveal_strlit("success");
    reveal_strlit("data");
    assert("success"@.len() != "data"@.len());
}

// ---------- what the player gets ----------

/// The player gets the answer to a call of the interface as it came, whatever it holds, and no
/// stream is noted.
pub proof fn law_answers_to_calls_are_handed_on(answer: AnswerView, raw: Set<Seq<char>>)
    ensures
        proxy::resumed(WaitView::Api, Ok(answer)) matches ActionView::Answer { response } && gets(
            response,
            answer,
        ),
        proxy::streams_after_answer(WaitView::Api, Ok(answer), raw) == raw,
{
    lemma_relayed_as_it_came(answer);
}

/// The player gets the answer to a request for a remuxed stream as it came, unless it is a
/// refusal; no stream is noted in either case.
pub proof fn law_other_answers_to_opens_are_handed_on(
    call: CallView,
    file: Seq<char>,
    answer: AnswerView,
    document: Option<JsonTree>,
    raw: Set<Seq<char>>,
)
    ensures
        !proxy::refuses(document) ==> (proxy::after_open(
            call,
            answer,
            document,
        ) matches ActionView::Answer { response } && gets(response, answer)),
        !proxy::refuses(message::body_json(answer.headers, answer.body)) ==> (proxy::resumed(
            WaitView::Open { call, file },
            Ok(answer),
        ) matches ActionView::Answer { response } && gets(response, answer)),
        proxy::refuses(document) ==> (proxy::after_open(
            call,
            answer,
            document,
        ) matches ActionView::Buffer { wait, .. } && wait == (WaitView::RawOpen {
            first: answer,
        })),
        proxy::streams_after_answer(WaitView::Open { call, file }, Ok(answer), raw) == raw,
{
    lemma_relayed_as_it_came(answer);
}

/// What is asked for after a refusal depends on the request and on nothing in the refusal.
pub proof fn law_retries_depend_on_the_request(
    call: CallView,
    file: Seq<char>,
    one: AnswerView,
    two: AnswerView,
    document: Option<JsonTree>,
)
    requires
        proxy::refuses(message::body_json(one.headers, one.body)),
        proxy::refuses(document),
    ensures
        proxy::sent_call(proxy::resumed(WaitView::Open { call, file }, Ok(one)))
            == proxy::sent_call(proxy::after_open(call, two, document)),
{
}

/// Where the raw stream was opened, the player is told so as of a remuxed stream, in a document
/// that says no more than that and the id; and the stream is noted.
pub proof fn law_raw_streams_are_handed_over(
    first: AnswerView,
    second: AnswerView,
    document: Option<JsonTree>,
    id: Seq<char>,
    raw: Set<Seq<char>>,
)
    requires
        proxy::opened_stream(document) == Some(id),
    ensures
        proxy::after_raw_open(first, document) matches ActionView::Answer { response } && {
            &&& response.status == 200
            &&& response.headers == seq![
                ("content-type"@, encode_utf8("application/json; charset=\"UTF-8\""@)),
            ]
            &&& response.body == encode_utf8(
                json::json_text(
                    JsonTree::Object(
                        Map::empty().insert("success"@, JsonTree::Bool(true)).insert(
                            "data"@,
                            JsonTree::Object(
                                Map::empty().insert("stream_id"@, JsonTree::Str(id)).insert(
                                    "format"@,
                                    JsonTree::Str("hls_remux"@),
                                ),
                            ),
                        ),
                    ),
                ),
            )
        },
        message::body_json(second.headers, second.body) == document ==> proxy::resumed(
            WaitView::RawOpen { first },
            Ok(second),
        ) == proxy::after_raw_open(first, document) && proxy::streams_after_answer(
            WaitView::RawOpen { first },
            Ok(second),
            raw,
        ) == raw.insert(id),
{
    reveal_strlit("success");
    reveal_strlit("data");
    reveal_strlit("stream_id");
    reveal_strlit("format");
    assert("success"@.len() != "data"@.len());
    assert("stream_id"@.len() != "format"@.len());
    let inner = Map::<Seq<char>, JsonTree>::empty().insert("stream_id"@, JsonTree::Str(id)).insert(
        "format"@,
        JsonTree::Str("hls_remux"@),
    );
    let outer = Map::<Seq<char>, JsonTree>::empty().insert(
        "success"@,
        JsonTree::Bool(true),
    ).insert("data"@, JsonTree::Object(inner));
    assert(proxy::opened_tree(id).member("data"@)->Object_0 =~= inner);
    assert(proxy::opened_tree(id)->Object_0 =~= outer);
}

/// Where the raw stream was not opened, the player gets the refusal as it came, and no stream is
/// noted.
pub proof fn law_first_refusal_is_handed_on(
    first: AnswerView,
    second: AnswerView,
    document: Option<JsonTree>,
    raw: Set<Seq<char>>,
)
    requires
        proxy::opened_stream(document) is None,
    ensures
        proxy::after_raw_open(first, document) matches ActionView::Answer { response } && gets(
            response,
            first,
        ),
        message::body_json(second.headers, second.body) == document ==> (proxy::resumed(
            WaitView::RawOpen { first },
            Ok(second),
        ) matches ActionView::Answer { response } && gets(response, first))
            && proxy::streams_after_answer(WaitView::RawOpen { first }, Ok(second), raw) == raw,
{
    lemma_relayed_as_it_came(first);
}

/// Where Video Station cannot be reached, whatever was waited for, the player gets the status
/// 502 and the reason in plain text, and no stream is noted. Any answer of the proxy itself is
/// of that form.
pub proof fn law_failures_are_told(
    wait: WaitView,
    reason: Seq<char>,
    raw: Set<Seq<char>>,
    status: u16,
)
    ensures
        proxy::resumed(wait, Err(reason)) matches ActionView::Answer { response } && {
            &&& response.status == 502
            &&& response.headers == seq![
                ("content-type"@, encode_utf8("text/plain; charset=utf-8"@)),
            ]
            &&& response.body == encode_utf8(reason)
        },
        proxy::streams_after_answer(wait, Err(reason), raw) == raw,
        message::plain_answer(status, reason).status == status,
        message::plain_answer(status, reason).headers == seq![
            ("content-type"@, encode_utf8("text/plain; charset=utf-8"@)),
        ],
        message::plain_answer(status, reason).body == encode_utf8(reason),
{
}

/// A number is a status exactly where it has three digits.
pub proof fn law_statuses_have_three_digits(status: u16)
    ensures
        message::is_status(status) <==> text::decimal_digits(status as nat).len() == 3,
{
    reveal_with_fuel(text::decimal_digits, 6);
}

// ---------- from the request to the stream ----------

/// A file that Video Station refuses to remux but opens in raw mode is played raw: the player's
/// request for a remuxed stream ends in an answer that gives the id of the raw stream, and when
/// the player fetches that stream, by a `GET` in whatever quotation marks, the original file is
/// asked for, in raw format, with the headers of that fetch.
pub proof fn law_refused_files_are_played_raw(
    open: CallView,
    asked: Seq<params::Pair>,
    raw: Set<Seq<char>>,
    refusal: AnswerView,
    opened: AnswerView,
    quoted: Seq<char>,
    fetch: CallView,
    wanted: Seq<params::Pair>,
)
    requires
        params::lookup(asked, "api"@) == Some("SYNO.VideoStation2.Streaming"@),
        params::lookup(asked, "method"@) == Some("open"@),
        params::lookup(asked, "hls_remux"@) is Some,
        proxy::refuses(message::body_json(refusal.headers, refusal.body)),
        proxy::opened_stream(message::body_json(opened.headers, opened.body)) == Some(
            params::unquoted(quoted),
        ),
        fetch.method == "GET"@,
        "/webapi/VideoStation/vtestreaming.cgi"@.is_prefix_of(fetch.path),
        params::lookup(wanted, "method"@) == Some("stream"@),
        params::lookup(wanted, "id"@) == Some(quoted),
    ensures
        proxy::routed(open, asked, raw) matches ActionView::Buffer { call: sent, wait } && {
            &&& sent == open
            &&& proxy::streams_after_answer(wait, Ok(refusal), raw) == raw
            &&& proxy::resumed(wait, Ok(refusal)) matches ActionView::Buffer { wait: next, .. }
            &&& proxy::resumed(next, Ok(opened)) matches ActionView::Answer { response }
            &&& response.status == 200
            &&& response.body == encode_utf8(
                json::json_text(proxy::opened_tree(params::unquoted(quoted))),
            )
            &&& proxy::routed(
                fetch,
                wanted,
                proxy::streams_after_answer(next, Ok(opened), raw),
            ) matches ActionView::Stream { call: served }
            &&& served.method == fetch.method
            &&& served.path == "/webapi/VideoStation/vtestreaming.cgi/1.mp4"@
            &&& served.query == params::form_text(
                params::with_param(
                    params::parsed_form(encode_utf8(fetch.query)),
                    "format"@,
                    "raw"@,
                ),
            )
            &&& served.headers == fetch.headers
        },
{
    reveal_strlit("stream");
    reveal_strlit("open");
    assert("stream"@.len() != "open"@.len());
}

// ---------- what is logged of answers ----------

/// What is logged of an answer tells its status, and that the call went well, or the error that
/// its document gives, or else the length and the type of its body.
pub proof fn law_outcomes_in_words(answer: AnswerView, document: JsonTree)
    ensures
        document.member("success"@) == JsonTree::Bool(true) ==> proxy::response_line(
            answer,
            Some(document),
        ) == "   ← "@ + message::status_words(answer.status) + " "@ + "ok"@,
        document.member("success"@) != JsonTree::Bool(true) ==> proxy::response_line(
            answer,
            Some(document),
        ) == "   ← "@ + message::status_words(answer.status) + " "@ + ("error "@ + json::json_text(
            document.member("error"@),
        )),
        proxy::response_line(answer, None) == "   ← "@ + message::status_words(answer.status)
            + " "@ + (text::decimal_digits(answer.body.len()) + " bytes, "@ + headers::text_or(
            answer.headers,
            "content-type"@,
            "?"@,
        )),
{
}

/// One line is logged of each answer. After a refusal it names the file; of a raw stream that
/// was opened it gives the id and the data; of one that was not, the document. In any other case
/// it tells the outcome.
pub proof fn law_answers_in_the_log(
    call: CallView,
    file: Seq<char>,
    first: AnswerView,
    answer: AnswerView,
    document: Option<JsonTree>,
    reason: Seq<char>,
    wait: WaitView,
)
    ensures
        proxy::open_lines(file, answer, document) == (if proxy::refuses(document) {
            seq!["   ↳ hls_remux refused (1211) for file "@ + file + "; retrying as raw"@]
        } else {
            seq![proxy::response_line(answer, document)]
        }),
        document is None ==> proxy::raw_open_lines(answer, document) == seq![
            proxy::response_line(answer, document),
        ],
        document matches Some(tree) ==> proxy::raw_open_lines(answer, document) == seq![
            if proxy::opened_stream(document) is Some {
                "   ↳ raw open ok: stream_id "@ + proxy::opened_stream(document)->0 + " ("@
                    + json::json_text(tree.member("data"@)) + ")"@
            } else {
                "   ↳ raw open failed too: "@ + json::json_text(tree)
            },
        ],
        ({
            let held = message::body_json(answer.headers, answer.body);
            &&& proxy::answer_lines(WaitView::Api, Ok(answer)) == seq![
                proxy::response_line(answer, held),
            ]
            &&& proxy::answer_lines(WaitView::Open { call, file }, Ok(answer))
                == proxy::open_lines(file, answer, held)
            &&& proxy::answer_lines(WaitView::RawOpen { first }, Ok(answer))
                == proxy::raw_open_lines(answer, held)
        }),
        proxy::answer_lines(wait, Err(reason)) == seq!["   !! upstream error: "@ + reason],
{
}

} // verus!
