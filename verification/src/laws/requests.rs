//! What holds of the player's requests: which of them are changed, how, and what is waited for.

use crate::headers;
use crate::json;
use crate::message;
use crate::message::{AnswerView, Buffered, Call, CallView, Response};
use crate::params;
use crate::proxy;
use crate::proxy::{Action, ActionView, Wait, WaitView};
use crate::text;
use vstd::prelude::*;
use vstd::utf8::*;

verus! {

/// Every part of a request is kept in what it holds, and so is every part of an answer.
pub proof fn law_messages_hold_their_parts(call: Call, answer: Buffered, response: Response)
    ensures
        call@.method == call.method@,
        call@.path == call.path@,
        call@.query == call.query@,
        call@.headers.len() == call.headers.len(),
        forall|i: int|
            0 <= i < call.headers.len() ==> #[trigger] call@.headers[i] == (
                call.headers[i].name@,
                call.headers[i].value@,
            ),
        call@.body == call.body@,
        answer@.status == answer.status,
        answer@.headers == headers::headers_of(answer.headers@),
        answer@.body == answer.body@,
        response@.status == response.status,
        response@.headers == headers::headers_of(response.headers@),
        response@.body == response.body@,
{
}

/// What is to be done holds the request or the answer that it is about, and what is waited for
/// holds what it was made of. A request that is sent is the one that an action holds.
pub proof fn law_actions_hold_their_parts(
    call: Call,
    kept: Call,
    file: String,
    first: Buffered,
    wait: Wait,
    response: Response,
)
    ensures
        (Action::Buffer { call, wait })@ == (ActionView::Buffer { call: call@, wait: wait@ }),
        (Action::Stream { call })@ == (ActionView::Stream { call: call@ }),
        (Action::Answer { response })@ == (ActionView::Answer { response: response@ }),
        Wait::Api@ == WaitView::Api,
        (Wait::Open { call: kept, file })@ == (WaitView::Open { call: kept@, file: file@ }),
        (Wait::RawOpen { first })@ == (WaitView::RawOpen { first: first@ }),
        proxy::sent_call(ActionView::Buffer { call: call@, wait: wait@ }) == Some(call@),
        proxy::sent_call(ActionView::Stream { call: call@ }) == Some(call@),
        proxy::sent_call(ActionView::Answer { response: response@ }) is None,
{
}

/// What came of a request is taken as it came, and so is a document.
pub proof fn law_events_hold_their_parts(answer: Buffered, reason: String, document: json::Json)
    ensures
        proxy::event_of(Ok(answer)) == Ok::<AnswerView, Seq<char>>(answer@),
        proxy::event_of(Err(reason)) == Err::<AnswerView, Seq<char>>(reason@),
        proxy::tree_of(Some(document)) == Some(document@),
        proxy::tree_of(None) is None,
{
}

/// The address of a request is that of Video Station and its path, and its query behind a
/// question mark if there is one.
pub proof fn law_addresses(upstream: Seq<char>, path: Seq<char>, c: char, query: Seq<char>)
    ensures
        message::address(upstream, path, Seq::empty()) == upstream + path,
        message::address(upstream, path, seq![c] + query) == upstream + path + seq!['?', c] + query,
{
    reveal_strlit("?");
    assert(upstream + path + "?"@ + (seq![c] + query) =~= upstream + path + seq!['?', c] + query);
}

// ---------- requests for a remuxed stream ----------

/// A request that asks for a remuxed stream is sent as it is, and all of it is kept for the time
/// when Video Station answers, with the file that it names.
pub proof fn law_opens_are_sent_and_kept_whole(
    call: CallView,
    pairs: Seq<params::Pair>,
    raw: Set<Seq<char>>,
)
    requires
        params::lookup(pairs, "api"@) == Some("SYNO.VideoStation2.Streaming"@),
        params::lookup(pairs, "method"@) == Some("open"@),
        params::lookup(pairs, "hls_remux"@) is Some,
    ensures
        proxy::routed(call, pairs, raw) matches ActionView::Buffer {
            call: sent,
            wait: WaitView::Open { call: kept, file },
        } && {
            &&& sent == call
            &&& kept.method == call.method
            &&& kept.path == call.path
            &&& kept.query == call.query
            &&& kept.headers == call.headers
            &&& kept.body == call.body
            &&& params::lookup(pairs, "file"@) matches Some(named) ==> file == named
            &&& params::lookup(pairs, "file"@) is None ==> file == "?"@
        },
        proxy::streams_after_request(call, pairs, raw) == raw,
{
    proxy::lemma_open_is_no_stream(call, pairs, raw);
}

/// No other request is waited for in that way, and none is waited for as if it had been refused
/// already.
pub proof fn law_only_opens_are_watched(
    call: CallView,
    pairs: Seq<params::Pair>,
    raw: Set<Seq<char>>,
)
    ensures
        (proxy::routed(call, pairs, raw) matches ActionView::Buffer {
            wait: WaitView::Open { .. },
            ..
        }) ==> {
            &&& params::lookup(pairs, "api"@) == Some("SYNO.VideoStation2.Streaming"@)
            &&& params::lookup(pairs, "method"@) == Some("open"@)
            &&& params::lookup(pairs, "hls_remux"@) is Some
        },
        !(proxy::routed(call, pairs, raw) matches ActionView::Buffer {
            wait: WaitView::RawOpen { .. },
            ..
        }),
        proxy::routed(call, pairs, raw) !is Answer,
{
}

/// After a refusal the player's own request is made again: its method, its path and all its
/// headers are those that the player sent. In the query, `raw={}` stands in place of `hls_remux`
/// if that was there; in the body likewise, where `raw={}` is added in any case unless the method
/// is `GET` or `HEAD`, and nothing is changed for these two where no form is announced.
pub proof fn law_refused_opens_are_sent_again(
    call: CallView,
    pairs: Seq<params::Pair>,
    raw: Set<Seq<char>>,
    refusal: AnswerView,
)
    requires
        params::lookup(pairs, "api"@) == Some("SYNO.VideoStation2.Streaming"@),
        params::lookup(pairs, "method"@) == Some("open"@),
        params::lookup(pairs, "hls_remux"@) is Some,
        proxy::refuses(message::body_json(refusal.headers, refusal.body)),
    ensures
        proxy::routed(call, pairs, raw) matches ActionView::Buffer { wait, .. } && proxy::resumed(
            wait,
            Ok(refusal),
        ) matches ActionView::Buffer { call: again, wait: next } && {
            let in_query = params::parsed_form(encode_utf8(call.query));
            let in_body = params::parsed_form(call.body);
            let bodiless = call.method == "GET"@ || call.method == "HEAD"@;
            &&& again.method == call.method
            &&& again.path == call.path
            &&& again.headers == call.headers
            &&& params::lookup(in_query, "hls_remux"@) is Some ==> again.query
                == params::form_text(params::without(in_query, "hls_remux"@).push(("raw"@, "{}"@)))
            &&& params::lookup(in_query, "hls_remux"@) is None ==> again.query == call.query
            &&& !bodiless || params::announces_form(call.headers) && params::lookup(
                in_body,
                "hls_remux"@,
            ) is Some ==> again.body == encode_utf8(
                params::form_text(params::without(in_body, "hls_remux"@).push(("raw"@, "{}"@))),
            )
            &&& bodiless && (!params::announces_form(call.headers) || params::lookup(
                in_body,
                "hls_remux"@,
            ) is None) ==> again.body == call.body
            &&& next matches WaitView::RawOpen { first } && first == refusal
        },
{
}

// ---------- requests about a stream ----------

/// A request about a stream that is not noted as a raw one is sent just as it came, and so is one
/// that names no stream: what Video Station remuxes itself is left to it.
pub proof fn law_streams_that_are_not_noted_pass(
    call: CallView,
    pairs: Seq<params::Pair>,
    raw: Set<Seq<char>>,
)
    requires
        params::lookup(pairs, "id"@) matches Some(id) ==> !raw.contains(params::unquoted(id)),
    ensures
        match proxy::routed(call, pairs, raw) {
            ActionView::Buffer { call: sent, .. } => sent == call,
            ActionView::Stream { call: sent } => sent == call,
            ActionView::Answer { .. } => false,
        },
        proxy::streams_after_request(call, pairs, raw) == raw,
{
}

/// Nor is a request changed that goes to another place, or neither fetches nor closes a stream.
pub proof fn law_other_requests_pass(
    call: CallView,
    pairs: Seq<params::Pair>,
    raw: Set<Seq<char>>,
)
    requires
        !"/webapi/VideoStation/vtestreaming.cgi"@.is_prefix_of(call.path) || (params::lookup(
            pairs,
            "method"@,
        ) != Some("stream"@) && params::lookup(pairs, "method"@) != Some("close"@)),
    ensures
        match proxy::routed(call, pairs, raw) {
            ActionView::Buffer { call: sent, .. } => sent == call,
            ActionView::Stream { call: sent } => sent == call,
            ActionView::Answer { .. } => false,
        },
        proxy::streams_after_request(call, pairs, raw) == raw,
{
}

/// A request that fetches or closes a raw stream is sent with the format raw: in the query for
/// `GET` and `HEAD`, or else in the body, and in the other part where a format stood there and
/// the part is a form. The method and the headers stay; the path stays too, but for a fetch,
/// which is for the original file. A close forgets the stream, a fetch does not.
pub proof fn law_noted_streams_are_asked_for_raw(
    call: CallView,
    pairs: Seq<params::Pair>,
    raw: Set<Seq<char>>,
    id: Seq<char>,
)
    requires
        "/webapi/VideoStation/vtestreaming.cgi"@.is_prefix_of(call.path),
        params::lookup(pairs, "id"@) == Some(id),
        raw.contains(params::unquoted(id)),
        params::lookup(pairs, "method"@) == Some("stream"@) || params::lookup(pairs, "method"@)
            == Some("close"@),
    ensures
        ({
            let fetch = params::lookup(pairs, "method"@) == Some("stream"@);
            let sent = match proxy::routed(call, pairs, raw) {
                ActionView::Buffer { call: sent, .. } => sent,
                ActionView::Stream { call: sent } => sent,
                ActionView::Answer { .. } => call,
            };
            let in_query = params::parsed_form(encode_utf8(call.query));
            let in_body = params::parsed_form(encode_utf8(text::lossy_text(call.body)));
            let bodiless = call.method == "GET"@ || call.method == "HEAD"@;
            let query_too = params::lookup(in_query, "format"@) is Some;
            let body_too = params::announces_form(call.headers) && params::lookup(
                params::parsed_form(call.body),
                "format"@,
            ) is Some;
            &&& sent.method == call.method
            &&& sent.headers == call.headers
            &&& sent.path == (if fetch {
                "/webapi/VideoStation/vtestreaming.cgi/1.mp4"@
            } else {
                call.path
            })
            &&& sent.query == (if bodiless || query_too {
                params::form_text(params::with_param(in_query, "format"@, "raw"@))
            } else {
                call.query
            })
            &&& sent.body == (if !bodiless || body_too {
                encode_utf8(params::form_text(params::with_param(in_body, "format"@, "raw"@)))
            } else {
                call.body
            })
            &&& fetch ==> proxy::streams_after_request(call, pairs, raw) == raw
            &&& !fetch ==> proxy::streams_after_request(call, pairs, raw) == raw.remove(
                params::unquoted(id),
            )
        }),
{
    proxy::lemma_open_is_no_stream(call, pairs, raw);
    reveal_strlit("stream");
    reveal_strlit("close");
    assert("stream"@.len() != "close"@.len());
}

/// Whatever is sent in place of a request has the method and all the headers of that request.
pub proof fn law_headers_go_with_their_request(
    call: CallView,
    pairs: Seq<params::Pair>,
    raw: Set<Seq<char>>,
)
    ensures
        match proxy::routed(call, pairs, raw) {
            ActionView::Buffer { call: sent, .. } => sent.headers == call.headers && sent.method
                == call.method,
            ActionView::Stream { call: sent } => sent.headers == call.headers && sent.method
                == call.method,
            ActionView::Answer { .. } => false,
        },
{
}

/// Apart from requests for a remuxed stream, those are waited for whose path starts with
/// `/webapi/`, that do not fetch a stream, and that do not go below `vtestreaming.cgi`; all
/// others are handed through as they arrive.
pub proof fn law_calls_of_the_interface_are_waited_for(
    call: CallView,
    pairs: Seq<params::Pair>,
    raw: Set<Seq<char>>,
)
    requires
        params::lookup(pairs, "api"@) != Some("SYNO.VideoStation2.Streaming"@) || params::lookup(
            pairs,
            "method"@,
        ) != Some("open"@) || params::lookup(pairs, "hls_remux"@) is None,
    ensures
        ("/webapi/"@.is_prefix_of(call.path) && params::lookup(pairs, "method"@) != Some("stream"@)
            && !text::occurs(call.path, "vtestreaming.cgi/"@)) ==> (proxy::routed(
            call,
            pairs,
            raw,
        ) matches ActionView::Buffer { wait, .. } && wait == WaitView::Api),
        !("/webapi/"@.is_prefix_of(call.path) && params::lookup(pairs, "method"@) != Some(
            "stream"@,
        ) && !text::occurs(call.path, "vtestreaming.cgi/"@)) ==> proxy::routed(call, pairs, raw)
            is Stream,
{
}

// ---------- what is logged of requests ----------

/// The first value under a name; an empty text where there is none.
pub open spec fn first_value(pairs: Seq<params::Pair>, key: Seq<char>) -> Seq<char> {
    if params::lookup(pairs, key) is Some {
        params::lookup(pairs, key)->0
    } else {
        Seq::empty()
    }
}

/// A request that names an interface, or whose path starts with `/webapi`, is logged in a line
/// that gives its method, its path, the parameters that tell what it is for, and the fragment
/// that it asks for if it asks for one. Of any other request nothing is logged.
pub proof fn law_request_lines(call: CallView, pairs: Seq<params::Pair>, raw: Set<Seq<char>>)
    requires
        params::lookup(pairs, "id"@) matches Some(id) ==> !raw.contains(params::unquoted(id)),
    ensures
        ({
            let told = call.method + " "@ + call.path + " api="@ + first_value(pairs, "api"@)
                + " method="@ + first_value(pairs, "method"@) + " format="@ + first_value(
                pairs,
                "format"@,
            ) + " id="@ + params::unquoted(first_value(pairs, "id"@));
            let lines = proxy::request_lines(call, pairs, raw);
            if first_value(pairs, "api"@).len() > 0 || "/webapi"@.is_prefix_of(call.path) {
                match params::lookup(pairs, "fragment_id"@) {
                    Some(fragment) => lines == seq![
                        told + (" frag="@ + params::unquoted(fragment)),
                    ],
                    None => lines == seq![told],
                }
            } else {
                lines.len() == 0
            }
        }),
{
    let told = call.method + " "@ + call.path + " api="@ + first_value(pairs, "api"@) + " method="@
        + first_value(pairs, "method"@) + " format="@ + first_value(pairs, "format"@) + " id="@
        + params::unquoted(first_value(pairs, "id"@));
    assert(told + Seq::empty() =~= told);
}

/// Of a request that fetches or closes a raw stream, the same is logged as if the stream were
/// not a raw one, and one more line that says what was asked for, and of which stream.
pub proof fn law_raw_requests_are_logged(
    call: CallView,
    pairs: Seq<params::Pair>,
    raw: Set<Seq<char>>,
    id: Seq<char>,
)
    requires
        "/webapi/VideoStation/vtestreaming.cgi"@.is_prefix_of(call.path),
        params::lookup(pairs, "id"@) == Some(id),
        raw.contains(params::unquoted(id)),
        params::lookup(pairs, "method"@) == Some("stream"@) || params::lookup(pairs, "method"@)
            == Some("close"@),
    ensures
        proxy::request_lines(call, pairs, raw) == proxy::request_lines(
            call,
            pairs,
            Set::empty(),
        ).push(
            "   ↳ raw passthrough: "@ + first_value(pairs, "method"@) + " "@ + params::unquoted(id),
        ),
{
}

/// What is logged of a request does not depend on the raw streams, unless it fetches or closes
/// one of them.
pub proof fn law_other_requests_are_logged_alike(
    call: CallView,
    pairs: Seq<params::Pair>,
    raw: Set<Seq<char>>,
)
    requires
        !"/webapi/VideoStation/vtestreaming.cgi"@.is_prefix_of(call.path) || (params::lookup(
            pairs,
            "method"@,
        ) != Some("stream"@) && params::lookup(pairs, "method"@) != Some("close"@)),
    ensures
        proxy::request_lines(call, pairs, raw) == proxy::request_lines(call, pairs, Set::empty()),
{
}

} // verus!
