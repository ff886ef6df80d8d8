//! What holds of the results of the library's functions: each law speaks of any call of a
//! function, or of several in turn, and of what came back.

use crate::headers;
use crate::headers::Header;
use crate::json;
use crate::json::{Json, JsonTree};
use crate::message;
use crate::message::{Buffered, Call, Outgoing, Response};
use crate::params;
use crate::proxy;
use crate::proxy::{Action, Turn, Wait};
use crate::selftest;
use crate::streams::RawStreams;
use crate::text;
use vstd::prelude::*;
use vstd::utf8::*;

verus! {

// ---------- reading ----------

/// The parameter that is found is the first of its name.
pub proof fn law_param_finds_the_first(
    list: &[(String, String)],
    key: &str,
    value: Option<&str>,
    i: int,
)
    requires
        call_ensures(params::param, (list, key), value),
    ensures
        0 <= i < list@.len() && list@[i].0@ == key@ && (forall|j: int|
            0 <= j < i ==> (#[trigger] list@[j]).0@ != key@) ==> (value matches Some(found)
            && found@ == list@[i].1@),
        (forall|j: int| 0 <= j < list@.len() ==> (#[trigger] list@[j]).0@ != key@) ==> value
            is None,
{
    let pairs = params::pairs_of(list@);
    assert forall|j: int| 0 <= j < pairs.len() implies (#[trigger] pairs[j]) == (
        list@[j].0@,
        list@[j].1@,
    ) by {}
    if 0 <= i < list@.len() && list@[i].0@ == key@ && (forall|j: int|
        0 <= j < i ==> (#[trigger] list@[j]).0@ != key@) {
        let before = pairs.take(i);
        assert forall|j: int| 0 <= j < before.len() implies (#[trigger] before[j]).0 != key@ by {
            assert(before[j].0 == list@[j].0@);
        }
        super::reading::law_first_entry_is_found(before, key@, pairs[i].1, pairs.skip(i + 1));
        assert(before + seq![(key@, pairs[i].1)] + pairs.skip(i + 1) =~= pairs);
    }
    if forall|j: int| 0 <= j < list@.len() ==> (#[trigger] list@[j]).0@ != key@ {
        params::lemma_lookup_is_some(pairs, key@);
    }
}

/// The header that is found is the first of its name, in whatever capitals that is written.
pub proof fn law_header_finds_the_first(
    list: &Vec<Header>,
    name: &str,
    value: Option<&[u8]>,
    i: int,
)
    requires
        call_ensures(headers::header, (list, name), value),
        0 <= i < list.len(),
        text::folded(list[i].name@) == name@,
        forall|j: int| 0 <= j < i ==> text::folded((#[trigger] list[j]).name@) != name@,
    ensures
        value matches Some(found) && found@ == list[i].value@,
{
    let all = headers::headers_of(list@);
    let before = all.take(i);
    assert forall|j: int| 0 <= j < before.len() implies text::folded((#[trigger] before[j]).0)
        != name@ by {
        assert(before[j].0 == list[j].name@);
    }
    super::reading::law_headers_are_found_wherever_they_stand(
        before,
        all[i],
        all.skip(i + 1),
        name@,
    );
    assert(before + seq![all[i]] + all.skip(i + 1) =~= all);
}

/// A form is announced exactly where the first content type starts with
/// `application/x-www-form-urlencoded` and is plain text, whatever headers stand around it.
pub proof fn law_is_form_reads_the_content_type(list: &Vec<Header>, found: bool, i: int)
    requires
        call_ensures(params::is_form, (list,), found),
        0 <= i < list.len(),
        text::folded(list[i].name@) == "content-type"@,
        forall|j: int|
            0 <= j < i ==> text::folded((#[trigger] list[j]).name@) != "content-type"@,
    ensures
        found <==> {
            &&& forall|k: int|
                0 <= k < list[i].value@.len() ==> (32 <= #[trigger] list[i].value@[k] <= 126
                    || list[i].value@[k] == 9)
            &&& list[i].value@.len() >= "application/x-www-form-urlencoded"@.len()
            &&& forall|k: int|
                0 <= k < "application/x-www-form-urlencoded"@.len() ==> (
                #[trigger] list[i].value@[k]) as int
                    == "application/x-www-form-urlencoded"@[k] as int
        },
{
    let all = headers::headers_of(list@);
    let before = all.take(i);
    assert forall|j: int| 0 <= j < before.len() implies text::folded((#[trigger] before[j]).0)
        != "content-type"@ by {
        assert(before[j].0 == list[j].name@);
    }
    super::reading::law_content_type_announces_a_form(before, all[i], all.skip(i + 1));
    assert(before + seq![all[i]] + all.skip(i + 1) =~= all);
}

/// Without a content type no form is announced.
pub proof fn law_is_form_needs_a_content_type(list: &Vec<Header>, found: bool)
    requires
        call_ensures(params::is_form, (list,), found),
        forall|j: int|
            0 <= j < list.len() ==> text::folded((#[trigger] list[j]).name@) != "content-type"@,
    ensures
        !found,
{
    let all = headers::headers_of(list@);
    assert forall|j: int| 0 <= j < all.len() implies text::folded((#[trigger] all[j]).0)
        != "content-type"@ by {
        assert(all[j].0 == list[j].name@);
    }
    let folded = headers::folded_names(all);
    assert forall|j: int| 0 <= j < folded.len() implies (#[trigger] folded[j]).0
        != "content-type"@ by {
        assert(folded[j].0 == text::folded(all[j].0));
    }
    params::lemma_lookup_is_some(folded, "content-type"@);
}

/// The parameters of a request are all those of its query, and behind them all those of its body
/// exactly where a form is announced.
pub proof fn law_merged_params_joins_query_and_form(
    query: &str,
    list: &Vec<Header>,
    body: &[u8],
    merged: Vec<(String, String)>,
    form: bool,
)
    requires
        call_ensures(params::merged_params, (query, list, body), merged),
        call_ensures(params::is_form, (list,), form),
    ensures
        form ==> params::pairs_of(merged@) == params::parsed_form(encode_utf8(query@))
            + params::parsed_form(body@),
        !form ==> params::pairs_of(merged@) == params::parsed_form(encode_utf8(query@)),
{
}

/// What is read from a packed answer is the document of what it unpacks to, wherever the content
/// encoding stands among the headers; what is read from any other is that of its body.
pub proof fn law_decode_json_unpacks(
    list: &Vec<Header>,
    body: &Vec<u8>,
    document: Option<Json>,
    i: int,
)
    requires
        call_ensures(message::decode_json, (list, body), document),
        0 <= i < list.len(),
        text::folded(list[i].name@) == "content-encoding"@,
        forall|j: int|
            0 <= j < i ==> text::folded((#[trigger] list[j]).name@) != "content-encoding"@,
    ensures
        super::reading::is_gzip(list[i].value@) ==> proxy::tree_of(document)
            == super::reading::document_in(message::unpacked(body@)),
        !super::reading::is_gzip(list[i].value@) ==> proxy::tree_of(document)
            == super::reading::document_in(Some(body@)),
{
    let all = headers::headers_of(list@);
    let before = all.take(i);
    assert forall|j: int| 0 <= j < before.len() implies text::folded((#[trigger] before[j]).0)
        != "content-encoding"@ by {
        assert(before[j].0 == list[j].name@);
    }
    super::reading::law_packed_documents_are_read(before, all[i], all.skip(i + 1), body@);
    assert(before + seq![all[i]] + all.skip(i + 1) =~= all);
}

/// Without a content encoding the document is that of the body.
pub proof fn law_decode_json_reads_plain_bodies(
    list: &Vec<Header>,
    body: &Vec<u8>,
    document: Option<Json>,
)
    requires
        call_ensures(message::decode_json, (list, body), document),
        forall|j: int|
            0 <= j < list.len() ==> text::folded((#[trigger] list[j]).name@)
                != "content-encoding"@,
    ensures
        proxy::tree_of(document) == super::reading::document_in(Some(body@)),
{
    let all = headers::headers_of(list@);
    let folded = headers::folded_names(all);
    assert forall|j: int| 0 <= j < folded.len() implies (#[trigger] folded[j]).0
        != "content-encoding"@ by {
        assert(folded[j].0 == text::folded(list[j].name@));
    }
    params::lemma_lookup_is_some(folded, "content-encoding"@);
}

/// Setting a parameter of a form gives the form in which it is found, and every other parameter
/// as before.
pub proof fn law_set_param_is_read_back(
    encoded: &str,
    key: &str,
    value: &str,
    form: String,
    wanted: Seq<char>,
)
    requires
        call_ensures(params::set_param, (encoded, key, value), form),
    ensures
        params::lookup(params::parsed_form(encode_utf8(form@)), key@) == Some(value@),
        wanted != key@ ==> params::lookup(params::parsed_form(encode_utf8(form@)), wanted)
            == params::lookup(params::parsed_form(encode_utf8(encoded@)), wanted),
        params::without(params::parsed_form(encode_utf8(form@)), key@) == params::without(
            params::parsed_form(encode_utf8(encoded@)),
            key@,
        ),
{
    let pairs = params::parsed_form(encode_utf8(encoded@));
    super::law_set_param_lookup(pairs, key@, value@, key@);
    super::law_set_param_lookup(pairs, key@, value@, wanted);
    super::law_set_param_keeps_the_others(pairs, key@, value@);
}

/// Any number of quotation marks is taken off both ends of a text, and nothing else.
pub proof fn law_unquote_takes_marks_off(
    s: &str,
    bare: &str,
    inner: Seq<char>,
    before: nat,
    behind: nat,
)
    requires
        call_ensures(params::unquote, (s,), bare),
        inner.len() > 0 ==> inner[0] != '"' && inner.last() != '"',
        s@ == super::reading::run('"', before) + inner + super::reading::run('"', behind),
    ensures
        bare@ == inner,
{
    super::reading::law_quotation_marks_are_taken_off(inner, before, behind);
}

/// The slashes at the end of the address of Video Station are taken off, and nothing else.
pub proof fn law_upstream_base_takes_slashes_off(
    address: &str,
    base: &str,
    inner: Seq<char>,
    n: nat,
)
    requires
        call_ensures(message::upstream_base, (address,), base),
        inner.len() > 0 ==> inner.last() != '/',
        address@ == inner + super::reading::run('/', n),
    ensures
        base@ == inner,
{
    super::reading::law_ends_are_trimmed(inner, '/', n);
}

/// The ids that are held are those that were noted and not forgotten since.
pub proof fn law_raw_streams_hold_what_was_noted(
    fresh: RawStreams,
    held: &mut RawStreams,
    id: String,
    left: &mut RawStreams,
    gone: &str,
    asked: &RawStreams,
    wanted: &str,
    found: bool,
)
    requires
        call_ensures(RawStreams::new, (), fresh),
        call_ensures(RawStreams::insert, (held, id), ()),
        call_ensures(RawStreams::remove, (left, gone), ()),
        call_ensures(RawStreams::contains, (asked, wanted), found),
    ensures
        *asked == fresh ==> !found,
        *asked == *final(held) ==> found == (wanted@ == id@ || old(held)@.contains(wanted@)),
        *asked == *final(left) ==> found == (wanted@ != gone@ && old(left)@.contains(wanted@)),
{
}

// ---------- requests ----------

/// A request is addressed to Video Station with its method, its body, and every header that does
/// not concern the connection, in its order.
pub proof fn law_build_request_sends_the_call(upstream: &str, call: Call, out: Outgoing, i: int)
    requires
        call_ensures(message::build_request, (upstream, call), out),
    ensures
        out.method@ == call.method@,
        out.body@ == call.body@,
        call.query@.len() == 0 ==> out.url@ == upstream@ + call.path@,
        call.query@.len() > 0 ==> out.url@ == upstream@ + call.path@ + seq!['?'] + call.query@,
        headers::headers_of(out.headers@) == headers::end_to_end(
            headers::headers_of(call.headers@),
        ),
        0 <= i < call.headers.len() && !headers::is_hop_by_hop(call.headers[i].name@)
            ==> headers::headers_of(out.headers@).contains(
            (call.headers[i].name@, call.headers[i].value@),
        ),
{
    reveal_strlit("?");
    assert("?"@ =~= seq!['?']);
    let all = headers::headers_of(call.headers@);
    let kept = |h: (Seq<char>, Seq<u8>)| !headers::is_hop_by_hop(h.0);
    if 0 <= i < call.headers.len() && !headers::is_hop_by_hop(call.headers[i].name@) {
        assert(all[i].0 == call.headers[i].name@);
        all.lemma_filter_contains(kept, i);
    }
}

/// A request that asks for a remuxed stream is sent as it came, and all of it is kept; no stream
/// is noted or forgotten.
pub proof fn law_handle_keeps_opens_whole(call: Call, raw: &mut RawStreams, turn: Turn)
    requires
        call_ensures(proxy::handle, (call, raw), turn),
        params::lookup(call@.params(), "api"@) == Some("SYNO.VideoStation2.Streaming"@),
        params::lookup(call@.params(), "method"@) == Some("open"@),
        params::lookup(call@.params(), "hls_remux"@) is Some,
    ensures
        turn.action matches Action::Buffer { call: sent, wait: Wait::Open { call: kept, file } }
            && {
            &&& sent@ == call@
            &&& kept.method@ == call.method@
            &&& kept.path@ == call.path@
            &&& kept.query@ == call.query@
            &&& headers::headers_of(kept.headers@) == headers::headers_of(call.headers@)
            &&& kept.body@ == call.body@
            &&& params::lookup(call@.params(), "file"@) matches Some(named) ==> file@ == named
        },
        final(raw)@ == old(raw)@,
{
    super::requests::law_opens_are_sent_and_kept_whole(call@, call@.params(), old(raw)@);
}

/// A request about a stream that is not noted is sent as it came, whatever else it says.
pub proof fn law_handle_lets_other_streams_pass(call: Call, raw: &mut RawStreams, turn: Turn)
    requires
        call_ensures(proxy::handle, (call, raw), turn),
        params::lookup(call@.params(), "id"@) matches Some(id) ==> !old(raw)@.contains(
            params::unquoted(id),
        ),
    ensures
        match turn.action {
            Action::Buffer { call: sent, .. } => sent@ == call@,
            Action::Stream { call: sent } => sent@ == call@,
            Action::Answer { .. } => false,
        },
        final(raw)@ == old(raw)@,
{
    super::requests::law_streams_that_are_not_noted_pass(call@, call@.params(), old(raw)@);
}

/// A `GET` that fetches a raw stream asks for the original file in raw format; all else of it
/// stays, and it is handed through as it arrives.
pub proof fn law_handle_fetches_raw_streams(
    call: Call,
    raw: &mut RawStreams,
    turn: Turn,
    id: Seq<char>,
)
    requires
        call_ensures(proxy::handle, (call, raw), turn),
        call.method@ == "GET"@,
        "/webapi/VideoStation/vtestreaming.cgi"@.is_prefix_of(call.path@),
        params::lookup(call@.params(), "method"@) == Some("stream"@),
        params::lookup(call@.params(), "id"@) == Some(id),
        old(raw)@.contains(params::unquoted(id)),
    ensures
        turn.action matches Action::Stream { call: sent } && {
            &&& sent.method@ == call.method@
            &&& sent.path@ == "/webapi/VideoStation/vtestreaming.cgi/1.mp4"@
            &&& params::parsed_form(encode_utf8(sent.query@)) == params::with_param(
                params::parsed_form(encode_utf8(call.query@)),
                "format"@,
                "raw"@,
            )
            &&& headers::headers_of(sent.headers@) == headers::headers_of(call.headers@)
            &&& !params::announces_form(call@.headers) ==> sent.body@ == call.body@
        },
        final(raw)@ == old(raw)@,
{
    super::requests::law_noted_streams_are_asked_for_raw(call@, call@.params(), old(raw)@, id);
    reveal_strlit("stream");
    reveal_strlit("open");
    assert("stream"@.len() != "open"@.len());
}

/// Any other call of the interface is waited for, and any other request is handed through; each
/// keeps its method and its headers.
pub proof fn law_handle_waits_for_calls(call: Call, raw: &mut RawStreams, turn: Turn)
    requires
        call_ensures(proxy::handle, (call, raw), turn),
        params::lookup(call@.params(), "api"@) != Some("SYNO.VideoStation2.Streaming"@)
            || params::lookup(call@.params(), "method"@) != Some("open"@) || params::lookup(
            call@.params(),
            "hls_remux"@,
        ) is None,
    ensures
        match turn.action {
            Action::Buffer { call: sent, wait } => {
                &&& wait is Api
                &&& sent.method@ == call.method@
                &&& headers::headers_of(sent.headers@) == headers::headers_of(call.headers@)
                &&& "/webapi/"@.is_prefix_of(call.path@)
                &&& params::lookup(call@.params(), "method"@) != Some("stream"@)
                &&& !text::occurs(call.path@, "vtestreaming.cgi/"@)
            },
            Action::Stream { call: sent } => {
                &&& sent.method@ == call.method@
                &&& headers::headers_of(sent.headers@) == headers::headers_of(call.headers@)
                &&& !"/webapi/"@.is_prefix_of(call.path@) || params::lookup(
                    call@.params(),
                    "method"@,
                ) == Some("stream"@) || text::occurs(call.path@, "vtestreaming.cgi/"@)
            },
            Action::Answer { .. } => false,
        },
{
    super::requests::law_calls_of_the_interface_are_waited_for(
        call@,
        call@.params(),
        old(raw)@,
    );
    super::requests::law_headers_go_with_their_request(call@, call@.params(), old(raw)@);
}

/// A request that names an interface, or whose path starts with `/webapi`, is logged in a line
/// that starts with its method and its path.
pub proof fn law_handle_logs_calls(call: Call, raw: &mut RawStreams, turn: Turn)
    requires
        call_ensures(proxy::handle, (call, raw), turn),
        params::lookup(call@.params(), "id"@) matches Some(id) ==> !old(raw)@.contains(
            params::unquoted(id),
        ),
    ensures
        turn.log.len() == (if "/webapi"@.is_prefix_of(call.path@) || (params::lookup(
            call@.params(),
            "api"@,
        ) matches Some(api) && api.len() > 0) {
            1int
        } else {
            0
        }),
        turn.log.len() == 1 ==> (call.method@ + " "@ + call.path@ + " api="@).is_prefix_of(
            turn.log[0]@,
        ),
{
    super::requests::law_request_lines(call@, call@.params(), old(raw)@);
    let lines = proxy::request_lines(call@, call@.params(), old(raw)@);
    assert(proxy::lines_of(turn.log@) == lines);
    assert(proxy::lines_of(turn.log@).len() == turn.log@.len());
    if turn.log.len() == 1 {
        assert(lines[0] == turn.log[0]@);
    }
}

/// A stream that is closed is forgotten, and no other.
pub proof fn law_handle_forgets_closed_streams(
    call: Call,
    raw: &mut RawStreams,
    turn: Turn,
    id: Seq<char>,
    other: Seq<char>,
)
    requires
        call_ensures(proxy::handle, (call, raw), turn),
        "/webapi/VideoStation/vtestreaming.cgi"@.is_prefix_of(call.path@),
        params::lookup(call@.params(), "method"@) == Some("close"@),
        params::lookup(call@.params(), "id"@) == Some(id),
    ensures
        !final(raw)@.contains(params::unquoted(id)),
        other != params::unquoted(id) ==> (final(raw)@.contains(other) <==> old(raw)@.contains(
            other,
        )),
{
    super::law_close_forgets(call@, call@.params(), old(raw)@);
}

/// The request that is made after a refusal is the player's own, with `raw={}` in place of
/// `hls_remux`: its method, its path and all its headers are those that the player sent, and so
/// are the other parameters of a form that was posted.
pub proof fn law_handle_and_resume_try_again(
    call: Call,
    raw: &mut RawStreams,
    turn: Turn,
    sent: Call,
    wait: Wait,
    refusal: Buffered,
    later: &mut RawStreams,
    next: Turn,
)
    requires
        call_ensures(proxy::handle, (call, raw), turn),
        params::lookup(call@.params(), "api"@) == Some("SYNO.VideoStation2.Streaming"@),
        params::lookup(call@.params(), "method"@) == Some("open"@),
        params::lookup(call@.params(), "hls_remux"@) is Some,
        turn.action == (Action::Buffer { call: sent, wait }),
        proxy::refuses(message::body_json(refusal@.headers, refusal@.body)),
        call_ensures(proxy::resume, (wait, Ok(refusal), later), next),
    ensures
        next.action matches Action::Buffer { call: again, wait: Wait::RawOpen { first } } && {
            &&& again.method@ == call.method@
            &&& again.path@ == call.path@
            &&& headers::headers_of(again.headers@) == headers::headers_of(call.headers@)
            &&& params::lookup(
                params::parsed_form(encode_utf8(again.query@)),
                "hls_remux"@,
            ) is None
            &&& params::lookup(
                params::parsed_form(encode_utf8(call.query@)),
                "hls_remux"@,
            ) is None ==> again.query@ == call.query@
            &&& call.method@ != "GET"@ && call.method@ != "HEAD"@ ==> params::parsed_form(
                again.body@,
            ) == params::without(params::parsed_form(call.body@), "hls_remux"@).push(
                ("raw"@, "{}"@),
            )
            &&& first@ == refusal@
        },
        final(later)@ == old(later)@,
{
    super::requests::law_opens_are_sent_and_kept_whole(call@, call@.params(), old(raw)@);
    super::requests::law_refused_opens_are_sent_again(
        call@,
        call@.params(),
        old(raw)@,
        refusal@,
    );
    super::law_raw_open_params(params::parsed_form(encode_utf8(call.query@)));
    assert(next.action@ is Buffer);
    assert(wait@ is Open);
}

// ---------- answers ----------

/// Whether the player gets an answer as it came: its status, its body, and its headers but for
/// those of the connection, in their order.
pub open spec fn handed_on(response: Response, answer: Buffered) -> bool {
    &&& response.status == answer.status
    &&& response.body@ == answer.body@
    &&& headers::headers_of(response.headers@) == headers::end_to_end(
        headers::headers_of(answer.headers@),
    )
}

/// An answer is handed on as it came.
pub proof fn law_into_response_hands_on(answer: Buffered, response: Response)
    requires
        call_ensures(Buffered::into_response, (answer,), response),
    ensures
        handed_on(response, answer),
{
    assert(response@ == answer@.relayed());
}

/// The answer to a call of the interface is handed on as it came, whatever it holds, and no
/// stream is noted or forgotten.
pub proof fn law_resume_hands_answers_on(answer: Buffered, raw: &mut RawStreams, turn: Turn)
    requires
        call_ensures(proxy::resume, (Wait::Api, Ok(answer), raw), turn),
    ensures
        turn.action matches Action::Answer { response } && handed_on(response, answer),
        final(raw)@ == old(raw)@,
        turn.log.len() == 1,
{
    super::answers::law_answers_to_calls_are_handed_on(answer@, old(raw)@);
    assert(turn.action@ is Answer);
    assert(proxy::lines_of(turn.log@).len() == 1);
}

/// What Video Station answers to a request for a remuxed stream is handed on as it came, unless
/// it is a refusal.
pub proof fn law_resume_hands_remuxed_streams_on(
    call: Call,
    file: String,
    answer: Buffered,
    raw: &mut RawStreams,
    turn: Turn,
)
    requires
        call_ensures(proxy::resume, (Wait::Open { call, file }, Ok(answer), raw), turn),
        !proxy::refuses(message::body_json(answer@.headers, answer@.body)),
    ensures
        turn.action matches Action::Answer { response } && handed_on(response, answer),
        final(raw)@ == old(raw)@,
{
    assert(turn.action@ is Answer);
}

/// Where the raw stream was opened, the player gets a document that says so of a remuxed stream
/// with that id, and the stream is noted; where it was not, the player gets the refusal as it
/// came, and no stream is noted.
pub proof fn law_resume_hands_raw_streams_over(
    first: Buffered,
    second: Buffered,
    raw: &mut RawStreams,
    turn: Turn,
)
    requires
        call_ensures(proxy::resume, (Wait::RawOpen { first }, Ok(second), raw), turn),
    ensures
        match proxy::opened_stream(message::body_json(second@.headers, second@.body)) {
            Some(id) => {
                &&& turn.action matches Action::Answer { response }
                &&& response.status == 200
                &&& message::body_json(response@.headers, response@.body) matches Some(told)
                &&& told.member("success"@) == JsonTree::Bool(true)
                &&& told.member("data"@).member("stream_id"@) == JsonTree::Str(id)
                &&& told.member("data"@).member("format"@) == JsonTree::Str("hls_remux"@)
                &&& final(raw)@ == old(raw)@.insert(id)
            },
            None => {
                &&& turn.action matches Action::Answer { response }
                &&& handed_on(response, first)
                &&& final(raw)@ == old(raw)@
            },
        },
{
    let document = message::body_json(second@.headers, second@.body);
    assert(turn.action@ is Answer);
    if let Some(id) = proxy::opened_stream(document) {
        super::law_player_is_told_of_a_remuxed_stream(id);
        super::answers::law_raw_streams_are_handed_over(first@, second@, document, id, old(raw)@);
    }
}

/// Where Video Station cannot be reached, the player gets the status 502 and the reason, and no
/// stream is noted or forgotten.
pub proof fn law_resume_tells_failures(
    wait: Wait,
    reason: String,
    raw: &mut RawStreams,
    turn: Turn,
)
    requires
        call_ensures(proxy::resume, (wait, Err(reason), raw), turn),
    ensures
        turn.action matches Action::Answer { response } && response.status == 502
            && response.body@ == encode_utf8(reason@),
        final(raw)@ == old(raw)@,
{
    assert(turn.action@ is Answer);
}

/// A request that is too large is answered with the status 413, and Video Station's absence with
/// 502; both give the reason in plain text.
pub proof fn law_own_answers_tell_the_reason(reason: &str, large: Response, gone: Response)
    requires
        call_ensures(message::payload_too_large, (reason,), large),
        call_ensures(message::bad_gateway, (reason,), gone),
    ensures
        large.status == 413,
        gone.status == 502,
        large.body@ == encode_utf8(reason@),
        gone.body@ == encode_utf8(reason@),
        headers::headers_of(large.headers@) == seq![
            ("content-type"@, encode_utf8("text/plain; charset=utf-8"@)),
        ],
        headers::headers_of(gone.headers@) == headers::headers_of(large.headers@),
{
    assert(large@.status == 413 && gone@.status == 502);
}

/// The headers of an answer that is handed through are those of Video Station but for those of
/// the connection, and behind them the length where it is known.
pub proof fn law_streamed_headers_add_the_length(
    upstream: &Vec<Header>,
    length: Option<u64>,
    kept: Vec<Header>,
)
    requires
        call_ensures(message::streamed_headers, (upstream, length), kept),
    ensures
        ({
            let handed = headers::end_to_end(headers::headers_of(upstream@));
            match length {
                None => headers::headers_of(kept@) == handed,
                Some(n) => {
                    &&& kept.len() == handed.len() + 1
                    &&& headers::headers_of(kept@).drop_last() == handed
                    &&& kept@.last().name@ == "content-length"@
                    &&& super::reading::number_of(headers::ascii_text(kept@.last().value@)) == n
                },
            }
        }),
{
    if let Some(n) = length {
        super::reading::law_decimals_are_read_back(n as nat);
        assert(headers::headers_of(kept@).drop_last() =~= headers::headers_of(kept@.drop_last()));
    }
}

// ---------- the end-to-end check ----------

/// A check passes exactly where the answer is partial content and starts like an MP4 file.
pub proof fn law_check_stream_judges(
    status: u16,
    list: &Vec<Header>,
    head: &[u8],
    check: selftest::Check,
)
    requires
        call_ensures(selftest::check_stream, (status, list, head), check),
    ensures
        check.outcome is Ok <==> status == 206 && head@.len() >= 12 && head@[4] == 'f' as u8
            && head@[5] == 't' as u8 && head@[6] == 'y' as u8 && head@[7] == 'p' as u8,
        check.outcome matches Err(reason) ==> reason@ == "FAIL: stream is not a ranged MP4"@,
{
    super::check::law_mp4_files_start_with_ftyp(head@);
}

/// Parameters are posted as a form from which they are read back, and a proxy takes them for one.
pub proof fn law_post_sends_a_form(base: &str, list: &Vec<(String, String)>, out: Outgoing)
    requires
        call_ensures(selftest::post, (base, list), out),
    ensures
        out.method@ == "POST"@,
        out.url@ == base@ + "/webapi/entry.cgi"@,
        params::announces_form(headers::headers_of(out.headers@)),
        params::parsed_form(out.body@) == params::pairs_of(list@),
{
    super::law_check_announces_a_form(headers::headers_of(out.headers@));
}

/// The stream that is fetched and the one that is closed are the same, under the same session,
/// and only the first KiB is fetched.
pub proof fn law_check_fetches_and_closes_one_stream(
    proxy: &str,
    id: &str,
    sid: &str,
    fetch: Outgoing,
    close: Outgoing,
)
    requires
        call_ensures(selftest::stream_request, (proxy, id, sid), fetch),
        call_ensures(selftest::close_request, (proxy, id, sid), close),
    ensures
        fetch.method@ == "GET"@ && close.method@ == "GET"@,
        fetch.body@.len() == 0 && close.body@.len() == 0,
        ({
            let tail = "&id="@ + (id@ + ("&format=hls_remux&_sid="@ + sid@));
            let head = "?api=SYNO.VideoStation.Streaming&version=1&method="@;
            &&& fetch.url@ == proxy@ + ("/webapi/VideoStation/vtestreaming.cgi/DTV.mov"@ + (head + (
            "stream"@ + tail)))
            &&& close.url@ == proxy@ + ("/webapi/VideoStation/vtestreaming.cgi"@ + (head + (
            "close"@ + tail)))
        }),
        headers::headers_of(fetch.headers@) == seq![("range"@, encode_utf8("bytes=0-1023"@))],
        close.headers.len() == 0,
{
    super::check::law_streams_are_addressed(
        proxy@,
        "/webapi/VideoStation/vtestreaming.cgi/DTV.mov"@,
        "stream"@,
        id@,
        sid@,
    );
    super::check::law_streams_are_addressed(
        proxy@,
        "/webapi/VideoStation/vtestreaming.cgi"@,
        "close"@,
        id@,
        sid@,
    );
}

/// The stream that the proxy handed over is the one that its data name.
pub proof fn law_proxied_stream_reads_the_id(open: &Json, id: Result<String, String>)
    requires
        call_ensures(selftest::proxied_stream, (open,), id),
    ensures
        match open@.member("data"@).member("stream_id"@) {
            JsonTree::Str(named) => id matches Ok(found) && found@ == named,
            _ => id matches Err(reason) && reason@ == "proxied open did not return a stream_id"@,
        },
{
}

/// What the check sends to log in, to open a stream and to log out names what it was given.
pub proof fn law_check_names_what_it_is_given(
    account: &str,
    password: &str,
    file: u64,
    sid: &str,
    login: Vec<(String, String)>,
    open: Vec<(String, String)>,
    logout: Vec<(String, String)>,
)
    requires
        call_ensures(selftest::login_params, (account, password), login),
        call_ensures(selftest::open_params, (file, sid), open),
        call_ensures(selftest::logout_params, (sid,), logout),
    ensures
        login.len() == 7 && open.len() == 6 && logout.len() == 5,
        params::lookup(params::pairs_of(login@), "account"@) == Some(account@),
        params::lookup(params::pairs_of(login@), "passwd"@) == Some(password@),
        open[3].0@ == "file"@,
        open[3].1@ == "{\"id\":"@ + text::decimal_digits(file as nat) + "}"@,
        open[4].0@ == "hls_remux"@,
        open[5].0@ == "_sid"@ && open[5].1@ == sid@,
        params::lookup(params::pairs_of(logout@), "_sid"@) == Some(sid@),
        logout[2].0@ == "method"@ && logout[2].1@ == "logout"@,
{
    super::check::law_logins_name_the_account(account@, password@);
    super::check::law_logouts_name_the_session(account@, password@, sid@);
    super::check::law_opens_name_the_file(file, file, sid@, 0);
    super::check::law_check_parameters_are_found(account@, password@, sid@);
    assert(params::pairs_of(login@).len() == login@.len());
    assert(params::pairs_of(open@).len() == open@.len());
    assert(params::pairs_of(logout@).len() == logout@.len());
    assert(params::pairs_of(open@)[3] == (open[3].0@, open[3].1@));
    assert(params::pairs_of(open@)[4] == (open[4].0@, open[4].1@));
    assert(params::pairs_of(open@)[5] == (open[5].0@, open[5].1@));
    assert(params::pairs_of(logout@)[2] == (logout[2].0@, logout[2].1@));
}

/// The session is the one that the data of the login name; a login without one is told as a
/// failure, with its error.
pub proof fn law_login_sid_reads_the_session(login: &Json, sid: Result<String, String>)
    requires
        call_ensures(selftest::login_sid, (login,), sid),
    ensures
        match login@.member("data"@).member("sid"@) {
            JsonTree::Str(named) => sid matches Ok(found) && found@ == named,
            _ => sid matches Err(reason) && reason@ == "login failed: "@ + json::json_text(
                login@.member("error"@),
            ),
        },
{
}

/// The last line of a check is `PASS` exactly where it passed.
pub proof fn law_last_lines_end_with_pass(passed: bool, lines: Vec<String>)
    requires
        call_ensures(selftest::last_lines, (passed,), lines),
    ensures
        lines.len() > 0,
        lines[0]@ == "logged out"@,
        lines@.last()@ == "PASS"@ <==> passed,
{
    super::law_passing_check_ends_with_pass(passed);
    super::check::law_checks_end_with_the_logout(passed);
    let told = proxy::lines_of(lines@);
    assert(told.len() == lines@.len());
    assert(told[0] == lines[0]@);
    assert(told.last() == lines@.last()@);
}

} // verus!
