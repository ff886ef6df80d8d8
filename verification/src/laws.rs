//! What holds of the proxy as a whole.
//!
//! Each public function here states one law over the specifications that the contracts of the
//! other modules use, and proves it. [`reading`] is about how texts, headers, parameters and
//! documents are read, [`requests`] and [`answers`] about what becomes of the player's requests
//! and of the answers of Video Station, and [`check`] about the end-to-end check. [`results`] says
//! of the functions themselves what comes back from any call of them.

pub mod answers;
pub mod check;
pub mod reading;
pub mod requests;
pub mod results;

use crate::headers;
use crate::json;
use crate::message;
use crate::message::{AnswerView, CallView};
use crate::params;
use crate::proxy;
use crate::proxy::{ActionView, WaitView};
use crate::selftest;
use crate::text;
use vstd::prelude::*;
use vstd::utf8::*;

verus! {

// ---------- parameters ----------

/// Looking up in a list that was made longer by one entry.
proof fn lemma_lookup_push<V>(entries: Seq<(Seq<char>, V)>, entry: (Seq<char>, V), key: Seq<char>)
    ensures
        params::lookup(entries.push(entry), key) == (if params::lookup(entries, key) is Some {
            params::lookup(entries, key)
        } else if entry.0 == key {
            Some(entry.1)
        } else {
            None
        }),
    decreases entries.len(),
{
    if entries.len() == 0 {
        let rest = entries.push(entry).drop_first();
        assert(params::lookup(rest, key) is None);
    } else {
        lemma_lookup_push(entries.drop_first(), entry, key);
        assert(entries.push(entry).drop_first() =~= entries.drop_first().push(entry));
    }
}

/// Looking up after each value under a name was replaced.
proof fn lemma_lookup_replaced(
    pairs: Seq<params::Pair>,
    key: Seq<char>,
    value: Seq<char>,
    wanted: Seq<char>,
)
    ensures
        params::lookup(params::replaced(pairs, key, value), wanted) == (if wanted == key
            && params::lookup(pairs, key) is Some {
            Some(value)
        } else {
            params::lookup(pairs, wanted)
        }),
    decreases pairs.len(),
{
    if pairs.len() > 0 {
        let rest = pairs.drop_first();
        lemma_lookup_replaced(rest, key, value, wanted);
        assert(params::replaced(pairs, key, value).drop_first() =~= params::replaced(
            rest,
            key,
            value,
        ));
    }
}

/// A parameter that was set is the one that is found; all others are found as before.
pub proof fn law_set_param_lookup(
    pairs: Seq<params::Pair>,
    key: Seq<char>,
    value: Seq<char>,
    wanted: Seq<char>,
)
    ensures
        params::lookup(params::with_param(pairs, key, value), wanted) == (if wanted == key {
            Some(value)
        } else {
            params::lookup(pairs, wanted)
        }),
{
    lemma_lookup_replaced(pairs, key, value, wanted);
    lemma_lookup_push(params::replaced(pairs, key, value), (key, value), wanted);
}

/// Setting a parameter leaves the other parameters as they are, in their order.
pub proof fn law_set_param_keeps_the_others(
    pairs: Seq<params::Pair>,
    key: Seq<char>,
    value: Seq<char>,
)
    ensures
        params::without(params::with_param(pairs, key, value), key) == params::without(pairs, key),
{
    lemma_filter_replaced(pairs, key, value);
    params::replaced(pairs, key, value).lemma_filter_push((key, value), params::other_than(key));
}

/// Filtering the other parameters after each value under a name was replaced.
proof fn lemma_filter_replaced(pairs: Seq<params::Pair>, key: Seq<char>, value: Seq<char>)
    ensures
        params::without(params::replaced(pairs, key, value), key) == params::without(pairs, key),
    decreases pairs.len(),
{
    if pairs.len() == 0 {
        assert(params::replaced(pairs, key, value) =~= pairs);
    } else {
        let init = pairs.drop_last();
        lemma_filter_replaced(init, key, value);
        let last = if pairs.last().0 == key {
            (key, value)
        } else {
            pairs.last()
        };
        init.lemma_filter_push(pairs.last(), params::other_than(key));
        params::replaced(init, key, value).lemma_filter_push(last, params::other_than(key));
        assert(init.push(pairs.last()) =~= pairs);
        assert(params::replaced(init, key, value).push(last) =~= params::replaced(
            pairs,
            key,
            value,
        ));
    }
}

/// Of two values that are set under one name, the later stays, as if the earlier had never
/// been set. So setting one value twice is the same as setting it once.
pub proof fn law_set_param_again(
    pairs: Seq<params::Pair>,
    key: Seq<char>,
    value: Seq<char>,
    later: Seq<char>,
)
    ensures
        params::with_param(params::with_param(pairs, key, value), key, later)
            == params::with_param(pairs, key, later),
{
    law_set_param_lookup(pairs, key, value, key);
    assert(params::with_param(params::with_param(pairs, key, value), key, later)
        =~= params::with_param(pairs, key, later));
}

/// Bare text neither starts nor ends with a quotation mark, and making it bare again changes
/// nothing.
pub proof fn law_unquoted(s: Seq<char>)
    ensures
        params::unquoted(s).len() > 0 ==> params::unquoted(s)[0] != '"' && params::unquoted(
            s,
        ).last() != '"',
        params::unquoted(params::unquoted(s)) == params::unquoted(s),
{
    text::lemma_trimmed_start(s, '"');
    text::lemma_trimmed_end(text::trimmed_start(s, '"'), '"');
    text::lemma_trimmed_start(params::unquoted(s), '"');
    text::lemma_trimmed_end(text::trimmed_start(params::unquoted(s), '"'), '"');
}

/// Quotation marks around a text that has none at its ends are all that is taken off.
pub proof fn law_unquoted_inner(s: Seq<char>)
    requires
        s.len() > 0 ==> s[0] != '"' && s.last() != '"',
    ensures
        params::unquoted(s) == s,
        params::unquoted(seq!['"'] + s + seq!['"']) == s,
{
    let quoted = seq!['"'] + s + seq!['"'];
    text::lemma_trimmed_start(s, '"');
    text::lemma_trimmed_end(text::trimmed_start(s, '"'), '"');
    assert(params::unquoted(s) =~= s);
    let open = text::trimmed_start(quoted, '"');
    text::lemma_trimmed_start(quoted, '"');
    text::lemma_trimmed_end(open, '"');
    let bare = params::unquoted(quoted);
    if s.len() == 0 {
        if bare.len() > 0 {
            assert(bare.last() == open[bare.len() - 1]);
            assert(bare.last() == quoted[quoted.len() - open.len() + bare.len() - 1]);
        }
    } else {
        assert(quoted[0] == '"');
        assert(quoted[1] == s[0]);
        assert(quoted[s.len() as int] == s.last());
        if open.len() < s.len() + 1 {
            assert(quoted[1] == '"');
        }
        if open.len() == quoted.len() {
            assert(open[0] == quoted[0]);
        }
        assert(open.len() == s.len() + 1);
        assert(open[s.len() - 1] == s.last());
        assert(open[s.len() as int] == '"');
        if bare.len() < s.len() {
            assert(open[s.len() - 1] == '"');
        }
        if bare.len() == open.len() {
            assert(bare.last() == open[s.len() as int]);
        }
    }
    assert(bare =~= s);
}

// ---------- headers ----------

/// Of a header that does not concern the connection, every value is handed on, in its order; of
/// one that does, none.
pub proof fn law_headers_handed_on(all: Seq<(Seq<char>, Seq<u8>)>, name: Seq<char>)
    ensures
        headers::end_to_end(all).filter(|h: (Seq<char>, Seq<u8>)| h.0 == name) == (
        if headers::is_hop_by_hop(name) {
            Seq::empty()
        } else {
            all.filter(|h: (Seq<char>, Seq<u8>)| h.0 == name)
        }),
    decreases all.len(),
{
    let kept = |h: (Seq<char>, Seq<u8>)| !headers::is_hop_by_hop(h.0);
    let named = |h: (Seq<char>, Seq<u8>)| h.0 == name;
    reveal(Seq::filter);
    if all.len() > 0 {
        let init = all.drop_last();
        law_headers_handed_on(init, name);
        init.lemma_filter_push(all.last(), kept);
        init.lemma_filter_push(all.last(), named);
        headers::end_to_end(init).lemma_filter_push(all.last(), named);
        assert(init.push(all.last()) =~= all);
    }
}

/// Handing headers on twice is the same as handing them on once.
pub proof fn law_headers_handed_on_twice(all: Seq<(Seq<char>, Seq<u8>)>)
    ensures
        headers::end_to_end(headers::end_to_end(all)) == headers::end_to_end(all),
    decreases all.len(),
{
    let kept = |h: (Seq<char>, Seq<u8>)| !headers::is_hop_by_hop(h.0);
    reveal(Seq::filter);
    if all.len() > 0 {
        let init = all.drop_last();
        law_headers_handed_on_twice(init);
        init.lemma_filter_push(all.last(), kept);
        headers::end_to_end(init).lemma_filter_push(all.last(), kept);
        assert(init.push(all.last()) =~= all);
    }
}

// ---------- requests ----------

/// Every request is sent to Video Station unchanged, unless it fetches or closes a stream that
/// was opened in raw mode.
pub proof fn law_requests_pass_unchanged(
    call: CallView,
    pairs: Seq<params::Pair>,
    raw: Set<Seq<char>>,
)
    requires
        proxy::raw_stream(call, pairs, raw) is None,
    ensures
        proxy::sent_call(proxy::routed(call, pairs, raw)) == Some(call),
        proxy::streams_after_request(call, pairs, raw) == raw,
{
}

/// A request whose method is neither `stream` nor `close` is sent unchanged, whatever stream it
/// is about.
pub proof fn law_other_methods_pass_unchanged(
    call: CallView,
    pairs: Seq<params::Pair>,
    raw: Set<Seq<char>>,
)
    requires
        params::lookup(pairs, "method"@) != Some("stream"@),
        params::lookup(pairs, "method"@) != Some("close"@),
    ensures
        proxy::sent_call(proxy::routed(call, pairs, raw)) == Some(call),
        proxy::streams_after_request(call, pairs, raw) == raw,
{
}

/// Of a request that fetches or closes a raw stream nothing changes but the path of a fetch and
/// the format: a query or a body that holds none is sent as it is, unless the format is to be
/// added there, and so is the body of a `GET` or `HEAD` whose headers announce no form.
pub proof fn law_raw_requests_keep_the_rest(
    call: CallView,
    pairs: Seq<params::Pair>,
    raw: Set<Seq<char>>,
)
    requires
        proxy::raw_stream(call, pairs, raw) is Some,
    ensures
        proxy::sent_call(proxy::routed(call, pairs, raw)) matches Some(sent) && {
            &&& sent.method == call.method
            &&& sent.headers == call.headers
            &&& params::lookup(pairs, "method"@) == Some("close"@) ==> sent.path == call.path
            &&& params::lookup(pairs, "method"@) == Some("stream"@) ==> sent.path
                == "/webapi/VideoStation/vtestreaming.cgi/1.mp4"@
            &&& proxy::has_query(call.method) && !proxy::holds(call.body, "format"@) ==> sent.body
                == call.body
            &&& proxy::has_query(call.method) && !params::announces_form(call.headers) ==> sent.body
                == call.body
            &&& !proxy::has_query(call.method) && !proxy::holds(
                encode_utf8(call.query),
                "format"@,
            ) ==> sent.query == call.query
        },
{
    proxy::lemma_open_is_no_stream(call, pairs, raw);
    reveal_strlit("stream");
    reveal_strlit("close");
    assert("stream"@.len() != "close"@.len());
}

/// The parameters of a request about a stream: those of its query for `GET` and `HEAD`, or else
/// those of its body.
pub open spec fn stream_params(call: CallView) -> Seq<params::Pair> {
    if proxy::has_query(call.method) {
        params::parsed_form(encode_utf8(call.query))
    } else {
        params::parsed_form(call.body)
    }
}

/// What is sent in place of a request about a raw stream asks for the raw format, and for no
/// other, in its query or in a body that may hold parameters.
pub proof fn law_raw_requests_ask_for_raw(sent: CallView, asked: CallView, i: int, j: int)
    requires
        sent.method == asked.method,
        proxy::carries_raw_format(sent, asked),
    ensures
        params::lookup(stream_params(sent), "format"@) == Some("raw"@),
        ({
            let query = params::parsed_form(encode_utf8(sent.query));
            0 <= i < query.len() && query[i].0 == "format"@ ==> query[i].1 == "raw"@
        }),
        ({
            let body = params::parsed_form(sent.body);
            proxy::has_form(asked) && 0 <= j < body.len() && body[j].0 == "format"@ ==> body[j].1
                == "raw"@
        }),
{
    let query = params::parsed_form(encode_utf8(asked.query));
    let form = params::parsed_form(encode_utf8(text::lossy_text(asked.body)));
    law_set_param_lookup(query, "format"@, "raw"@, "format"@);
    law_set_param_lookup(form, "format"@, "raw"@, "format"@);
}

/// What is sent in place of a request about a raw stream has the parameters that were asked
/// for, but for the format, in their order: in its query, and in its body if that is text.
pub proof fn law_raw_requests_keep_the_parameters(sent: CallView, asked: CallView)
    requires
        proxy::carries_raw_format(sent, asked),
    ensures
        params::without(params::parsed_form(encode_utf8(sent.query)), "format"@)
            == params::without(params::parsed_form(encode_utf8(asked.query)), "format"@),
        valid_utf8(asked.body) ==> params::without(params::parsed_form(sent.body), "format"@)
            == params::without(params::parsed_form(asked.body), "format"@),
{
    law_set_param_keeps_the_others(
        params::parsed_form(encode_utf8(asked.query)),
        "format"@,
        "raw"@,
    );
    law_set_param_keeps_the_others(params::parsed_form(asked.body), "format"@, "raw"@);
}

/// Each call of the interface is logged, and so is what came of it.
pub proof fn law_calls_are_logged(
    call: CallView,
    pairs: Seq<params::Pair>,
    raw: Set<Seq<char>>,
    event: Result<AnswerView, Seq<char>>,
)
    requires
        proxy::is_api_call(call, pairs) || proxy::asks_remux(pairs),
    ensures
        proxy::request_line(call, pairs) matches Some(line) && proxy::request_lines(
            call,
            pairs,
            raw,
        )[0] == line,
        proxy::routed(call, pairs, raw) matches ActionView::Buffer { wait, .. }
            && proxy::answer_lines(wait, event).len() == 1,
{
    if proxy::asks_remux(pairs) {
        reveal_strlit("SYNO.VideoStation2.Streaming");
        assert(proxy::value_or_empty(pairs, "api"@).len() > 0);
    } else {
        reveal_strlit("/webapi/");
        reveal_strlit("/webapi");
        assert("/webapi/"@.subrange(0, 7) =~= "/webapi"@);
        assert forall|i: int| 0 <= i < "/webapi"@.len() implies "/webapi"@[i] == call.path[i] by {
            assert("/webapi/"@.subrange(0, 7)[i] == "/webapi/"@[i]);
            assert("/webapi/"@[i] == call.path[i]);
        }
        assert("/webapi"@.is_prefix_of(call.path));
    }
}

// ---------- answers ----------

/// What comes of any request that is waited for is logged, in one line.
pub proof fn law_outcomes_are_logged(wait: WaitView, event: Result<AnswerView, Seq<char>>)
    ensures
        proxy::answer_lines(wait, event).len() == 1,
{
}

/// What Video Station can remux is handed on as it is, and no second request is made.
pub proof fn law_remuxed_streams_pass(call: CallView, file: Seq<char>, answer: AnswerView)
    requires
        !proxy::refuses(proxy::document_of(answer)),
    ensures
        proxy::resumed(WaitView::Open { call, file }, Ok(answer)) == (ActionView::Answer {
            response: answer.relayed(),
        }),
{
}

/// A refused request is made again: the method, the path and the headers are the same, and so
/// are a query and, for `GET` and `HEAD`, a body that do not hold `hls_remux`. For these two the
/// body is the same also where the headers announce no form.
pub proof fn law_refusal_is_tried_again(call: CallView, file: Seq<char>, answer: AnswerView)
    requires
        proxy::refuses(proxy::document_of(answer)),
    ensures
        proxy::resumed(WaitView::Open { call, file }, Ok(answer)) matches ActionView::Buffer {
            call: sent,
            wait,
        } && {
            &&& sent.method == call.method
            &&& sent.path == call.path
            &&& sent.headers == call.headers
            &&& !proxy::holds(encode_utf8(call.query), "hls_remux"@) ==> sent.query == call.query
            &&& proxy::has_query(call.method) && !proxy::holds(call.body, "hls_remux"@)
                ==> sent.body == call.body
            &&& proxy::has_query(call.method) && !params::announces_form(call.headers) ==> sent.body
                == call.body
            &&& wait == (WaitView::RawOpen { first: answer })
        },
{
}

/// The second request holds no `hls_remux`, in its query or in a body that may hold parameters,
/// and all its other parameters but `raw` are those of the first one, in their order.
pub proof fn law_retry_drops_remux(sent: CallView, asked: CallView)
    requires
        proxy::carries_raw_open(sent, asked),
    ensures
        params::lookup(params::parsed_form(encode_utf8(sent.query)), "hls_remux"@) is None,
        proxy::has_form(asked) ==> params::lookup(params::parsed_form(sent.body), "hls_remux"@)
            is None,
        without_both(params::parsed_form(encode_utf8(sent.query))) == without_both(
            params::parsed_form(encode_utf8(asked.query)),
        ),
        without_both(params::parsed_form(sent.body)) == without_both(
            params::parsed_form(asked.body),
        ),
{
    law_raw_open_params(params::parsed_form(encode_utf8(asked.query)));
    law_raw_open_params(params::parsed_form(asked.body));
    lemma_without_both(params::parsed_form(encode_utf8(asked.query)));
    lemma_without_both(params::parsed_form(asked.body));
}

/// The parameters but `hls_remux` and `raw`.
pub open spec fn without_both(pairs: Seq<params::Pair>) -> Seq<params::Pair> {
    params::without(params::without(pairs, "hls_remux"@), "raw"@)
}

/// Leaving out a name that does not occur.
proof fn lemma_without_absent(pairs: Seq<params::Pair>, key: Seq<char>)
    requires
        params::lookup(pairs, key) is None,
    ensures
        params::without(pairs, key) == pairs,
    decreases pairs.len(),
{
    reveal(Seq::filter);
    if pairs.len() > 0 {
        let init = pairs.drop_last();
        assert(init.push(pairs.last()) =~= pairs);
        lemma_lookup_push(init, pairs.last(), key);
        lemma_without_absent(init, key);
        init.lemma_filter_push(pairs.last(), params::other_than(key));
    }
}

/// Leaving out `hls_remux` and `raw` after the one was swapped for the other.
proof fn lemma_without_both(pairs: Seq<params::Pair>)
    ensures
        without_both(proxy::raw_open_params(pairs)) == without_both(pairs),
{
    let kept = params::without(pairs, "hls_remux"@);
    law_raw_open_params(pairs);
    lemma_without_absent(proxy::raw_open_params(pairs), "hls_remux"@);
    kept.lemma_filter_push(("raw"@, "{}"@), params::other_than("raw"@));
}

/// Looking up in two lists, one after the other.
proof fn lemma_lookup_add<V>(
    first: Seq<(Seq<char>, V)>,
    second: Seq<(Seq<char>, V)>,
    key: Seq<char>,
)
    ensures
        params::lookup(first + second, key) == (if params::lookup(first, key) is Some {
            params::lookup(first, key)
        } else {
            params::lookup(second, key)
        }),
    decreases first.len(),
{
    if first.len() == 0 {
        assert(first + second =~= second);
    } else {
        assert((first + second).drop_first() =~= first.drop_first() + second);
        lemma_lookup_add(first.drop_first(), second, key);
    }
}

/// What Video Station finds in the second request: `raw={}` in place of the `hls_remux` that it
/// found in the first one, whatever the method of the request, unless that held a `raw` of its
/// own.
pub proof fn law_retry_asks_for_raw(sent: CallView, asked: CallView)
    requires
        proxy::carries_raw_open(sent, asked),
        sent.headers == asked.headers,
        proxy::asks_remux(asked.params()),
        params::lookup(asked.params(), "raw"@) is None,
    ensures
        params::lookup(sent.params(), "raw"@) == Some("{}"@),
        params::lookup(sent.params(), "hls_remux"@) is None,
{
    let query = params::parsed_form(encode_utf8(asked.query));
    let body = params::parsed_form(asked.body);
    let new_query = params::parsed_form(encode_utf8(sent.query));
    let new_body = params::parsed_form(sent.body);
    law_retry_drops_remux(sent, asked);
    lemma_lookup_add(query, body, "raw"@);
    lemma_lookup_add(query, body, "hls_remux"@);
    lemma_lookup_add(new_query, new_body, "raw"@);
    lemma_lookup_add(new_query, new_body, "hls_remux"@);
    lemma_swapped_in(query);
    if params::announces_form(asked.headers) {
        lemma_swapped_in(body);
    }
}

/// Looking up `raw` after it was put in place of `hls_remux`.
proof fn lemma_swapped_in(pairs: Seq<params::Pair>)
    requires
        params::lookup(pairs, "raw"@) is None,
    ensures
        params::lookup(proxy::raw_open_params(pairs), "raw"@) == Some("{}"@),
{
    reveal_strlit("raw");
    reveal_strlit("hls_remux");
    assert("raw"@.len() != "hls_remux"@.len());
    lemma_filtered_out(pairs, "hls_remux"@, "raw"@);
    lemma_lookup_push(params::without(pairs, "hls_remux"@), ("raw"@, "{}"@), "raw"@);
}

/// The parameters of the second request are those of the first one without `hls_remux`, in
/// their order, and `raw={}` at the end.
pub proof fn law_raw_open_params(pairs: Seq<params::Pair>)
    ensures
        proxy::raw_open_params(pairs).last() == ("raw"@, "{}"@),
        proxy::raw_open_params(pairs).drop_last() == params::without(pairs, "hls_remux"@),
        params::lookup(proxy::raw_open_params(pairs), "hls_remux"@) is None,
{
    let changed = proxy::raw_open_params(pairs);
    assert(changed.drop_last() =~= params::without(pairs, "hls_remux"@));
    reveal_strlit("raw");
    reveal_strlit("hls_remux");
    assert("raw"@.len() != "hls_remux"@.len());
    lemma_filtered_out(pairs, "hls_remux"@, "hls_remux"@);
    lemma_lookup_push(params::without(pairs, "hls_remux"@), ("raw"@, "{}"@), "hls_remux"@);
}

/// Looking up after a name was filtered out.
proof fn lemma_filtered_out(pairs: Seq<params::Pair>, key: Seq<char>, wanted: Seq<char>)
    ensures
        params::lookup(params::without(pairs, key), wanted) == (if wanted == key {
            None
        } else {
            params::lookup(pairs, wanted)
        }),
    decreases pairs.len(),
{
    reveal(Seq::filter);
    if pairs.len() > 0 {
        let init = pairs.drop_last();
        lemma_filtered_out(init, key, wanted);
        init.lemma_filter_push(pairs.last(), params::other_than(key));
        assert(init.push(pairs.last()) =~= pairs);
        lemma_lookup_push(init, pairs.last(), wanted);
        lemma_lookup_push(params::without(init, key), pairs.last(), wanted);
    }
}

/// The second request names the same file as the first one, and any other parameter but
/// `hls_remux` and `raw` alike.
pub proof fn law_raw_open_keeps_lookups(pairs: Seq<params::Pair>, wanted: Seq<char>)
    requires
        wanted != "hls_remux"@,
        wanted != "raw"@,
    ensures
        params::lookup(proxy::raw_open_params(pairs), wanted) == params::lookup(pairs, wanted),
{
    lemma_filtered_out(pairs, "hls_remux"@, wanted);
    lemma_lookup_push(params::without(pairs, "hls_remux"@), ("raw"@, "{}"@), wanted);
}

/// The player is told of a raw stream that it was opened, that it is a remuxed one, and its id.
pub proof fn law_player_is_told_of_a_remuxed_stream(id: Seq<char>)
    ensures
        proxy::opened_tree(id).member("success"@) == json::JsonTree::Bool(true),
        proxy::opened_tree(id).member("data"@).member("format"@) == json::JsonTree::Str(
            "hls_remux"@,
        ),
        proxy::opened_stream(Some(proxy::opened_tree(id))) == Some(id),
        !proxy::refuses(Some(proxy::opened_tree(id))),
{
    reveal_strlit("data");
    reveal_strlit("success");
    reveal_strlit("format");
    reveal_strlit("stream_id");
    assert("data"@.len() == 4 && "success"@.len() == 7 && "format"@.len() == 6 && "stream_id"@.len()
        == 9);
}

/// Where the raw stream cannot be opened either, the player gets the refusal that came first,
/// and no stream is noted.
pub proof fn law_refusal_stands(first: AnswerView, second: AnswerView, raw: Set<Seq<char>>)
    requires
        proxy::opened_stream(proxy::document_of(second)) is None,
    ensures
        proxy::resumed(WaitView::RawOpen { first }, Ok(second)) == (ActionView::Answer {
            response: first.relayed(),
        }),
        proxy::streams_after_answer(WaitView::RawOpen { first }, Ok(second), raw) == raw,
{
}

/// Where Video Station cannot be reached the player is told so, and no stream is noted.
pub proof fn law_unreachable(wait: WaitView, reason: Seq<char>, raw: Set<Seq<char>>)
    ensures
        proxy::resumed(wait, Err(reason)) == (ActionView::Answer {
            response: message::plain_answer(502, reason),
        }),
        proxy::streams_after_answer(wait, Err(reason), raw) == raw,
{
}

/// No more than two requests are made for one of the player: after the answer to the second
/// one, and after any other answer that is not a refusal, the player is answered.
pub proof fn law_at_most_two_requests(
    wait: WaitView,
    event: Result<AnswerView, Seq<char>>,
    next: Result<AnswerView, Seq<char>>,
)
    ensures
        match proxy::resumed(wait, event) {
            ActionView::Answer { .. } => true,
            ActionView::Buffer { wait: second, .. } => wait is Open && proxy::resumed(
                second,
                next,
            ) is Answer,
            ActionView::Stream { .. } => false,
        },
{
}

// ---------- raw streams ----------

/// A stream that was handed to the player is served raw: a request that fetches or closes it,
/// under whatever quotation marks, is sent on in raw format.
pub proof fn law_handed_over_stream_is_served_raw(
    wait: WaitView,
    event: Result<AnswerView, Seq<char>>,
    raw: Set<Seq<char>>,
    call: CallView,
    pairs: Seq<params::Pair>,
    quoted: Seq<char>,
)
    requires
        proxy::newly_opened(wait, event) == Some(params::unquoted(quoted)),
        "/webapi/VideoStation/vtestreaming.cgi"@.is_prefix_of(call.path),
        params::lookup(pairs, "id"@) == Some(quoted),
        params::lookup(pairs, "method"@) == Some("stream"@) || params::lookup(pairs, "method"@)
            == Some("close"@),
    ensures
        proxy::sent_call(
            proxy::routed(call, pairs, proxy::streams_after_answer(wait, event, raw)),
        ) == Some(proxy::raw_call(call, pairs)),
        params::lookup(pairs, "method"@) == Some("stream"@) ==> proxy::routed(
            call,
            pairs,
            proxy::streams_after_answer(wait, event, raw),
        ) is Stream,
{
    proxy::lemma_open_is_no_stream(call, pairs, proxy::streams_after_answer(wait, event, raw));
}

/// A request forgets the raw stream that it closes, and no other; it notes none.
pub proof fn law_close_forgets(call: CallView, pairs: Seq<params::Pair>, raw: Set<Seq<char>>)
    ensures
        proxy::streams_after_request(call, pairs, raw) == (if closes(call, pairs) is Some {
            raw.remove(closes(call, pairs)->0)
        } else {
            raw
        }),
{
    assert(proxy::streams_after_request(call, pairs, raw) =~= (if closes(call, pairs) is Some {
        raw.remove(closes(call, pairs)->0)
    } else {
        raw
    }));
}

/// The stream that a request closes.
pub open spec fn closes(call: CallView, pairs: Seq<params::Pair>) -> Option<Seq<char>> {
    match params::lookup(pairs, "id"@) {
        Some(id) => if "/webapi/VideoStation/vtestreaming.cgi"@.is_prefix_of(call.path)
            && params::lookup(pairs, "method"@) == Some("close"@) {
            Some(params::unquoted(id))
        } else {
            None
        },
        None => None,
    }
}

/// Something that the proxy takes in: a request, or what came of one that it made.
pub enum Input {
    Request { call: CallView, pairs: Seq<params::Pair> },
    Event { wait: WaitView, event: Result<AnswerView, Seq<char>> },
}

/// The raw streams after everything that was taken in, in its order.
pub open spec fn streams_after(inputs: Seq<Input>) -> Set<Seq<char>>
    decreases inputs.len(),
{
    if inputs.len() == 0 {
        Set::empty()
    } else {
        let before = streams_after(inputs.drop_last());
        match inputs.last() {
            Input::Request { call, pairs } => proxy::streams_after_request(call, pairs, before),
            Input::Event { wait, event } => proxy::streams_after_answer(wait, event, before),
        }
    }
}

/// Whether an input opens the raw stream `id`.
pub open spec fn opens_stream(input: Input, id: Seq<char>) -> bool {
    input matches Input::Event { wait, event } && proxy::newly_opened(wait, event) == Some(id)
}

/// Whether an input closes the stream `id`.
pub open spec fn closes_stream(input: Input, id: Seq<char>) -> bool {
    input matches Input::Request { call, pairs } && closes(call, pairs) == Some(id)
}

/// Whether the raw stream `id` was opened by the input at `at` and not closed by a later one.
pub open spec fn open_since(inputs: Seq<Input>, id: Seq<char>, at: int) -> bool {
    &&& 0 <= at < inputs.len()
    &&& opens_stream(inputs[at], id)
    &&& forall|later: int| at < later < inputs.len() ==> !closes_stream(#[trigger] inputs[later], id)
}

/// At any time the raw streams are those that Video Station opened in raw mode for the player
/// and that the player has not closed since.
pub proof fn law_raw_streams_are_the_open_ones(inputs: Seq<Input>, id: Seq<char>)
    ensures
        streams_after(inputs).contains(id) <==> exists|at: int| #[trigger]
            open_since(inputs, id, at),
    decreases inputs.len(),
{
    if inputs.len() > 0 {
        let init = inputs.drop_last();
        let last = inputs.last();
        law_raw_streams_are_the_open_ones(init, id);
        if let Input::Request { call, pairs } = last {
            law_close_forgets(call, pairs, streams_after(init));
        }
        if streams_after(inputs).contains(id) {
            if opens_stream(last, id) {
                assert(open_since(inputs, id, inputs.len() - 1));
            } else {
                let at = choose|at: int| #[trigger] open_since(init, id, at);
                assert(inputs[at] == init[at]);
                assert forall|later: int| at < later < inputs.len() implies !closes_stream(
                    #[trigger] inputs[later],
                    id,
                ) by {
                    if later < init.len() {
                        assert(inputs[later] == init[later]);
                    }
                }
                assert(open_since(inputs, id, at));
            }
        }
        if exists|at: int| #[trigger] open_since(inputs, id, at) {
            let at = choose|at: int| #[trigger] open_since(inputs, id, at);
            if at < init.len() {
                assert(!closes_stream(inputs[inputs.len() - 1], id));
                assert(init[at] == inputs[at]);
                assert forall|later: int| at < later < init.len() implies !closes_stream(
                    #[trigger] init[later],
                    id,
                ) by {
                    assert(inputs[later] == init[later]);
                }
                assert(open_since(init, id, at));
            }
        }
    }
}

/// What was done after the input at `at`.
pub open spec fn action_at(inputs: Seq<Input>, at: int) -> ActionView {
    match inputs[at] {
        Input::Request { call, pairs } => proxy::routed(
            call,
            pairs,
            streams_after(inputs.take(at)),
        ),
        Input::Event { wait, event } => proxy::resumed(wait, event),
    }
}

/// Whether the input at `at` made the proxy wait for `wait`.
pub open spec fn awaited(inputs: Seq<Input>, at: int, wait: WaitView) -> bool {
    0 <= at < inputs.len() && (action_at(inputs, at) matches ActionView::Buffer { wait: w, .. }
        && w == wait)
}

/// Whether nothing came that the proxy did not wait for: each event is that of an earlier
/// request of the proxy.
pub open spec fn genuine(inputs: Seq<Input>) -> bool {
    forall|i: int|
        0 <= i < inputs.len() ==> ((#[trigger] inputs[i]) matches Input::Event { wait, .. }
            ==> exists|at: int| at < i && #[trigger] awaited(inputs, at, wait))
}

/// A raw stream is asked for only where Video Station refused to remux: the answer that is kept
/// while it is waited for is a refusal, and it came earlier, to a request for a remuxed stream.
pub proof fn law_raw_open_follows_a_refusal(inputs: Seq<Input>, i: int, first: AnswerView)
    requires
        genuine(inputs),
        0 <= i < inputs.len(),
        inputs[i] matches Input::Event { wait, .. } && wait == (WaitView::RawOpen { first }),
    ensures
        proxy::refuses(proxy::document_of(first)),
        exists|at: int| 0 <= at < i && #[trigger] refused_at(inputs, at, first),
{
    let at = choose|at: int|
        at < i && #[trigger] awaited(inputs, at, WaitView::RawOpen { first });
    assert(awaited(inputs, at, WaitView::RawOpen { first }));
    assert(refused_at(inputs, at, first));
}

/// Whether the input at `at` is the refusal `first` of a request for a remuxed stream.
pub open spec fn refused_at(inputs: Seq<Input>, at: int, first: AnswerView) -> bool {
    inputs[at] matches Input::Event { wait, event } && wait is Open && event == Ok::<
        AnswerView,
        Seq<char>,
    >(first) && proxy::refuses(proxy::document_of(first))
}

/// Every raw stream was opened after Video Station had refused to remux it.
pub proof fn law_raw_streams_were_refused(inputs: Seq<Input>, id: Seq<char>)
    requires
        genuine(inputs),
        streams_after(inputs).contains(id),
    ensures
        exists|at: int| #[trigger]
            open_since(inputs, id, at) && opened_after_refusal(inputs[at]),
{
    law_raw_streams_are_the_open_ones(inputs, id);
    let at = choose|at: int| #[trigger] open_since(inputs, id, at);
    if let Input::Event { wait, .. } = inputs[at] {
        if let WaitView::RawOpen { first } = wait {
            law_raw_open_follows_a_refusal(inputs, at, first);
        }
    }
    assert(open_since(inputs, id, at) && opened_after_refusal(inputs[at]));
}

/// Whether an input is the answer to a request for a raw stream that followed a refusal.
pub open spec fn opened_after_refusal(input: Input) -> bool {
    input matches Input::Event { wait: WaitView::RawOpen { first }, .. } && proxy::refuses(
        proxy::document_of(first),
    )
}

// ---------- the end-to-end check ----------

/// A check that passes, and no other, ends with the line `PASS`.
pub proof fn law_passing_check_ends_with_pass(passed: bool)
    ensures
        selftest::closing_lines(passed).last() == "PASS"@ <==> passed,
{
    reveal_strlit("PASS");
    reveal_strlit("logged out");
    assert("PASS"@.len() != "logged out"@.len());
}

/// The proxy takes the request of the end-to-end check for a stream as one that asks for a
/// remuxed stream.
pub proof fn law_check_asks_for_a_remuxed_stream(call: CallView, file_id: u64, sid: Seq<char>)
    requires
        params::parsed_form(encode_utf8(call.query)).len() == 0,
        params::announces_form(call.headers),
        params::parsed_form(call.body) == selftest::open_pairs(file_id, sid),
    ensures
        proxy::asks_remux(call.params()),
        proxy::file_of(call.params()) == selftest::file_reference(file_id),
{
    let pairs = selftest::open_pairs(file_id, sid);
    assert(call.params() =~= pairs);
    reveal_strlit("api");
    reveal_strlit("version");
    reveal_strlit("method");
    reveal_strlit("file");
    reveal_strlit("hls_remux");
    assert("api"@.len() == 3 && "version"@.len() == 7 && "method"@.len() == 6 && "file"@.len() == 4
        && "hls_remux"@.len() == 9);
    reveal_with_fuel(params::lookup, 6);
}

/// The headers that the end-to-end check sends announce a form.
pub proof fn law_check_announces_a_form(sent: Seq<(Seq<char>, Seq<u8>)>)
    requires
        sent == seq![("content-type"@, encode_utf8("application/x-www-form-urlencoded"@))],
    ensures
        params::announces_form(sent),
{
    reveal_strlit("application/x-www-form-urlencoded");
    let kind = "application/x-www-form-urlencoded"@;
    assert(is_ascii_chars(kind));
    is_ascii_chars_encode_utf8(kind);
    let value = encode_utf8(kind);
    assert(headers::ascii_text(value) =~= kind);
    reveal_strlit("content-type");
    assert(text::folded("content-type"@) =~= "content-type"@);
    assert(headers::folded_names(sent)[0] == ("content-type"@, value));
}

} // verus!
