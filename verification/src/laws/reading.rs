//! What holds of texts, headers, parameters and documents: how they are read, whatever stands
//! around what is looked for.

use crate::headers;
use crate::json;
use crate::json::JsonTree;
use crate::message;
use crate::params;
use crate::text;
use vstd::prelude::*;
use vstd::utf8::*;

verus! {

// ---------- texts ----------

/// `n` times the character `c`.
pub open spec fn run(c: char, n: nat) -> Seq<char> {
    Seq::new(n, |i: int| c)
}

/// A text that does not end with `c` is what is left of it after any number of `c` was added at
/// its end and the end was trimmed.
pub proof fn law_ends_are_trimmed(s: Seq<char>, c: char, n: nat)
    requires
        s.len() > 0 ==> s.last() != c,
    ensures
        text::trimmed_end(s + run(c, n), c) == s,
    decreases n,
{
    let whole = s + run(c, n);
    if n == 0 {
        assert(whole =~= s);
    } else {
        let less = (n - 1) as nat;
        law_ends_are_trimmed(s, c, less);
        assert(whole.last() == c);
        assert(whole.drop_last() =~= s + run(c, less));
    }
}

/// The same at the front of a text.
proof fn lemma_fronts_are_trimmed(s: Seq<char>, c: char, n: nat)
    requires
        s.len() > 0 ==> s[0] != c,
    ensures
        text::trimmed_start(run(c, n) + s, c) == s,
    decreases n,
{
    let whole = run(c, n) + s;
    if n == 0 {
        assert(whole =~= s);
    } else {
        let less = (n - 1) as nat;
        lemma_fronts_are_trimmed(s, c, less);
        assert(whole[0] == c);
        assert(whole.drop_first() =~= run(c, less) + s);
    }
}

/// Whatever number of quotation marks stands before and behind a text that has none at its
/// ends, taking them off gives that text.
pub proof fn law_quotation_marks_are_taken_off(s: Seq<char>, before: nat, behind: nat)
    requires
        s.len() > 0 ==> s[0] != '"' && s.last() != '"',
    ensures
        params::unquoted(run('"', before) + s + run('"', behind)) == s,
{
    let tail = s + run('"', behind);
    assert(run('"', before) + s + run('"', behind) =~= run('"', before) + tail);
    if s.len() > 0 {
        lemma_fronts_are_trimmed(tail, '"', before);
        law_ends_are_trimmed(s, '"', behind);
    } else {
        let none = Seq::<char>::empty();
        let all = run('"', before + behind);
        assert(run('"', before) + tail =~= all + none);
        lemma_fronts_are_trimmed(none, '"', before + behind);
        assert(s =~= none);
        assert(text::trimmed_end(none, '"') =~= none);
    }
}

/// Making capitals small changes the letters from `A` to `Z` and no other character.
pub proof fn law_capitals_are_made_small(s: Seq<char>, i: int)
    requires
        0 <= i < s.len(),
    ensures
        text::folded(s).len() == s.len(),
        65 <= s[i] as int <= 90 ==> text::folded(s)[i] as int == s[i] as int + 32,
        !(65 <= s[i] as int <= 90) ==> text::folded(s)[i] == s[i],
{
}

/// A text occurs where it stands, and nowhere else.
pub proof fn law_parts_occur(before: Seq<char>, part: Seq<char>, after: Seq<char>, s: Seq<char>)
    ensures
        text::occurs(before + part + after, part),
        text::occurs(s, part) ==> exists|a: Seq<char>, b: Seq<char>| s == #[trigger] (a + part + b),
{
    let whole = before + part + after;
    assert(whole.subrange(before.len() as int, (before.len() + part.len()) as int) =~= part);
    assert(text::occurs_at(whole, part, before.len() as int));
    if text::occurs(s, part) {
        let at = choose|at: int| text::occurs_at(s, part, at);
        let a = s.take(at);
        let b = s.skip(at + part.len());
        assert(s =~= a + s.subrange(at, at + part.len()) + b);
        assert(s == a + part + b);
    }
}

/// The number that decimal digits stand for.
pub open spec fn number_of(digits: Seq<char>) -> int
    decreases digits.len(),
{
    if digits.len() == 0 {
        0
    } else {
        10 * number_of(digits.drop_last()) + (digits.last() as int - 48)
    }
}

/// A number that is written in decimal is read back from its digits; the first one is no zero,
/// unless it is the only one.
pub proof fn law_decimals_are_read_back(n: nat)
    ensures
        number_of(text::decimal_digits(n)) == n,
        text::decimal_digits(n).len() > 0,
        forall|i: int|
            0 <= i < text::decimal_digits(n).len() ==> 48 <= (#[trigger] text::decimal_digits(
                n,
            )[i]) as int <= 57,
        text::decimal_digits(n).len() > 1 ==> text::decimal_digits(n)[0] != '0',
    decreases n,
{
    let digits = text::decimal_digits(n);
    if n < 10 {
        assert(digits.drop_last() =~= Seq::empty());
        assert(number_of(digits.drop_last()) == 0);
    } else {
        let rest = text::decimal_digits(n / 10);
        law_decimals_are_read_back(n / 10);
        assert(digits.drop_last() =~= rest);
        if rest.len() == 1 {
            assert(rest.drop_last() =~= Seq::empty());
            assert(number_of(rest.drop_last()) == 0);
            assert(rest[0] as int - 48 == n / 10);
        }
        assert forall|i: int| 0 <= i < digits.len() implies 48 <= (#[trigger] digits[i]) as int
            <= 57 by {
            if i < rest.len() {
                assert(digits[i] == rest[i]);
            }
        }
    }
}

// ---------- entries ----------

/// The first entry under a name is the one that is found, whatever stands before and behind it;
/// where there is none, none is found.
pub proof fn law_first_entry_is_found<V>(
    before: Seq<(Seq<char>, V)>,
    key: Seq<char>,
    value: V,
    after: Seq<(Seq<char>, V)>,
)
    requires
        forall|i: int| 0 <= i < before.len() ==> (#[trigger] before[i]).0 != key,
    ensures
        params::lookup(before, key) is None,
        params::lookup(before + seq![(key, value)] + after, key) == Some(value),
{
    params::lemma_lookup_is_some(before, key);
    super::lemma_lookup_push(before, (key, value), key);
    assert(before + seq![(key, value)] =~= before.push((key, value)));
    super::lemma_lookup_add(before + seq![(key, value)], after, key);
}

/// Leaving out a name goes through the parameters one by one: each that has another name stays,
/// in its order.
pub proof fn law_others_stay(pairs: Seq<params::Pair>, pair: params::Pair, key: Seq<char>)
    ensures
        params::without(Seq::empty(), key) == Seq::<params::Pair>::empty(),
        pair.0 == key ==> params::without(pairs.push(pair), key) == params::without(pairs, key),
        pair.0 != key ==> params::without(pairs.push(pair), key) == params::without(
            pairs,
            key,
        ).push(pair),
{
    reveal(Seq::filter);
    assert(params::without(Seq::empty(), key) =~= Seq::<params::Pair>::empty());
    pairs.lemma_filter_push(pair, params::other_than(key));
}

/// Setting a parameter keeps every parameter in its place. The value is put in the place of
/// each that stood under the name, and is added at the end only where none did.
pub proof fn law_set_param_by_place(
    pairs: Seq<params::Pair>,
    key: Seq<char>,
    value: Seq<char>,
    i: int,
)
    requires
        0 <= i < pairs.len(),
    ensures
        params::with_param(pairs, key, value)[i] == (if pairs[i].0 == key {
            (key, value)
        } else {
            pairs[i]
        }),
        pairs[i].0 == key ==> params::with_param(pairs, key, value).len() == pairs.len(),
{
    params::lemma_lookup_is_some(pairs, key);
}

/// A parameter that is set under a name that does not occur stands at the end.
pub proof fn law_set_param_adds(pairs: Seq<params::Pair>, key: Seq<char>, value: Seq<char>)
    requires
        forall|i: int| 0 <= i < pairs.len() ==> (#[trigger] pairs[i]).0 != key,
    ensures
        params::with_param(pairs, key, value) == pairs.push((key, value)),
{
    params::lemma_lookup_is_some(pairs, key);
    assert(params::with_param(pairs, key, value) =~= pairs.push((key, value)));
}

/// A form is written parameter by parameter, with `&` between two of them and `=` between a
/// name and its value.
pub proof fn law_forms_are_joined(pairs: Seq<params::Pair>, pair: params::Pair)
    ensures
        params::form_text(Seq::empty()) == Seq::<char>::empty(),
        params::form_text(seq![pair]) == params::encoded_text(pair.0) + seq!['=']
            + params::encoded_text(pair.1),
        pairs.len() > 0 ==> params::form_text(pairs.push(pair)) == params::form_text(pairs)
            + seq!['&'] + params::form_text(seq![pair]),
{
    assert(pairs.push(pair).drop_last() =~= pairs);
}

/// What stands for a byte in a form tells which byte it is: a letter, a digit or one of `*-._`
/// stands for itself, `+` for a space, and the two digits behind `%` give any other byte in
/// hexadecimal.
pub proof fn law_escaped_bytes_are_read_back(b: u8)
    ensures
        48 <= b <= 57 || 65 <= b <= 90 || 97 <= b <= 122 || b == '*' as u8 || b == '-' as u8 || b
            == '.' as u8 || b == '_' as u8 ==> params::encoded_byte(b) == seq![b as char],
        b == ' ' as u8 ==> params::encoded_byte(b) == seq!['+'],
        params::encoded_byte(b).len() == 1 || params::encoded_byte(b).len() == 3,
        params::encoded_byte(b).len() == 1 && b != ' ' as u8 ==> params::encoded_byte(b)[0] != '+'
            && params::encoded_byte(b)[0] != '%' && params::encoded_byte(b)[0] != '&'
            && params::encoded_byte(b)[0] != '=',
        params::encoded_byte(b).len() == 3 ==> {
            let high = params::encoded_byte(b)[1] as int;
            let low = params::encoded_byte(b)[2] as int;
            &&& params::encoded_byte(b)[0] == '%'
            &&& 48 <= high <= 57 || 65 <= high <= 70
            &&& 48 <= low <= 57 || 65 <= low <= 70
            &&& b == 16 * (if high <= 57 {
                high - 48
            } else {
                high - 55
            }) + (if low <= 57 {
                low - 48
            } else {
                low - 55
            })
        },
{
}

/// The bytes of two texts, one behind the other.
proof fn lemma_encode_add(a: Seq<char>, b: Seq<char>)
    ensures
        encode_utf8(a + b) == encode_utf8(a) + encode_utf8(b),
    decreases a.len(),
{
    reveal_with_fuel(encode_utf8, 2);
    if a.len() == 0 {
        assert(a + b =~= b);
        assert(encode_utf8(a) =~= Seq::empty());
        assert(encode_utf8(a) + encode_utf8(b) =~= encode_utf8(b));
    } else {
        lemma_encode_add(a.drop_first(), b);
        assert((a + b).drop_first() =~= a.drop_first() + b);
        assert(encode_utf8(a + b) =~= encode_utf8(a) + encode_utf8(b));
    }
}

/// A text is written into a form piece by piece, and a text of one ASCII character as the byte
/// of that character.
pub proof fn law_texts_are_escaped_piece_by_piece(a: Seq<char>, b: Seq<char>, c: char)
    ensures
        params::encoded_text(a + b) == params::encoded_text(a) + params::encoded_text(b),
        (c as int) < 128 ==> params::encoded_text(seq![c]) == params::encoded_byte(c as u8),
{
    lemma_encode_add(a, b);
    let pieces = |s: Seq<char>| encode_utf8(s).map_values(|b: u8| params::encoded_byte(b));
    assert(pieces(a + b) =~= pieces(a) + pieces(b));
    vstd::seq_lib::lemma_flatten_concat(pieces(a), pieces(b));
    if (c as int) < 128 {
        is_ascii_chars_encode_utf8(seq![c]);
        assert(pieces(seq![c]) =~= seq![params::encoded_byte(c as u8)]);
        pieces(seq![c]).lemma_flatten_one_element();
    }
}

// ---------- headers ----------

/// The first header of a name is the one that is found, in whatever capitals its name is
/// written and whatever headers stand before and behind it; where there is none, none is found.
pub proof fn law_headers_are_found_wherever_they_stand(
    before: Seq<(Seq<char>, Seq<u8>)>,
    found: (Seq<char>, Seq<u8>),
    after: Seq<(Seq<char>, Seq<u8>)>,
    name: Seq<char>,
)
    requires
        forall|i: int| 0 <= i < before.len() ==> text::folded((#[trigger] before[i]).0) != name,
        text::folded(found.0) == name,
    ensures
        headers::header_value(before, name) is None,
        headers::header_value(before + seq![found] + after, name) == Some(found.1),
{
    let front = headers::folded_names(before);
    assert forall|i: int| 0 <= i < front.len() implies (#[trigger] front[i]).0 != name by {
        assert(front[i].0 == text::folded(before[i].0));
    }
    law_first_entry_is_found(front, name, found.1, headers::folded_names(after));
    assert(headers::folded_names(before + seq![found] + after) =~= front + seq![(name, found.1)]
        + headers::folded_names(after));
}

/// A header of another name, put before or behind the others, changes nothing for the one that
/// is looked for.
pub proof fn law_other_headers_make_no_difference(
    other: (Seq<char>, Seq<u8>),
    all: Seq<(Seq<char>, Seq<u8>)>,
    name: Seq<char>,
)
    requires
        text::folded(other.0) != name,
    ensures
        headers::header_value(seq![other] + all, name) == headers::header_value(all, name),
        headers::header_value(all.push(other), name) == headers::header_value(all, name),
{
    let one = seq![other];
    assert(headers::folded_names(one + all) =~= headers::folded_names(one)
        + headers::folded_names(all));
    super::lemma_lookup_add(headers::folded_names(one), headers::folded_names(all), name);
    params::lemma_lookup_is_some(headers::folded_names(one), name);
    let folded = (text::folded(other.0), other.1);
    assert(headers::folded_names(all.push(other)) =~= headers::folded_names(all).push(folded));
    super::lemma_lookup_push(headers::folded_names(all), folded, name);
}

/// Headers announce a form exactly where the first content type starts with
/// `application/x-www-form-urlencoded` and is plain text, in whatever place it stands.
pub proof fn law_content_type_announces_a_form(
    before: Seq<(Seq<char>, Seq<u8>)>,
    kind: (Seq<char>, Seq<u8>),
    after: Seq<(Seq<char>, Seq<u8>)>,
)
    requires
        forall|i: int|
            0 <= i < before.len() ==> text::folded((#[trigger] before[i]).0) != "content-type"@,
        text::folded(kind.0) == "content-type"@,
    ensures
        !params::announces_form(before),
        params::announces_form(before + seq![kind] + after) <==> {
            &&& forall|k: int|
                0 <= k < kind.1.len() ==> (32 <= #[trigger] kind.1[k] <= 126 || kind.1[k] == 9)
            &&& kind.1.len() >= "application/x-www-form-urlencoded"@.len()
            &&& forall|k: int|
                0 <= k < "application/x-www-form-urlencoded"@.len() ==> (#[trigger] kind.1[k]) as int
                    == "application/x-www-form-urlencoded"@[k] as int
        },
{
    law_headers_are_found_wherever_they_stand(before, kind, after, "content-type"@);
    let wanted = "application/x-www-form-urlencoded"@;
    let shown = headers::ascii_text(kind.1);
    assert(shown.len() == kind.1.len());
    assert forall|k: int| 0 <= k < kind.1.len() implies (#[trigger] shown[k]) as int
        == kind.1[k] as int by {}
    if wanted.is_prefix_of(shown) {
        assert forall|k: int| 0 <= k < wanted.len() implies (#[trigger] kind.1[k]) as int
            == wanted[k] as int by {
            assert(shown[k] == wanted[k]);
        }
    }
    if kind.1.len() >= wanted.len() && forall|k: int|
        0 <= k < wanted.len() ==> (#[trigger] kind.1[k]) as int == wanted[k] as int {
        assert forall|k: int| 0 <= k < wanted.len() implies wanted[k] == shown[k] by {
            assert(kind.1[k] as int == wanted[k] as int);
        }
        assert(wanted.is_prefix_of(shown));
    }
}

/// A header of another name, put before or behind the others, changes neither whether they
/// announce a form nor the parameters of the request.
pub proof fn law_other_headers_leave_the_parameters(
    other: (Seq<char>, Seq<u8>),
    all: Seq<(Seq<char>, Seq<u8>)>,
    query: Seq<char>,
    body: Seq<u8>,
)
    requires
        text::folded(other.0) != "content-type"@,
    ensures
        params::announces_form(seq![other] + all) == params::announces_form(all),
        params::announces_form(all.push(other)) == params::announces_form(all),
        params::request_params(query, seq![other] + all, body) == params::request_params(
            query,
            all,
            body,
        ),
        params::request_params(query, all.push(other), body) == params::request_params(
            query,
            all,
            body,
        ),
{
    law_other_headers_make_no_difference(other, all, "content-type"@);
}

/// The parameters of a request are those of its query and, behind them, those of its body if it
/// is announced as a form: all of them, in their order, and no others.
pub proof fn law_parameters_of_a_request(call: message::CallView, i: int)
    ensures
        ({
            let query = params::parsed_form(encode_utf8(call.query));
            let body = params::parsed_form(call.body);
            &&& 0 <= i < query.len() ==> call.params()[i] == query[i]
            &&& params::announces_form(call.headers) ==> call.params().len() == query.len()
                + body.len()
            &&& params::announces_form(call.headers) && 0 <= i < body.len() ==> call.params()[
            query.len() + i] == body[i]
            &&& !params::announces_form(call.headers) ==> call.params().len() == query.len()
        }),
{
}

/// What is shown of a header is its first value, byte by byte, wherever it stands; the fallback
/// is shown where it is not plain text, or missing.
pub proof fn law_headers_are_shown(
    before: Seq<(Seq<char>, Seq<u8>)>,
    found: (Seq<char>, Seq<u8>),
    after: Seq<(Seq<char>, Seq<u8>)>,
    name: Seq<char>,
    fallback: Seq<char>,
)
    requires
        forall|i: int| 0 <= i < before.len() ==> text::folded((#[trigger] before[i]).0) != name,
        text::folded(found.0) == name,
    ensures
        headers::text_or(before, name, fallback) == fallback,
        ({
            let shown = headers::text_or(before + seq![found] + after, name, fallback);
            if forall|k: int|
                0 <= k < found.1.len() ==> (32 <= #[trigger] found.1[k] <= 126 || found.1[k] == 9) {
                shown.len() == found.1.len() && forall|k: int|
                    0 <= k < found.1.len() ==> (#[trigger] shown[k]) as int == found.1[k] as int
            } else {
                shown == fallback
            }
        }),
{
    law_headers_are_found_wherever_they_stand(before, found, after, name);
}

/// A value is a word in any capitals exactly where each byte is the letter of the word or its
/// capital.
pub proof fn law_words_in_any_capitals(value: Seq<u8>, word: Seq<char>)
    ensures
        headers::is_word(value, word) <==> {
            &&& value.len() == word.len()
            &&& forall|i: int|
                0 <= i < value.len() ==> (if 65 <= #[trigger] value[i] <= 90 {
                    value[i] + 32
                } else {
                    value[i] as int
                }) == word[i] as int
        },
{
    let shown = value.map_values(|b: u8| headers::small(b) as char);
    assert forall|i: int| 0 <= i < value.len() implies (#[trigger] shown[i]) as int == (if 65
        <= value[i] <= 90 {
        value[i] + 32
    } else {
        value[i] as int
    }) by {}
    if headers::is_word(value, word) {
        assert forall|i: int| 0 <= i < value.len() implies (if 65 <= #[trigger] value[i] <= 90 {
            value[i] + 32
        } else {
            value[i] as int
        }) == word[i] as int by {
            assert(shown[i] == word[i]);
        }
    }
    if value.len() == word.len() && forall|i: int|
        0 <= i < value.len() ==> (if 65 <= #[trigger] value[i] <= 90 {
            value[i] + 32
        } else {
            value[i] as int
        }) == word[i] as int {
        assert forall|i: int| 0 <= i < value.len() implies shown[i] == word[i] by {
            let b = value[i];
        }
        assert(shown =~= word);
    }
}

// ---------- documents ----------

/// The document that bytes hold, if they hold one.
pub open spec fn document_in(bytes: Option<Seq<u8>>) -> Option<JsonTree> {
    match bytes {
        Some(found) => match json::parsed_json(found) {
            Ok(tree) => Some(tree),
            Err(_) => None,
        },
        None => None,
    }
}

/// The bytes of `gzip`, in any capitals.
pub open spec fn is_gzip(value: Seq<u8>) -> bool {
    &&& value.len() == 4
    &&& value[0] == 'g' as u8 || value[0] == 'G' as u8
    &&& value[1] == 'z' as u8 || value[1] == 'Z' as u8
    &&& value[2] == 'i' as u8 || value[2] == 'I' as u8
    &&& value[3] == 'p' as u8 || value[3] == 'P' as u8
}

/// A body is unpacked exactly where the first content encoding is `gzip`, in any capitals and in
/// whatever place it stands; otherwise the document is read from the body as it is.
pub proof fn law_packed_documents_are_read(
    before: Seq<(Seq<char>, Seq<u8>)>,
    encoding: (Seq<char>, Seq<u8>),
    after: Seq<(Seq<char>, Seq<u8>)>,
    body: Seq<u8>,
)
    requires
        forall|i: int|
            0 <= i < before.len() ==> text::folded((#[trigger] before[i]).0)
                != "content-encoding"@,
        text::folded(encoding.0) == "content-encoding"@,
    ensures
        message::body_json(before, body) == document_in(Some(body)),
        is_gzip(encoding.1) ==> message::body_json(before + seq![encoding] + after, body)
            == document_in(message::unpacked(body)),
        !is_gzip(encoding.1) ==> message::body_json(before + seq![encoding] + after, body)
            == document_in(Some(body)),
{
    law_headers_are_found_wherever_they_stand(before, encoding, after, "content-encoding"@);
    law_words_in_any_capitals(encoding.1, "gzip"@);
    reveal_strlit("gzip");
    let value = encoding.1;
    if is_gzip(value) {
        assert forall|i: int| 0 <= i < value.len() implies (if 65 <= #[trigger] value[i] <= 90 {
            value[i] + 32
        } else {
            value[i] as int
        }) == "gzip"@[i] as int by {
            assert(i == 0 || i == 1 || i == 2 || i == 3);
        }
        assert(headers::is_word(value, "gzip"@));
    } else if headers::is_word(value, "gzip"@) {
        assert(value[0] == 'g' as u8 || value[0] == 'G' as u8);
        assert(value[1] == 'z' as u8 || value[1] == 'Z' as u8);
        assert(value[2] == 'i' as u8 || value[2] == 'I' as u8);
        assert(value[3] == 'p' as u8 || value[3] == 'P' as u8);
    }
}

/// A header of another name, put before or behind the others, does not change the document that
/// an answer holds.
pub proof fn law_other_headers_leave_the_document(
    other: (Seq<char>, Seq<u8>),
    all: Seq<(Seq<char>, Seq<u8>)>,
    body: Seq<u8>,
)
    requires
        text::folded(other.0) != "content-encoding"@,
    ensures
        message::body_json(seq![other] + all, body) == message::body_json(all, body),
        message::body_json(all.push(other), body) == message::body_json(all, body),
{
    law_other_headers_make_no_difference(other, all, "content-encoding"@);
}

/// A member is found in an object that has it; all else has none. A number has an integer, a
/// string a text, and nothing else has either.
pub proof fn law_members(
    members: Map<Seq<char>, JsonTree>,
    key: Seq<char>,
    value: JsonTree,
    other: JsonTree,
    integer: Option<i64>,
    text: Seq<char>,
)
    ensures
        JsonTree::Object(members.insert(key, value)).member(key) == value,
        JsonTree::Object(members.remove(key)).member(key) == JsonTree::Null,
        other !is Object ==> other.member(key) == JsonTree::Null,
        (JsonTree::Number { integer, text }).integer() == integer,
        other !is Number ==> other.integer() is None,
        JsonTree::Str(text).string() == Some(text),
        other !is Str ==> other.string() is None,
{
}

/// An object is filled member by member, and of two under one key the later stays.
pub proof fn law_objects_are_filled(members: Seq<(String, json::Json)>, member: (String, json::Json))
    ensures
        json::members_of(Seq::empty()) == Map::<Seq<char>, JsonTree>::empty(),
        json::members_of(members.push(member)) == json::members_of(members).insert(
            member.0@,
            member.1@,
        ),
{
    assert(members.push(member).drop_last() =~= members);
}

// ---------- lists ----------

/// A list stands for what its entries hold, one for one and in their order.
pub proof fn law_lists_stand_for_their_entries(
    pairs: Seq<(String, String)>,
    list: Seq<headers::Header>,
    lines: Seq<String>,
    i: int,
)
    ensures
        params::pairs_of(pairs).len() == pairs.len(),
        headers::headers_of(list).len() == list.len(),
        crate::proxy::lines_of(lines).len() == lines.len(),
        0 <= i < pairs.len() ==> params::pairs_of(pairs)[i] == (pairs[i].0@, pairs[i].1@),
        0 <= i < list.len() ==> headers::headers_of(list)[i] == (list[i].name@, list[i].value@),
        0 <= i < lines.len() ==> crate::proxy::lines_of(lines)[i] == lines[i]@,
{
}

} // verus!
