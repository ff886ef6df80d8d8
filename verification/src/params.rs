//! Request parameters: urlencoded forms and what is looked up in them.

use crate::headers::{header, visible_text, Header};
use crate::text;
use vstd::prelude::*;
use vstd::string::*;
use vstd::utf8::*;

verus! {

/// A parameter: its name and its value.
pub type Pair = (Seq<char>, Seq<char>);

/// The parameters that a list of pairs stands for.
pub open spec fn pairs_of(params: Seq<(String, String)>) -> Seq<Pair> {
    params.map_values(|p: (String, String)| (p.0@, p.1@))
}

/// The value of the first entry under `key`.
pub open spec fn lookup<V>(entries: Seq<(Seq<char>, V)>, key: Seq<char>) -> Option<V>
    decreases entries.len(),
{
    if entries.len() == 0 {
        None
    } else if entries[0].0 == key {
        Some(entries[0].1)
    } else {
        lookup(entries.drop_first(), key)
    }
}

/// What `form_urlencoded::parse` reads from a byte string.
pub uninterp spec fn parsed_form(bytes: Seq<u8>) -> Seq<Pair>;

/// Whether an urlencoded form holds a byte as it is: a letter, a digit, or one of `*-._`.
pub open spec fn stays_in_form(b: u8) -> bool {
    ||| 48 <= b <= 57
    ||| 65 <= b <= 90
    ||| 97 <= b <= 122
    ||| b == 42
    ||| b == 45
    ||| b == 46
    ||| b == 95
}

/// A hexadecimal digit, in capitals.
pub open spec fn hex_digit(n: int) -> char {
    if n < 10 {
        ('0' as int + n) as char
    } else {
        ('A' as int + n - 10) as char
    }
}

/// What stands for a byte in an urlencoded form: itself, `+` for a space, or else `%` and its
/// two hexadecimal digits.
pub open spec fn encoded_byte(b: u8) -> Seq<char> {
    if stays_in_form(b) {
        seq![b as char]
    } else if b == 32 {
        seq!['+']
    } else {
        seq!['%', hex_digit(b as int / 16), hex_digit(b as int % 16)]
    }
}

/// What stands for a text in an urlencoded form: that of its UTF-8 bytes, one after the other.
pub open spec fn encoded_text(s: Seq<char>) -> Seq<char> {
    encode_utf8(s).map_values(|b: u8| encoded_byte(b)).flatten()
}

/// The urlencoded form of parameters: each name with its value behind `=`, and `&` between two
/// parameters.
pub open spec fn form_text(pairs: Seq<Pair>) -> Seq<char>
    decreases pairs.len(),
{
    if pairs.len() == 0 {
        Seq::empty()
    } else {
        let last = encoded_text(pairs.last().0) + seq!['='] + encoded_text(pairs.last().1);
        if pairs.len() == 1 {
            last
        } else {
            form_text(pairs.drop_last()) + seq!['&'] + last
        }
    }
}

/// Calls `form_urlencoded::parse`.
///
/// Believed: the parameters depend on the bytes alone.
#[verifier::external_body]
pub(crate) fn parse_form(bytes: &[u8]) -> (params: Vec<(String, String)>)
    ensures
        pairs_of(params@) == parsed_form(bytes@),
{
    form_urlencoded::parse(bytes).into_owned().collect()
}

/// Calls `extend_pairs` and `finish` of a new `form_urlencoded::Serializer`.
///
/// Believed: the text is the urlencoded form of the parameters, and `form_urlencoded::parse`
/// reads the same parameters from it, in the same order.
#[verifier::external_body]
pub(crate) fn write_form(params: &Vec<(String, String)>) -> (form: String)
    ensures
        form@ == form_text(pairs_of(params@)),
        parsed_form(encode_utf8(form@)) == pairs_of(params@),
{
    form_urlencoded::Serializer::new(String::new()).extend_pairs(params).finish()
}

/// The value of the first parameter named `key`.
pub fn param<'a>(params: &'a [(String, String)], key: &str) -> (value: Option<&'a str>)
    ensures
        value is Some == lookup(pairs_of(params@), key@) is Some,
        value matches Some(found) ==> lookup(pairs_of(params@), key@) == Some(found@),
{
    let ghost pairs = pairs_of(params@);
    let mut i: usize = 0;
    assert(pairs.skip(0) =~= pairs);
    while i < params.len()
        invariant
            i <= params.len(),
            pairs == pairs_of(params@),
            lookup(pairs.skip(i as int), key@) == lookup(pairs, key@),
        decreases params.len() - i,
    {
        assert(pairs.skip(i as int)[0] == (params[i as int].0@, params[i as int].1@));
        if text::same_text(params[i].0.as_str(), key) {
            return Some(params[i].1.as_str());
        }
        assert(pairs.skip(i as int).drop_first() =~= pairs.skip(i + 1));
        i = i + 1;
    }
    None
}

/// `s` without the quotation marks at its two ends.
pub open spec fn unquoted(s: Seq<char>) -> Seq<char> {
    text::trimmed(s, '"')
}

/// `s` without the quotation marks at its two ends.
pub fn unquote(s: &str) -> (bare: &str)
    ensures
        bare@ == unquoted(s@),
{
    text::trim(s, '"')
}

/// Which parameters have another name than `key`.
pub open spec fn other_than(key: Seq<char>) -> spec_fn(Pair) -> bool {
    |p: Pair| p.0 != key
}

/// The parameters but those named `key`, in their order.
pub open spec fn without(pairs: Seq<Pair>, key: Seq<char>) -> Seq<Pair> {
    pairs.filter(other_than(key))
}

/// The parameters with `value` in the place of each value under the name `key`.
pub open spec fn replaced(pairs: Seq<Pair>, key: Seq<char>, value: Seq<char>) -> Seq<Pair> {
    pairs.map_values(|p: Pair| if p.0 == key { (key, value) } else { p })
}

/// The parameters with the value `value` under the name `key`: in the place of each value that
/// stood there, or at the end where there was none. The other parameters stay as they are.
pub open spec fn with_param(pairs: Seq<Pair>, key: Seq<char>, value: Seq<char>) -> Seq<Pair> {
    if lookup(pairs, key) is Some {
        replaced(pairs, key, value)
    } else {
        replaced(pairs, key, value).push((key, value))
    }
}

/// An entry under `key` is found exactly where there is one.
pub proof fn lemma_lookup_is_some<V>(entries: Seq<(Seq<char>, V)>, key: Seq<char>)
    ensures
        lookup(entries, key) is Some <==> exists|i: int|
            0 <= i < entries.len() && (#[trigger] entries[i]).0 == key,
    decreases entries.len(),
{
    if entries.len() > 0 && entries[0].0 != key {
        let rest = entries.drop_first();
        lemma_lookup_is_some(rest, key);
        if exists|i: int| 0 <= i < entries.len() && (#[trigger] entries[i]).0 == key {
            let i = choose|i: int| 0 <= i < entries.len() && (#[trigger] entries[i]).0 == key;
            assert(rest[i - 1].0 == key);
        }
        if exists|i: int| 0 <= i < rest.len() && (#[trigger] rest[i]).0 == key {
            let i = choose|i: int| 0 <= i < rest.len() && (#[trigger] rest[i]).0 == key;
            assert(entries[i + 1].0 == key);
        }
    }
}

/// Replaces (or adds) the value under the name `key`, keeping the other parameters.
pub fn replace_param(params: &Vec<(String, String)>, key: &str, value: &str) -> (changed: Vec<
    (String, String),
>)
    ensures
        pairs_of(changed@) == with_param(pairs_of(params@), key@, value@),
{
    let ghost pairs = pairs_of(params@);
    let mut found: bool = false;
    let mut changed: Vec<(String, String)> = Vec::new();
    let mut i: usize = 0;
    while i < params.len()
        invariant
            i <= params.len(),
            changed.len() == i,
            pairs == pairs_of(params@),
            found == exists|j: int| 0 <= j < i && (#[trigger] pairs[j]).0 == key@,
            forall|j: int|
                #![trigger changed[j]]
                0 <= j < i ==> (changed[j].0@, changed[j].1@) == (if pairs[j].0 == key@ {
                    (key@, value@)
                } else {
                    pairs[j]
                }),
        decreases params.len() - i,
    {
        assert(pairs[i as int] == (params[i as int].0@, params[i as int].1@));
        if text::same_text(params[i].0.as_str(), key) {
            found = true;
            changed.push((params[i].0.clone(), value.to_owned()));
        } else {
            changed.push((params[i].0.clone(), params[i].1.clone()));
        }
        i = i + 1;
    }
    proof {
        lemma_lookup_is_some(pairs, key@);
    }
    if !found {
        changed.push((key.to_owned(), value.to_owned()));
    }
    assert(pairs_of(changed@) =~= with_param(pairs, key@, value@));
    changed
}

/// Leaves out the parameters named `key`.
pub fn leave_out(params: &Vec<(String, String)>, key: &str) -> (kept: Vec<(String, String)>)
    ensures
        pairs_of(kept@) == without(pairs_of(params@), key@),
{
    let ghost pairs = pairs_of(params@);
    let mut kept: Vec<(String, String)> = Vec::new();
    let mut i: usize = 0;
    assert(without(pairs.take(0), key@) =~= Seq::empty()) by {
        reveal(Seq::filter);
    }
    assert(pairs_of(kept@) =~= Seq::empty());
    while i < params.len()
        invariant
            i <= params.len(),
            pairs == pairs_of(params@),
            pairs_of(kept@) == without(pairs.take(i as int), key@),
        decreases params.len() - i,
    {
        let ghost before = kept@;
        assert(pairs.take(i + 1).drop_last() =~= pairs.take(i as int));
        assert(pairs.take(i + 1).last() == pairs[i as int]);
        if !text::same_text(params[i].0.as_str(), key) {
            kept.push((params[i].0.clone(), params[i].1.clone()));
            assert(pairs_of(kept@) =~= pairs_of(before).push(pairs[i as int]));
        }
        assert(pairs_of(kept@) == without(pairs.take(i + 1), key@)) by {
            reveal(Seq::filter);
        }
        i = i + 1;
    }
    assert(pairs.take(i as int) =~= pairs);
    kept
}

/// Replaces (or adds) one parameter of an urlencoded text, keeping the others.
pub fn set_param(encoded: &str, key: &str, value: &str) -> (form: String)
    ensures
        form@ == form_text(with_param(parsed_form(encode_utf8(encoded@)), key@, value@)),
        parsed_form(encode_utf8(form@)) == with_param(
            parsed_form(encode_utf8(encoded@)),
            key@,
            value@,
        ),
{
    let params = parse_form(encoded.as_bytes());
    write_form(&replace_param(&params, key, value))
}

/// Whether the headers announce an urlencoded form.
pub open spec fn announces_form(headers: Seq<(Seq<char>, Seq<u8>)>) -> bool {
    match crate::headers::header_value(headers, "content-type"@) {
        Some(value) => crate::headers::is_visible(value)
            && "application/x-www-form-urlencoded"@.is_prefix_of(crate::headers::ascii_text(value)),
        None => false,
    }
}

/// Whether the headers announce an urlencoded form.
pub fn is_form(headers: &Vec<Header>) -> (found: bool)
    ensures
        found == announces_form(crate::headers::headers_of(headers@)),
{
    match header(headers, "content-type") {
        Some(value) => match visible_text(value) {
            Some(kind) => text::starts_with(kind.as_str(), "application/x-www-form-urlencoded"),
            None => false,
        },
        None => false,
    }
}

/// The parameters of a request: those of its query, then those of its body where the headers
/// announce a form.
pub open spec fn request_params(
    query: Seq<char>,
    headers: Seq<(Seq<char>, Seq<u8>)>,
    body: Seq<u8>,
) -> Seq<Pair> {
    if announces_form(headers) {
        parsed_form(encode_utf8(query)) + parsed_form(body)
    } else {
        parsed_form(encode_utf8(query))
    }
}

/// The parameters of a request: those of its query, then those of its body where the headers
/// announce a form.
pub fn merged_params(query: &str, headers: &Vec<Header>, body: &[u8]) -> (params: Vec<
    (String, String),
>)
    ensures
        pairs_of(params@) == request_params(query@, crate::headers::headers_of(headers@), body@),
{
    let mut params = parse_form(query.as_bytes());
    if is_form(headers) {
        let ghost before = params@;
        let mut more = parse_form(body);
        let ghost added = more@;
        params.append(&mut more);
        assert(pairs_of(params@) =~= pairs_of(before) + pairs_of(added));
    }
    params
}

} // verus!
