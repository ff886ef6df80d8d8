//! Message headers, and which of them a proxy hands on.

use crate::params;
use crate::text;
use vstd::prelude::*;
use vstd::string::*;

verus! {

/// A header: its name, in which capitals make no difference, and its value.
pub struct Header {
    pub name: String,
    pub value: Vec<u8>,
}

impl View for Header {
    type V = (Seq<char>, Seq<u8>);

    open spec fn view(&self) -> (Seq<char>, Seq<u8>) {
        (self.name@, self.value@)
    }
}

/// The headers that a list stands for.
pub open spec fn headers_of(headers: Seq<Header>) -> Seq<(Seq<char>, Seq<u8>)> {
    headers.map_values(|h: Header| h@)
}

/// Whether a header concerns one connection only, so that a proxy does not hand it on. Capitals
/// in its name make no difference.
pub open spec fn is_hop_by_hop(name: Seq<char>) -> bool {
    let name = text::folded(name);
    ||| name == "connection"@
    ||| name == "keep-alive"@
    ||| name == "proxy-authenticate"@
    ||| name == "proxy-authorization"@
    ||| name == "te"@
    ||| name == "trailer"@
    ||| name == "transfer-encoding"@
    ||| name == "upgrade"@
    ||| name == "content-length"@
}

/// Whether a header concerns one connection only.
pub fn hop_by_hop(name: &str) -> (found: bool)
    ensures
        found == is_hop_by_hop(name@),
{
    let folded = text::fold(name);
    let name = folded.as_str();
    text::same_text(name, "connection") || text::same_text(name, "keep-alive")
        || text::same_text(name, "proxy-authenticate") || text::same_text(
        name,
        "proxy-authorization",
    ) || text::same_text(name, "te") || text::same_text(name, "trailer") || text::same_text(
        name,
        "transfer-encoding",
    ) || text::same_text(name, "upgrade") || text::same_text(name, "content-length")
}

/// The headers that a proxy hands on, in their order.
pub open spec fn end_to_end(headers: Seq<(Seq<char>, Seq<u8>)>) -> Seq<(Seq<char>, Seq<u8>)> {
    headers.filter(|h: (Seq<char>, Seq<u8>)| !is_hop_by_hop(h.0))
}

/// A copy of a header.
pub(crate) fn copy_header(h: &Header) -> (copy: Header)
    ensures
        copy@ == h@,
{
    let copy = Header { name: h.name.clone(), value: h.value.clone() };
    assert(copy.value@ =~= h.value@);
    copy
}

/// Appends to `to` the headers of `from` that a proxy hands on.
pub fn copy_headers(from: &Vec<Header>, to: &mut Vec<Header>)
    ensures
        headers_of(final(to)@) == headers_of(old(to)@) + end_to_end(headers_of(from@)),
{
    let ghost all = headers_of(from@);
    let ghost kept = |h: (Seq<char>, Seq<u8>)| !is_hop_by_hop(h.0);
    let mut i: usize = 0;
    assert(all.take(0).filter(kept) =~= Seq::empty()) by {
        reveal(Seq::filter);
    }
    assert(headers_of(to@) =~= headers_of(old(to)@) + all.take(0).filter(kept));
    while i < from.len()
        invariant
            i <= from.len(),
            all == headers_of(from@),
            kept == (|h: (Seq<char>, Seq<u8>)| !is_hop_by_hop(h.0)),
            headers_of(to@) == headers_of(old(to)@) + all.take(i as int).filter(kept),
        decreases from.len() - i,
    {
        let ghost before = to@;
        assert(all.take(i + 1).drop_last() =~= all.take(i as int));
        assert(all.take(i + 1).last() == from[i as int]@);
        if !hop_by_hop(from[i].name.as_str()) {
            let copy = copy_header(&from[i]);
            to.push(copy);
            assert(headers_of(to@) =~= headers_of(before).push(from[i as int]@));
        }
        assert(all.take(i + 1).filter(kept) == (if kept(from[i as int]@) {
            all.take(i as int).filter(kept).push(from[i as int]@)
        } else {
            all.take(i as int).filter(kept)
        })) by {
            reveal(Seq::filter);
        }
        assert(headers_of(to@) =~= headers_of(old(to)@) + all.take(i + 1).filter(kept));
        i = i + 1;
    }
    assert(all.take(i as int) =~= all);
}

/// The headers with the capitals of their names made small.
pub open spec fn folded_names(headers: Seq<(Seq<char>, Seq<u8>)>) -> Seq<(Seq<char>, Seq<u8>)> {
    headers.map_values(|h: (Seq<char>, Seq<u8>)| (text::folded(h.0), h.1))
}

/// The value of the first header named `name`, which is in small letters; capitals in the name
/// of the header make no difference.
pub open spec fn header_value(headers: Seq<(Seq<char>, Seq<u8>)>, name: Seq<char>) -> Option<
    Seq<u8>,
> {
    params::lookup(folded_names(headers), name)
}

/// The value of the first header named `name`, which is in small letters; capitals in the name
/// of the header make no difference.
pub fn header<'a>(headers: &'a Vec<Header>, name: &str) -> (value: Option<&'a [u8]>)
    ensures
        value is Some == header_value(headers_of(headers@), name@) is Some,
        value matches Some(found) ==> header_value(headers_of(headers@), name@) == Some(found@),
{
    let ghost all = folded_names(headers_of(headers@));
    let mut i: usize = 0;
    assert(all.skip(0) =~= all);
    while i < headers.len()
        invariant
            i <= headers.len(),
            all == folded_names(headers_of(headers@)),
            params::lookup(all.skip(i as int), name@) == params::lookup(all, name@),
        decreases headers.len() - i,
    {
        assert(all.skip(i as int)[0] == (
            text::folded(headers[i as int].name@),
            headers[i as int].value@,
        ));
        let folded = text::fold(headers[i].name.as_str());
        if text::same_text(folded.as_str(), name) {
            return Some(headers[i].value.as_slice());
        }
        assert(all.skip(i as int).drop_first() =~= all.skip(i + 1));
        i = i + 1;
    }
    None
}

/// Whether a header value is made of visible ASCII characters, spaces and tabs.
pub open spec fn is_visible(value: Seq<u8>) -> bool {
    forall|i: int| 0 <= i < value.len() ==> (32 <= #[trigger] value[i] < 127 || value[i] == 9)
}

/// ASCII bytes as text.
pub open spec fn ascii_text(value: Seq<u8>) -> Seq<char> {
    value.map_values(|b: u8| b as char)
}

/// A header value as text, where it is made of visible ASCII characters, spaces and tabs.
pub fn visible_text(value: &[u8]) -> (text: Option<String>)
    ensures
        text is Some == is_visible(value@),
        text matches Some(found) ==> found@ == ascii_text(value@),
{
    let mut text = String::new();
    let mut i: usize = 0;
    while i < value.len()
        invariant
            i <= value.len(),
            is_visible(value@.take(i as int)),
            text@ == ascii_text(value@.take(i as int)),
        decreases value.len() - i,
    {
        let b = value[i];
        if !(32 <= b && b < 127 || b == 9) {
            return None;
        }
        text.push(b as char);
        assert(value@.take(i + 1) =~= value@.take(i as int).push(b));
        assert(text@ =~= ascii_text(value@.take(i + 1)));
        i = i + 1;
    }
    assert(value@.take(i as int) =~= value@);
    Some(text)
}

/// The first header named `name` as text; `fallback` where there is none that can be shown.
pub open spec fn text_or(
    headers: Seq<(Seq<char>, Seq<u8>)>,
    name: Seq<char>,
    fallback: Seq<char>,
) -> Seq<char> {
    match header_value(headers, name) {
        Some(value) => if is_visible(value) {
            ascii_text(value)
        } else {
            fallback
        },
        None => fallback,
    }
}

/// The first header named `name` as text; `fallback` where there is none that can be shown.
pub fn header_text(headers: &Vec<Header>, name: &str, fallback: &str) -> (text: String)
    ensures
        text@ == text_or(headers_of(headers@), name@, fallback@),
{
    match header(headers, name) {
        Some(value) => match visible_text(value) {
            Some(text) => text,
            None => fallback.to_owned(),
        },
        None => fallback.to_owned(),
    }
}

/// A byte with an ASCII capital made small.
pub open spec fn small(b: u8) -> u8 {
    if 65 <= b <= 90 {
        (b + 32) as u8
    } else {
        b
    }
}

/// Whether a header value is `word`, which is in small letters, written in capitals or not.
pub open spec fn is_word(value: Seq<u8>, word: Seq<char>) -> bool {
    value.map_values(|b: u8| small(b) as char) == word
}

/// Whether a header value is `word`, which is in small letters, written in capitals or not.
pub fn says(value: &[u8], word: &str) -> (same: bool)
    ensures
        same == is_word(value@, word@),
{
    let mut folded = String::new();
    let mut i: usize = 0;
    while i < value.len()
        invariant
            i <= value.len(),
            folded@ == value@.take(i as int).map_values(|b: u8| small(b) as char),
        decreases value.len() - i,
    {
        let b = value[i];
        let c = if 65 <= b && b <= 90 {
            b + 32
        } else {
            b
        };
        folded.push(c as char);
        assert(value@.take(i + 1) =~= value@.take(i as int).push(b));
        assert(folded@ =~= value@.take(i + 1).map_values(|b: u8| small(b) as char));
        i = i + 1;
    }
    assert(value@.take(i as int) =~= value@);
    text::same_text(folded.as_str(), word)
}

/// Calls `HeaderValue::from` on a `u64` and `as_bytes` on the value.
///
/// Believed: the bytes are the number in decimal, in ASCII.
#[verifier::external_body]
fn length_value(length: u64) -> (value: Vec<u8>)
    ensures
        ascii_text(value@) == text::decimal_digits(length as nat),
{
    axum::http::HeaderValue::from(length).as_bytes().to_vec()
}

/// The header that announces the length of a body.
pub fn content_length(length: u64) -> (h: Header)
    ensures
        h.name@ == "content-length"@,
        ascii_text(h.value@) == text::decimal_digits(length as nat),
{
    Header { name: "content-length".to_owned(), value: length_value(length) }
}

} // verus!
