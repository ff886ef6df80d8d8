//! Text helpers: comparing, searching and trimming strings, and writing numbers.
//!
//! A string is reasoned about as the sequence of its characters, its view.

use vstd::prelude::*;
use vstd::string::*;
use vstd::utf8::*;

verus! {

/// The text that [`String::from_utf8_lossy`] makes of a byte string.
pub uninterp spec fn lossy_text(bytes: Seq<u8>) -> Seq<char>;

/// `String::push` appends one character.
pub assume_specification[ String::push ](s: &mut String, c: char)
    ensures
        final(s)@ == old(s)@.push(c),
;

/// Calls `String::from_utf8_lossy`.
///
/// Believed: the text depends on the bytes alone, and bytes that are UTF-8 become the
/// characters that they encode. What replaces bytes that are not UTF-8 is left unsaid.
#[verifier::external_body]
pub(crate) fn from_utf8_lossy(bytes: &[u8]) -> (text: String)
    ensures
        text@ == lossy_text(bytes@),
        valid_utf8(bytes@) ==> text@ == decode_utf8(bytes@),
{
    String::from_utf8_lossy(bytes).into_owned()
}

/// The characters of `s`, one by one.
pub fn chars_of(s: &str) -> (chars: Vec<char>)
    ensures
        chars@ == s@,
{
    let mut chars: Vec<char> = Vec::new();
    for c in iter: s.chars()
        invariant
            iter.seq() == s@,
            chars@ == s@.take(iter.index() as int),
    {
        chars.push(c);
    }
    chars
}

/// Whether two texts are the same.
pub fn same_text(a: &str, b: &str) -> (same: bool)
    ensures
        same == (a@ == b@),
{
    let left = a.as_bytes();
    let right = b.as_bytes();
    proof {
        encode_utf8_decode_utf8(a@);
        encode_utf8_decode_utf8(b@);
    }
    if left.len() != right.len() {
        return false;
    }
    let mut i: usize = 0;
    while i < left.len()
        invariant
            i <= left.len(),
            left.len() == right.len(),
            left@ == encode_utf8(a@),
            right@ == encode_utf8(b@),
            forall|j: int| 0 <= j < i ==> left[j] == right[j],
        decreases left.len() - i,
    {
        if left[i] != right[i] {
            return false;
        }
        i = i + 1;
    }
    assert(left@ =~= right@);
    true
}

/// Whether `part` stands in `s` at position `at`.
pub open spec fn occurs_at(s: Seq<char>, part: Seq<char>, at: int) -> bool {
    0 <= at && at + part.len() <= s.len() && s.subrange(at, at + part.len()) == part
}

/// Whether `part` stands anywhere in `s`.
pub open spec fn occurs(s: Seq<char>, part: Seq<char>) -> bool {
    exists|at: int| occurs_at(s, part, at)
}

/// Whether `part` stands in `s` at position `at`.
fn matches_at(s: &Vec<char>, part: &Vec<char>, at: usize) -> (found: bool)
    requires
        at <= s.len(),
    ensures
        found == occurs_at(s@, part@, at as int),
{
    if part.len() > s.len() - at {
        return false;
    }
    let mut i: usize = 0;
    while i < part.len()
        invariant
            i <= part.len(),
            at + part.len() <= s.len(),
            forall|j: int| 0 <= j < i ==> s[at + j] == part[j],
        decreases part.len() - i,
    {
        if s[at + i] != part[i] {
            assert(s@.subrange(at as int, at + part.len())[i as int] != part@[i as int]);
            return false;
        }
        i = i + 1;
    }
    assert(s@.subrange(at as int, at + part.len()) =~= part@);
    true
}

/// Whether `s` starts with `prefix`.
pub fn starts_with(s: &str, prefix: &str) -> (found: bool)
    ensures
        found == prefix@.is_prefix_of(s@),
{
    let found = matches_at(&chars_of(s), &chars_of(prefix), 0);
    proof {
        if found {
            assert forall|i: int| 0 <= i < prefix@.len() implies prefix@[i] == s@[i] by {
                assert(s@.subrange(0, prefix@.len() as int)[i] == prefix@[i]);
            }
        }
        if prefix@.is_prefix_of(s@) {
            assert(s@.subrange(0, prefix@.len() as int) =~= prefix@);
        }
    }
    found
}

/// Whether `part` occurs in `s`.
pub fn contains(s: &str, part: &str) -> (found: bool)
    ensures
        found == occurs(s@, part@),
{
    let chars = chars_of(s);
    let wanted = chars_of(part);
    let mut at: usize = 0;
    loop
        invariant
            at <= chars.len(),
            chars@ == s@,
            wanted@ == part@,
            forall|i: int| 0 <= i < at ==> !occurs_at(s@, part@, i),
        decreases chars.len() - at,
    {
        if matches_at(&chars, &wanted, at) {
            return true;
        }
        if at == chars.len() {
            return false;
        }
        at = at + 1;
    }
}

/// `s` without the run of `c` at its end.
pub open spec fn trimmed_end(s: Seq<char>, c: char) -> Seq<char>
    decreases s.len(),
{
    if s.len() > 0 && s.last() == c {
        trimmed_end(s.drop_last(), c)
    } else {
        s
    }
}

/// `s` without the run of `c` at its front.
pub open spec fn trimmed_start(s: Seq<char>, c: char) -> Seq<char>
    decreases s.len(),
{
    if s.len() > 0 && s[0] == c {
        trimmed_start(s.drop_first(), c)
    } else {
        s
    }
}

/// `s` without the runs of `c` at its two ends.
pub open spec fn trimmed(s: Seq<char>, c: char) -> Seq<char> {
    trimmed_end(trimmed_start(s, c), c)
}

/// Where `s` ends once the run of `c` at its end is left off, no further left than `from`.
fn end_without(s: &Vec<char>, c: char, from: usize) -> (end: usize)
    requires
        from <= s.len(),
    ensures
        from <= end <= s.len(),
        s@.subrange(from as int, end as int) == trimmed_end(
            s@.subrange(from as int, s.len() as int),
            c,
        ),
{
    let mut end: usize = s.len();
    while end > from && s[end - 1] == c
        invariant
            from <= end <= s.len(),
            trimmed_end(s@.subrange(from as int, end as int), c) == trimmed_end(
                s@.subrange(from as int, s.len() as int),
                c,
            ),
        decreases end,
    {
        assert(s@.subrange(from as int, end as int).drop_last() =~= s@.subrange(
            from as int,
            end - 1,
        ));
        end = end - 1;
    }
    end
}

/// Where `s` starts once the run of `c` at its front is left off.
fn start_without(s: &Vec<char>, c: char) -> (start: usize)
    ensures
        start <= s.len(),
        s@.subrange(start as int, s.len() as int) == trimmed_start(s@, c),
{
    let mut start: usize = 0;
    assert(s@.subrange(0, s.len() as int) =~= s@);
    while start < s.len() && s[start] == c
        invariant
            start <= s.len(),
            trimmed_start(s@.subrange(start as int, s.len() as int), c) == trimmed_start(s@, c),
        decreases s.len() - start,
    {
        assert(s@.subrange(start as int, s.len() as int).drop_first() =~= s@.subrange(
            start + 1,
            s.len() as int,
        ));
        start = start + 1;
    }
    start
}

/// `s` without the run of `c` at its end.
pub fn trim_end(s: &str, c: char) -> (kept: &str)
    ensures
        kept@ == trimmed_end(s@, c),
{
    let chars = chars_of(s);
    let end = end_without(&chars, c, 0);
    assert(chars@.subrange(0, chars.len() as int) =~= s@);
    s.substring_char(0, end)
}

/// `s` without the runs of `c` at its two ends.
pub fn trim(s: &str, c: char) -> (kept: &str)
    ensures
        kept@ == trimmed(s@, c),
{
    let chars = chars_of(s);
    let start = start_without(&chars, c);
    let end = end_without(&chars, c, start);
    s.substring_char(start, end)
}

/// A character with an ASCII capital made small.
pub open spec fn small(c: char) -> char {
    if 'A' <= c <= 'Z' {
        ((c as u32) + 32) as char
    } else {
        c
    }
}

/// A text with its ASCII capitals made small.
pub open spec fn folded(s: Seq<char>) -> Seq<char> {
    s.map_values(|c: char| small(c))
}

/// `s` with its ASCII capitals made small.
pub fn fold(s: &str) -> (text: String)
    ensures
        text@ == folded(s@),
{
    let chars = chars_of(s);
    let mut text = String::new();
    let mut i: usize = 0;
    while i < chars.len()
        invariant
            i <= chars.len(),
            chars@ == s@,
            text@ == folded(s@.take(i as int)),
        decreases chars.len() - i,
    {
        let c = chars[i];
        if 'A' <= c && c <= 'Z' {
            text.push((c as u8 + 32) as char);
        } else {
            text.push(c);
        }
        assert(s@.take(i + 1) =~= s@.take(i as int).push(c));
        assert(text@ =~= folded(s@.take(i + 1)));
        i = i + 1;
    }
    assert(s@.take(i as int) =~= s@);
    text
}

/// The digit that stands for `d`, which is below ten.
pub open spec fn digit(d: nat) -> char {
    (48 + d) as char
}

/// `n` in decimal, without leading zeros.
pub open spec fn decimal_digits(n: nat) -> Seq<char>
    decreases n,
{
    if n < 10 {
        seq![digit(n)]
    } else {
        decimal_digits(n / 10).push(digit(n % 10))
    }
}

/// `n` in decimal.
pub fn decimal(n: u64) -> (text: String)
    ensures
        text@ == decimal_digits(n as nat),
    decreases n,
{
    let mut text = if n < 10 {
        String::new()
    } else {
        decimal(n / 10)
    };
    let last: u8 = 48 + (n % 10) as u8;
    text.push(last as char);
    assert(text@ =~= decimal_digits(n as nat));
    text
}

/// Trimming leaves nothing of `c` at the end, and all that stands before it.
pub proof fn lemma_trimmed_end(s: Seq<char>, c: char)
    ensures
        trimmed_end(s, c).len() <= s.len(),
        trimmed_end(s, c) == s.take(trimmed_end(s, c).len() as int),
        trimmed_end(s, c).len() > 0 ==> trimmed_end(s, c).last() != c,
        forall|i: int| trimmed_end(s, c).len() <= i < s.len() ==> s[i] == c,
    decreases s.len(),
{
    if s.len() > 0 && s.last() == c {
        lemma_trimmed_end(s.drop_last(), c);
        let kept = trimmed_end(s.drop_last(), c);
        assert(s.drop_last().take(kept.len() as int) =~= s.take(kept.len() as int));
        assert forall|i: int| kept.len() <= i < s.len() implies s[i] == c by {
            if i < s.len() - 1 {
                assert(s.drop_last()[i] == c);
            }
        }
    } else {
        assert(s.take(s.len() as int) =~= s);
    }
}

/// Trimming leaves nothing of `c` at the front, and all that stands behind it.
pub proof fn lemma_trimmed_start(s: Seq<char>, c: char)
    ensures
        trimmed_start(s, c).len() <= s.len(),
        trimmed_start(s, c) == s.skip(s.len() - trimmed_start(s, c).len()),
        trimmed_start(s, c).len() > 0 ==> trimmed_start(s, c)[0] != c,
        forall|i: int| 0 <= i < s.len() - trimmed_start(s, c).len() ==> s[i] == c,
    decreases s.len(),
{
    if s.len() > 0 && s[0] == c {
        lemma_trimmed_start(s.drop_first(), c);
        let kept = trimmed_start(s.drop_first(), c);
        assert(s.drop_first().skip(s.len() - 1 - kept.len()) =~= s.skip(s.len() - kept.len()));
        assert forall|i: int| 0 <= i < s.len() - kept.len() implies s[i] == c by {
            if i > 0 {
                assert(s.drop_first()[i - 1] == c);
            }
        }
    } else {
        assert(s.skip(0) =~= s);
    }
}

} // verus!
