//! JSON documents: reading the answers of Video Station, writing one for the player.
//!
//! A document is held as a `serde_json::Value`; what it holds is its view, a [`JsonTree`].

use vstd::prelude::*;
use vstd::string::*;
use vstd::utf8::*;

verus! {

/// What a JSON document holds.
pub enum JsonTree {
    Null,
    Bool(bool),
    /// A number: its value where it is an integer that fits, and how it is written.
    Number { integer: Option<i64>, text: Seq<char> },
    Str(Seq<char>),
    Array(Seq<JsonTree>),
    Object(Map<Seq<char>, JsonTree>),
}

impl JsonTree {
    /// The member under `key`; `Null` where there is none.
    pub open spec fn member(self, key: Seq<char>) -> JsonTree {
        match self {
            JsonTree::Object(members) => if members.contains_key(key) {
                members[key]
            } else {
                JsonTree::Null
            },
            _ => JsonTree::Null,
        }
    }

    /// The integer, where the document is one that fits.
    pub open spec fn integer(self) -> Option<i64> {
        match self {
            JsonTree::Number { integer, .. } => integer,
            _ => None,
        }
    }

    /// The text, where the document is a string.
    pub open spec fn string(self) -> Option<Seq<char>> {
        match self {
            JsonTree::Str(text) => Some(text),
            _ => None,
        }
    }

    /// Whether the document is `null`, a truth value or a string.
    pub open spec fn plain_leaf(self) -> bool {
        self is Null || self is Bool || self is Str
    }

    /// Whether the document is an object of which no member's name starts with a dollar sign.
    pub open spec fn plainly_named(self) -> bool {
        self is Object && forall|k: Seq<char>| #[trigger]
            self->Object_0.contains_key(k) ==> k.len() == 0 || k[0] != '$'
    }

    /// Whether the document is an object of plain leaves, some of them perhaps a further
    /// object of plain leaves, and no member's name starts with a dollar sign.
    pub open spec fn plain_object(self) -> bool {
        self.plainly_named() && forall|k: Seq<char>| #[trigger]
            self->Object_0.contains_key(k) ==> self->Object_0[k].plain_leaf() || (
            self->Object_0[k].plainly_named() && forall|l: Seq<char>| #[trigger]
                self->Object_0[k]->Object_0.contains_key(l)
                    ==> self->Object_0[k]->Object_0[l].plain_leaf())
    }
}

/// `serde_json::Value`, a JSON document.
#[verifier::external_type_specification]
#[verifier::external_body]
pub struct ExValue(serde_json::Value);

/// What a `serde_json::Value` holds.
pub uninterp spec fn value_tree(value: serde_json::Value) -> JsonTree;

/// What `serde_json::from_slice` makes of a byte string: the document that it holds, or the
/// message that says why it holds none.
pub uninterp spec fn parsed_json(bytes: Seq<u8>) -> Result<JsonTree, Seq<char>>;

/// Whether a byte string is a document that holds `tree`.
pub open spec fn reads_as(bytes: Seq<u8>, tree: JsonTree) -> bool {
    parsed_json(bytes) == Ok::<JsonTree, Seq<char>>(tree)
}

/// The outcome of a parse, with what the value holds in place of the value.
pub open spec fn value_outcome(outcome: Result<serde_json::Value, String>) -> Result<
    JsonTree,
    Seq<char>,
> {
    match outcome {
        Ok(value) => Ok(value_tree(value)),
        Err(message) => Err(message@),
    }
}

/// How `serde_json` writes a document.
pub uninterp spec fn json_text(tree: JsonTree) -> Seq<char>;

/// The members of an object that is filled from left to right: the last one under a key stays.
pub open spec fn object_of(members: Seq<(String, serde_json::Value)>) -> Map<Seq<char>, JsonTree>
    decreases members.len(),
{
    if members.len() == 0 {
        Map::empty()
    } else {
        object_of(members.drop_last()).insert(members.last().0@, value_tree(members.last().1))
    }
}

/// Calls `serde_json::from_slice` and, for the message, `to_string` of its error.
///
/// Believed: the outcome depends on the bytes alone.
#[verifier::external_body]
fn value_from_slice(bytes: &[u8]) -> (outcome: Result<serde_json::Value, String>)
    ensures
        parsed_json(bytes@) == value_outcome(outcome),
{
    serde_json::from_slice(bytes).map_err(|e: serde_json::Error| e.to_string())
}

/// Indexes a `serde_json::Value` by a string.
///
/// Believed: this gives the member under that key, and `null` where the value is no object or
/// has no such member.
#[verifier::external_body]
fn value_member<'a>(value: &'a serde_json::Value, key: &str) -> (member: &'a serde_json::Value)
    ensures
        value_tree(*member) == value_tree(*value).member(key@),
{
    &value[key]
}

/// Compares a `serde_json::Value` with a `bool`.
///
/// Believed: the two are equal where the value is that truth value, and nowhere else.
#[verifier::external_body]
fn value_is_bool(value: &serde_json::Value, truth: bool) -> (same: bool)
    ensures
        same == (value_tree(*value) == JsonTree::Bool(truth)),
{
    *value == truth
}

/// Calls `serde_json::Value::as_i64`.
///
/// Believed: this gives the value of an integer that fits, and `None` for all else.
#[verifier::external_body]
fn value_as_i64(value: &serde_json::Value) -> (integer: Option<i64>)
    ensures
        integer == value_tree(*value).integer(),
{
    value.as_i64()
}

/// Calls `serde_json::Value::as_str`.
///
/// Believed: this gives the text of a string, and `None` for all else.
#[verifier::external_body]
fn value_as_str(value: &serde_json::Value) -> (text: Option<&str>)
    ensures
        text is Some == value_tree(*value).string() is Some,
        text matches Some(found) ==> value_tree(*value).string() == Some(found@),
{
    value.as_str()
}

/// Calls `to_string` of a `serde_json::Value`.
///
/// Believed: the text depends on what the value holds alone; and an object that holds, to a
/// depth of two, nothing but `null`, truth values and strings reads back as what it was, unless
/// a member's name starts with a dollar sign. Such names are left out because `serde_json` may
/// read an object with one of its own private names as something else.
#[verifier::external_body]
fn value_to_string(value: &serde_json::Value) -> (text: String)
    ensures
        text@ == json_text(value_tree(*value)),
        value_tree(*value).plain_object() ==> reads_as(encode_utf8(text@), value_tree(*value)),
{
    value.to_string()
}

/// Calls `serde_json::Value::from` on a string: the value is that string.
#[verifier::external_body]
fn value_from_str(text: &str) -> (value: serde_json::Value)
    ensures
        value_tree(value) == JsonTree::Str(text@),
{
    serde_json::Value::from(text)
}

/// Calls `serde_json::Value::from` on a `bool`: the value is that truth value.
#[verifier::external_body]
fn value_from_bool(truth: bool) -> (value: serde_json::Value)
    ensures
        value_tree(value) == JsonTree::Bool(truth),
{
    serde_json::Value::from(truth)
}

/// Collects members into a `serde_json::Map` and makes an object of it.
///
/// Believed: the object has these members, of two under one key the later.
#[verifier::external_body]
fn value_from_members(members: Vec<(String, serde_json::Value)>) -> (value: serde_json::Value)
    ensures
        value_tree(value) == JsonTree::Object(object_of(members@)),
{
    serde_json::Value::Object(members.into_iter().collect())
}

/// The members of an object that is filled from left to right: the last one under a key stays.
pub open spec fn members_of(members: Seq<(String, Json)>) -> Map<Seq<char>, JsonTree>
    decreases members.len(),
{
    if members.len() == 0 {
        Map::empty()
    } else {
        members_of(members.drop_last()).insert(members.last().0@, members.last().1@)
    }
}

/// A JSON document.
pub struct Json {
    value: serde_json::Value,
}

impl View for Json {
    type V = JsonTree;

    closed spec fn view(&self) -> JsonTree {
        value_tree(self.value)
    }
}

impl Json {
    /// Reads a document; the error is the parser's message.
    pub fn parse(bytes: &[u8]) -> (outcome: Result<Json, String>)
        ensures
            outcome is Ok == parsed_json(bytes@) is Ok,
            outcome matches Ok(json) ==> reads_as(bytes@, json@),
            outcome matches Err(message) ==> message@ == parsed_json(bytes@)->Err_0,
    {
        match value_from_slice(bytes) {
            Ok(value) => Ok(Json { value }),
            Err(message) => Err(message),
        }
    }

    /// A string.
    pub fn string(text: &str) -> (json: Json)
        ensures
            json@ == JsonTree::Str(text@),
    {
        Json { value: value_from_str(text) }
    }

    /// A truth value.
    pub fn boolean(truth: bool) -> (json: Json)
        ensures
            json@ == JsonTree::Bool(truth),
    {
        Json { value: value_from_bool(truth) }
    }

    /// An object; of two members under one key the later stays.
    pub fn object(members: Vec<(String, Json)>) -> (json: Json)
        ensures
            json@ == JsonTree::Object(members_of(members@)),
    {
        let ghost all = members@;
        let mut values: Vec<(String, serde_json::Value)> = Vec::new();
        for member in iter: members
            invariant
                iter.seq() == all,
                values.len() == iter.index(),
                object_of(values@) == members_of(all.take(iter.index() as int)),
        {
            let ghost i = iter.index() as int;
            let ghost before = values@;
            let ghost key = member.0@;
            let ghost tree = member.1@;
            values.push((member.0, member.1.value));
            assert(values@.drop_last() =~= before);
            assert(all.take(i + 1).drop_last() =~= all.take(i));
        }
        assert(all.take(all.len() as int) =~= all);
        Json { value: value_from_members(values) }
    }

    /// Whether the member under `key` is the truth value `truth`.
    pub fn member_is(&self, key: &str, truth: bool) -> (same: bool)
        ensures
            same == (self@.member(key@) == JsonTree::Bool(truth)),
    {
        value_is_bool(value_member(&self.value, key), truth)
    }

    /// The integer under `inner` of the member under `outer`.
    pub fn integer_at(&self, outer: &str, inner: &str) -> (integer: Option<i64>)
        ensures
            integer == self@.member(outer@).member(inner@).integer(),
    {
        value_as_i64(value_member(value_member(&self.value, outer), inner))
    }

    /// The string under `inner` of the member under `outer`.
    pub fn string_at(&self, outer: &str, inner: &str) -> (text: Option<String>)
        ensures
            text is Some == self@.member(outer@).member(inner@).string() is Some,
            text matches Some(found) ==> self@.member(outer@).member(inner@).string() == Some(
                found@,
            ),
    {
        match value_as_str(value_member(value_member(&self.value, outer), inner)) {
            Some(text) => Some(text.to_owned()),
            None => None,
        }
    }

    /// The document as text.
    pub fn text(&self) -> (text: String)
        ensures
            text@ == json_text(self@),
            self@.plain_object() ==> reads_as(encode_utf8(text@), self@),
    {
        value_to_string(&self.value)
    }

    /// The member under `key` as text.
    pub fn member_text(&self, key: &str) -> (text: String)
        ensures
            text@ == json_text(self@.member(key@)),
    {
        value_to_string(value_member(&self.value, key))
    }

    /// The member under `inner` of the member under `outer` as text.
    pub fn text_at(&self, outer: &str, inner: &str) -> (text: String)
        ensures
            text@ == json_text(self@.member(outer@).member(inner@)),
    {
        value_to_string(value_member(value_member(&self.value, outer), inner))
    }
}

} // verus!
