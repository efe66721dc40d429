//! JSON values, as `serde_json` holds them and as the proofs see them.
//!
//! A `serde_json::Value` is opaque here. What it holds has a name,
//! `value_tree`, and the few functions of `serde_json` that the wire format
//! needs are stated over that name. The contracts of the functions that call
//! `serde_json` are not proved: each says what the called function's source
//! shows, and the proofs of the wire format rest on them. `serde_json` is
//! built to keep an object's members in the order of their insertion.

use serde_json::Value;
use vstd::prelude::*;

verus! {

#[verifier::external_type_specification]
#[verifier::external_body]
pub struct ExValue(serde_json::Value);

#[verifier::external_type_specification]
#[verifier::external_body]
pub struct ExJsonError(serde_json::Error);

/// A JSON value as a mathematical value. An object holds its members in the
/// order in which they are written, each key once. `Number` is a number that
/// is an unsigned 64-bit integer; `Other` is any other number, by the text
/// that stands for it.
pub ghost enum Json {
    Null,
    Bool(bool),
    Number(u64),
    Other(Seq<char>),
    Text(Seq<char>),
    List(Seq<Json>),
    Object(Seq<(Seq<char>, Json)>),
}

/// What `v` holds.
pub uninterp spec fn value_tree(v: Value) -> Json;

/// What `serde_json::from_str` reads from `text`: the value that the text
/// stands for, or `None` where it refuses the text.
pub uninterp spec fn parsed_text(text: Seq<char>) -> Option<Json>;

/// What `serde_json::to_string` gives for a value that holds `tree`: the
/// compact text of the value, or `None` where it refuses to write it.
pub uninterp spec fn written_text(tree: Json) -> Option<Seq<char>>;

/// What each of `values` holds.
pub open spec fn trees(values: Seq<Value>) -> Seq<Json> {
    Seq::new(values.len(), |i: int| value_tree(values[i]))
}

/// The key of each of `members`, and what its value holds.
pub open spec fn pairs(members: Seq<(String, Value)>) -> Seq<(Seq<char>, Json)> {
    Seq::new(members.len(), |i: int| (members[i].0@, value_tree(members[i].1)))
}

/// The value of the member `key` among `members`: that of the last member
/// with this key, or `None` where no member has it.
pub open spec fn member(members: Seq<(Seq<char>, Json)>, key: Seq<char>) -> Option<Json>
    decreases members.len(),
{
    if members.len() == 0 {
        None
    } else if members.last().0 == key {
        Some(members.last().1)
    } else {
        member(members.drop_last(), key)
    }
}

/// Whether no two of `members` have the same key.
pub open spec fn distinct_keys(members: Seq<(Seq<char>, Json)>) -> bool {
    forall|i: int, j: int|
        0 <= i < j < members.len() ==> (#[trigger] members[i]).0 != (#[trigger] members[j]).0
}

/// A member written last is the one found under its key, and hides no other
/// key.
pub broadcast proof fn lemma_member_push(
    members: Seq<(Seq<char>, Json)>,
    key: Seq<char>,
    value: Json,
    wanted: Seq<char>,
)
    ensures
        #[trigger] member(members.push((key, value)), wanted) == if key == wanted {
            Some(value)
        } else {
            member(members, wanted)
        },
{
    assert(members.push((key, value)).drop_last() =~= members);
}

/// Where no member is found under a key, no member has it.
pub proof fn lemma_member_none(members: Seq<(Seq<char>, Json)>, key: Seq<char>)
    requires
        member(members, key) is None,
    ensures
        forall|i: int| 0 <= i < members.len() ==> (#[trigger] members[i]).0 != key,
    decreases members.len(),
{
    if members.len() > 0 {
        lemma_member_none(members.drop_last(), key);
        assert forall|i: int| 0 <= i < members.len() implies (#[trigger] members[i]).0 != key by {
            if i < members.len() - 1 {
                assert(members[i] == members.drop_last()[i]);
            }
        }
    }
}

/// A new key after distinct keys leaves them distinct.
pub proof fn lemma_push_keeps_distinct(members: Seq<(Seq<char>, Json)>, key: Seq<char>, value: Json)
    requires
        distinct_keys(members),
        member(members, key) is None,
    ensures
        distinct_keys(members.push((key, value))),
{
    lemma_member_none(members, key);
}

/// `serde_json::from_str`, read as a `Value`: the value that `text` stands
/// for, or an error where `text` is no JSON value. The result depends on the
/// text alone.
#[verifier::external_body]
pub(crate) fn value_from_text(text: &str) -> (r: Result<Value, serde_json::Error>)
    ensures
        match parsed_text(text@) {
            Some(tree) => r matches Ok(v) && value_tree(v) == tree,
            None => r is Err,
        },
{
    serde_json::from_str::<Value>(text)
}

/// `serde_json::to_string` of a `Value`: the compact text of the value, or
/// an error. Whether it writes, and what, depends on what the value holds
/// alone; on which values it writes is not claimed.
#[verifier::external_body]
pub(crate) fn value_to_text(v: &Value) -> (r: Result<String, serde_json::Error>)
    ensures
        match written_text(value_tree(*v)) {
            Some(t) => r matches Ok(s) && s@ == t,
            None => r is Err,
        },
{
    serde_json::to_string(v)
}

/// `Value::get` with a string: the value of the member `key` where `v` is an
/// object that has one, else `None`.
#[verifier::external_body]
pub(crate) fn value_get<'a>(v: &'a Value, key: &str) -> (r: Option<&'a Value>)
    ensures
        match value_tree(*v) {
            Json::Object(members) => match member(members, key@) {
                Some(tree) => r matches Some(found) && value_tree(*found) == tree,
                None => r is None,
            },
            _ => r is None,
        },
{
    v.get(key)
}

/// `Value::is_object`: whether `v` is an object.
#[verifier::external_body]
pub(crate) fn value_is_object(v: &Value) -> (b: bool)
    ensures
        b == (value_tree(*v) is Object),
{
    v.is_object()
}

/// `Value::is_null`: whether `v` is null.
#[verifier::external_body]
pub(crate) fn value_is_null(v: &Value) -> (b: bool)
    ensures
        b == (value_tree(*v) is Null),
{
    v.is_null()
}

/// `Value::as_u64`: the number where `v` is an unsigned 64-bit integer, else
/// `None`.
#[verifier::external_body]
pub(crate) fn value_as_u64(v: &Value) -> (r: Option<u64>)
    ensures
        r == match value_tree(*v) {
            Json::Number(n) => Some(n),
            _ => None::<u64>,
        },
{
    v.as_u64()
}

/// `Value::as_str`: the text where `v` is a string, else `None`.
#[verifier::external_body]
pub(crate) fn value_as_str<'a>(v: &'a Value) -> (r: Option<&'a str>)
    ensures
        match value_tree(*v) {
            Json::Text(t) => r matches Some(s) && s@ == t,
            _ => r is None,
        },
{
    v.as_str()
}

/// `Value::as_array`: the items where `v` is an array, else `None`.
#[verifier::external_body]
pub(crate) fn value_as_array<'a>(v: &'a Value) -> (r: Option<&'a Vec<Value>>)
    ensures
        match value_tree(*v) {
            Json::List(items) => r matches Some(a) && trees(a@) == items,
            _ => r is None,
        },
{
    v.as_array()
}

/// `Value::from` of a `String`: the string with that text.
#[verifier::external_body]
pub(crate) fn text_value(text: String) -> (v: Value)
    ensures
        value_tree(v) == Json::Text(text@),
{
    Value::from(text)
}

/// `Value::from` of a `u64`: the number `n`.
#[verifier::external_body]
pub(crate) fn number_value(n: u64) -> (v: Value)
    ensures
        value_tree(v) == Json::Number(n),
{
    Value::from(n)
}

/// `Value::from` of a `Vec<Value>`: the array of these items, in their order.
#[verifier::external_body]
pub(crate) fn list_value(items: Vec<Value>) -> (v: Value)
    ensures
        value_tree(v) == Json::List(trees(items@)),
{
    Value::from(items)
}

/// `Value::from_iter` of keys with values: the object of these members.
/// Where no key comes twice, the members stand in the order in which they
/// were handed over.
#[verifier::external_body]
pub(crate) fn object_value(members: Vec<(String, Value)>) -> (v: Value)
    requires
        distinct_keys(pairs(members@)),
    ensures
        value_tree(v) == Json::Object(pairs(members@)),
{
    members.into_iter().collect::<Value>()
}

} // verus!
