//! JSON values of the crate serde_json: what they hold, how they are built
//! and read, and their text.
//!
//! Nothing in this file is proved. Each function hands one call on to
//! serde_json and states what that call does.

use vstd::prelude::*;

verus! {

/// A JSON value as a mathematical tree.
pub enum JsonTree {
    Null,
    Bool(bool),
    /// A number, by the characters in which it is written.
    Number(Seq<char>),
    Text(Seq<char>),
    List(Seq<JsonTree>),
    /// An object: its members by name.
    Object(Map<Seq<char>, JsonTree>),
}

/// The members of an object, and none for a tree that is no object.
pub open spec fn members(t: JsonTree) -> Map<Seq<char>, JsonTree> {
    match t {
        JsonTree::Object(m) => m,
        _ => Map::empty(),
    }
}

/// `serde_json::Value`, a JSON value. Nothing is seen inside one: what it
/// holds is told by `tree`, and only the functions of this file say anything
/// of that.
#[verifier::external_type_specification]
#[verifier::external_body]
pub struct ExValue(serde_json::Value);

/// What a JSON value holds.
pub uninterp spec fn tree(value: serde_json::Value) -> JsonTree;

/// The trees that a list of JSON values holds, in order.
pub open spec fn trees(values: Seq<serde_json::Value>) -> Seq<JsonTree> {
    Seq::new(values.len(), |i: int| tree(values[i]))
}

/// What `serde_json::to_string` gives for a value that holds `t`: the text
/// that it writes, or nothing where it reports an error.
pub uninterp spec fn written(t: JsonTree) -> Option<Seq<char>>;

/// What `serde_json::from_str` reads `text` as: the tree of the value, or
/// nothing where it refuses the text.
pub uninterp spec fn parsed(text: Seq<char>) -> Option<JsonTree>;

/// `Value::Null`: the value `null`.
#[verifier::external_body]
pub(crate) fn json_null() -> (value: serde_json::Value)
    ensures
        tree(value) == JsonTree::Null,
{
    serde_json::Value::Null
}

/// `Value::String`: the string with the characters of `text`.
#[verifier::external_body]
pub(crate) fn json_text(text: String) -> (value: serde_json::Value)
    ensures
        tree(value) == JsonTree::Text(text@),
{
    serde_json::Value::String(text)
}

/// `Value::Array`: the list of `items`, in their order.
#[verifier::external_body]
pub(crate) fn json_list(items: Vec<serde_json::Value>) -> (value: serde_json::Value)
    ensures
        tree(value) == JsonTree::List(trees(items@)),
{
    serde_json::Value::Array(items)
}

/// `Value::Object` of `Map::new`: the object without members.
#[verifier::external_body]
pub(crate) fn json_object() -> (value: serde_json::Value)
    ensures
        tree(value) == JsonTree::Object(Map::empty()),
{
    serde_json::Value::Object(serde_json::Map::new())
}

/// `Map::insert` on the members of the object `object`: the member `name`
/// becomes `member`, whether or not there was one of that name, and the
/// other members stay.
#[verifier::external_body]
pub(crate) fn set_member(object: &mut serde_json::Value, name: String, member: serde_json::Value)
    requires
        tree(*old(object)) is Object,
    ensures
        tree(*final(object)) == JsonTree::Object(
            members(tree(*old(object))).insert(name@, tree(member)),
        ),
{
    if let serde_json::Value::Object(object_members) = object {
        object_members.insert(name, member);
    }
}

/// `Value::is_null`: whether the value is `null`.
#[verifier::external_body]
pub(crate) fn is_null(value: &serde_json::Value) -> (b: bool)
    ensures
        b == (tree(*value) is Null),
{
    value.is_null()
}

/// `Value::is_object`: whether the value is an object.
#[verifier::external_body]
pub(crate) fn is_object(value: &serde_json::Value) -> (b: bool)
    ensures
        b == (tree(*value) is Object),
{
    value.is_object()
}

/// `Value::as_str`: the characters of a string, and nothing for a value that
/// is no string.
#[verifier::external_body]
pub(crate) fn as_text(value: &serde_json::Value) -> (text: Option<&str>)
    ensures
        match tree(*value) {
            JsonTree::Text(s) => text is Some && text->Some_0@ == s,
            _ => text is None,
        },
{
    value.as_str()
}

/// `Value::as_array`: the items of a list, and nothing for a value that is
/// no list.
#[verifier::external_body]
pub(crate) fn as_list(value: &serde_json::Value) -> (items: Option<&Vec<serde_json::Value>>)
    ensures
        match tree(*value) {
            JsonTree::List(list) => items is Some && trees(items->Some_0@) == list,
            _ => items is None,
        },
{
    value.as_array()
}

/// `Value::get` with a string: the member `name` of an object, and nothing
/// for an object without that member or a value that is no object.
#[verifier::external_body]
pub(crate) fn member<'a>(value: &'a serde_json::Value, name: &str) -> (found: Option<
    &'a serde_json::Value,
>)
    ensures
        match tree(*value) {
            JsonTree::Object(m) if m.contains_key(name@) => found is Some && tree(*found->Some_0)
                == m[name@],
            _ => found is None,
        },
{
    value.get(name)
}

/// `serde_json::to_string` on a value: its text, or nothing if serde_json
/// reports an error. Both depend on nothing but what the value holds.
#[verifier::external_body]
pub(crate) fn to_text(value: &serde_json::Value) -> (text: Option<String>)
    ensures
        match text {
            Some(s) => written(tree(*value)) == Some(s@),
            None => written(tree(*value)) is None,
        },
{
    serde_json::to_string(value).ok()
}

/// `serde_json::from_str` for a value: the value that `text` is read as, or
/// nothing if serde_json refuses the text.
#[verifier::external_body]
pub(crate) fn from_text(text: &str) -> (value: Option<serde_json::Value>)
    ensures
        match value {
            Some(v) => parsed(text@) == Some(tree(v)),
            None => parsed(text@) is None,
        },
{
    serde_json::from_str(text).ok()
}

} // verus!
