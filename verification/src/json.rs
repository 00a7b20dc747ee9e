//! JSON documents as the router sees them.
//!
//! Documents are held as `serde_json::Value` and parsed and printed by
//! `serde_json`. Contracts speak of a document through [`json_of`], its
//! mathematical content. Every function in this file that is marked
//! `external_body`, and every `assume_specification`, is believed by the
//! verifier and not proved.

use serde_json::Value;
use vstd::prelude::*;

verus! {

/// `serde_json::Value`, taken as it is: contracts look into it through
/// [`json_of`] only.
#[verifier::external_type_specification]
#[verifier::external_body]
pub struct ExValue(serde_json::Value);

/// The mathematical content of a JSON document.
pub enum Json {
    Null,
    Bool(bool),
    /// A number written without fraction or exponent, between `i64::MIN`
    /// and `u64::MAX`.
    Integer(int),
    /// Any other number, by the bits of the double that holds it.
    Float { bits: u64 },
    Text(Seq<char>),
    Array(Seq<Json>),
    /// An object: each member name occurs once.
    Object(Map<Seq<char>, Json>),
}

/// The document that a `serde_json::Value` holds.
pub uninterp spec fn json_of(v: Value) -> Json;

/// What `serde_json::from_str` makes of a text: the document it reads, or
/// `None` where the text is not exactly one JSON document.
pub uninterp spec fn json_parse(text: Seq<char>) -> Option<Json>;

/// The compact text that `serde_json` prints for a document: no white
/// space between tokens, the members of an object in the order of their
/// names.
pub uninterp spec fn json_text(doc: Json) -> Seq<char>;

/// The documents held by a sequence of values, in order.
pub open spec fn jsons(values: Seq<Value>) -> Seq<Json> {
    Seq::new(values.len(), |i: int| json_of(values[i]))
}

/// `serde_json::from_str::<Value>`: the value holds the document that the
/// text is read as; a text that is not read gives `None`, the error being
/// dropped.
#[verifier::external_body]
pub(crate) fn parse(text: &str) -> (r: Option<Value>)
    ensures
        r matches Some(v) ==> json_parse(text@) == Some(json_of(v)),
        r is None ==> json_parse(text@) is None,
{
    serde_json::from_str::<Value>(text).ok()
}

/// `Value::to_string`, which prints through `Display` in the compact form.
#[verifier::external_body]
pub(crate) fn print(v: &Value) -> (r: String)
    ensures
        r@ == json_text(json_of(*v)),
{
    v.to_string()
}

/// `Value::get` with a string index: the member of that name where the
/// value is an object that has one, `None` for every other value.
#[verifier::external_body]
pub(crate) fn member<'a>(v: &'a Value, name: &str) -> (r: Option<&'a Value>)
    ensures
        r matches Some(x) ==> (json_of(*v) matches Json::Object(m) && m.contains_key(name@)
            && m[name@] == json_of(*x)),
        r is None ==> !(json_of(*v) matches Json::Object(m) && m.contains_key(name@)),
{
    v.get(name)
}

/// `Value::as_str` gives the text of a string and `None` for any other
/// value.
pub assume_specification<'a>[ Value::as_str ](v: &'a Value) -> (r: Option<&'a str>)
    ensures
        r matches Some(s) ==> json_of(*v) == Json::Text(s@),
        r is None ==> !(json_of(*v) is Text),
;

/// `Value::as_i64` gives an integer that fits in `i64` and `None` for any
/// other value, a larger integer and a number with a fraction included.
pub assume_specification[ Value::as_i64 ](v: &Value) -> (r: Option<i64>)
    ensures
        r matches Some(n) ==> json_of(*v) == Json::Integer(n as int),
        r is None ==> !(json_of(*v) matches Json::Integer(n) && i64::MIN <= n <= i64::MAX),
;

/// `Value::is_object`.
pub assume_specification[ Value::is_object ](v: &Value) -> (r: bool)
    ensures
        r == (json_of(*v) is Object),
;

/// `<Value as Clone>::clone`: the copy holds the same document.
pub assume_specification[ <Value as Clone>::clone ](v: &Value) -> (r: Value)
    ensures
        json_of(r) == json_of(*v),
;

/// Takes the elements out of `Value::Array`; any other value comes back
/// as it was.
#[verifier::external_body]
pub(crate) fn into_items(v: Value) -> (r: Result<Vec<Value>, Value>)
    ensures
        r matches Ok(items) ==> json_of(v) == Json::Array(jsons(items@)),
        r matches Err(other) ==> !(json_of(v) is Array) && json_of(other) == json_of(v),
{
    match v {
        Value::Array(items) => Ok(items),
        other => Err(other),
    }
}

/// `Value::Array`: the array of the given values, in their order.
#[verifier::external_body]
pub(crate) fn array_of(items: Vec<Value>) -> (r: Value)
    ensures
        json_of(r) == Json::Array(jsons(items@)),
{
    Value::Array(items)
}

/// The member called `name` of an object; `None` where the document is
/// no object or has no such member.
pub open spec fn member_at(doc: Json, name: Seq<char>) -> Option<Json> {
    match doc {
        Json::Object(m) => if m.contains_key(name) {
            Some(m[name])
        } else {
            None
        },
        _ => None,
    }
}

/// The string that the member called `name` holds.
pub open spec fn text_at(doc: Json, name: Seq<char>) -> Option<Seq<char>> {
    match member_at(doc, name) {
        Some(Json::Text(s)) => Some(s),
        _ => None,
    }
}

/// The integer that the member called `name` holds, where it fits `i64`.
pub open spec fn integer_at(doc: Json, name: Seq<char>) -> Option<int> {
    match member_at(doc, name) {
        Some(Json::Integer(n)) => if i64::MIN <= n <= i64::MAX {
            Some(n)
        } else {
            None
        },
        _ => None,
    }
}

/// Copies out the string member called `name`.
pub(crate) fn text_member(v: &Value, name: &str) -> (r: Option<String>)
    ensures
        r matches Some(s) ==> text_at(json_of(*v), name@) == Some(s@),
        r is None ==> text_at(json_of(*v), name@) is None,
{
    match member(v, name) {
        Some(x) => match x.as_str() {
            Some(s) => Some(s.to_owned()),
            None => None,
        },
        None => None,
    }
}

/// Reads the integer member called `name`.
pub(crate) fn integer_member(v: &Value, name: &str) -> (r: Option<i64>)
    ensures
        r matches Some(n) ==> integer_at(json_of(*v), name@) == Some(n as int),
        r is None ==> integer_at(json_of(*v), name@) is None,
{
    match member(v, name) {
        Some(x) => x.as_i64(),
        None => None,
    }
}

} // verus!
