//! JSON values of the `serde_json` crate, as far as this library reads them.
//!
//! Nothing in this file is proved. A `serde_json::Value` is opaque; what it
//! holds is named by [`json_tree`], and the functions of `serde_json` that the
//! library calls carry contracts over that name.

use serde_json::Value;
use vstd::prelude::*;

verus! {

/// `serde_json::Value`, a JSON value. Opaque: what it holds is named by
/// [`json_tree`].
#[verifier::external_type_specification]
#[verifier::external_body]
pub struct ExValue(Value);

/// `serde_json::Error`, the error of the JSON parser. Opaque.
#[verifier::external_type_specification]
#[verifier::external_body]
pub struct ExJsonError(serde_json::Error);

/// What a JSON value holds.
pub enum JsonModel {
    Null,
    Bool(bool),
    /// A number that is held as an integer.
    Integer(int),
    /// Any other number, by its digits.
    Real(Seq<char>),
    Text(Seq<char>),
    Array(Seq<JsonModel>),
    /// The members of an object, each name once.
    Object(Map<Seq<char>, JsonModel>),
}

/// What `value` holds.
pub uninterp spec fn json_tree(value: Value) -> JsonModel;

/// What `serde_json::from_str` reads from `text` as a `Value`: `None` where it
/// reports an error.
pub uninterp spec fn json_document(text: Seq<char>) -> Option<JsonModel>;

/// What each of `values` holds.
pub open spec fn json_trees(values: Seq<Value>) -> Seq<JsonModel> {
    Seq::new(values.len(), |i: int| json_tree(values[i]))
}

/// Calls `serde_json::from_str` for a `Value`.
///
/// Believed: the result depends on the text alone.
#[verifier::external_body]
pub(crate) fn parse_json(text: &str) -> (r: Result<Value, serde_json::Error>)
    ensures
        match r {
            Ok(value) => json_document(text@) == Some(json_tree(value)),
            Err(_) => json_document(text@) is None,
        },
{
    serde_json::from_str::<Value>(text)
}

/// `Value::is_null`: whether the value is `null`.
pub assume_specification[ Value::is_null ](value: &Value) -> (r: bool)
    ensures
        r == (json_tree(*value) is Null),
;

/// `Value::is_object`: whether the value is an object.
pub assume_specification[ Value::is_object ](value: &Value) -> (r: bool)
    ensures
        r == (json_tree(*value) is Object),
;

/// `Value::as_bool`: the boolean, if the value is one.
pub assume_specification[ Value::as_bool ](value: &Value) -> (r: Option<bool>)
    ensures
        r == match json_tree(*value) {
            JsonModel::Bool(b) => Some(b),
            _ => None,
        },
;

/// `Value::as_i64`: the number, if the value is an integer that fits `i64`.
pub assume_specification[ Value::as_i64 ](value: &Value) -> (r: Option<i64>)
    ensures
        match r {
            Some(n) => json_tree(*value) == JsonModel::Integer(n as int),
            None => !(json_tree(*value) matches JsonModel::Integer(n) && i64::MIN <= n <= i64::MAX),
        },
;

/// `Value::as_u64`: the number, if the value is an integer that fits `u64`.
pub assume_specification[ Value::as_u64 ](value: &Value) -> (r: Option<u64>)
    ensures
        match r {
            Some(n) => json_tree(*value) == JsonModel::Integer(n as int),
            None => !(json_tree(*value) matches JsonModel::Integer(n) && 0 <= n <= u64::MAX),
        },
;

/// `Value::as_str`: the string, if the value is one.
pub assume_specification<'a>[ Value::as_str ](value: &'a Value) -> (r: Option<&'a str>)
    ensures
        match r {
            Some(text) => json_tree(*value) == JsonModel::Text(text@),
            None => !(json_tree(*value) is Text),
        },
;

/// `Value::as_array`: the elements, if the value is an array.
pub assume_specification<'a>[ Value::as_array ](value: &'a Value) -> (r: Option<&'a Vec<Value>>)
    ensures
        match r {
            Some(items) => json_tree(*value) == JsonModel::Array(json_trees(items@)),
            None => !(json_tree(*value) is Array),
        },
;

/// `Default::default` of a `Value`: `null`.
pub assume_specification[ <Value as core::default::Default>::default ]() -> (r: Value)
    ensures
        json_tree(r) is Null,
;

/// `Clone::clone` of a `Value`: a value that holds the same.
pub assume_specification[ <Value as Clone>::clone ](value: &Value) -> (r: Value)
    ensures
        json_tree(r) == json_tree(*value),
;

/// Calls `Value::get` with a name: the member of that name, if the value is
/// an object that has one.
#[verifier::external_body]
pub(crate) fn member<'a>(value: &'a Value, name: &str) -> (r: Option<&'a Value>)
    ensures
        match r {
            Some(found) => {
                &&& json_tree(*value) matches JsonModel::Object(members)
                &&& members.dom().contains(name@)
                &&& json_tree(*found) == members[name@]
            },
            None => !(json_tree(*value) matches JsonModel::Object(members)
                && members.dom().contains(name@)),
        },
{
    value.get(name)
}

/// Calls `Value::as_object` and `Map::iter`: the members, if the value is an
/// object, each with a copy of its name. Every member comes once; no order is
/// promised.
#[verifier::external_body]
pub(crate) fn members<'a>(value: &'a Value) -> (r: Option<Vec<(String, &'a Value)>>)
    ensures
        match r {
            Some(entries) => {
                &&& json_tree(*value) matches JsonModel::Object(members)
                &&& forall|i: int|
                    #![trigger entries@[i]]
                    0 <= i < entries@.len() ==> members.dom().contains(entries@[i].0@)
                        && json_tree(*entries@[i].1) == members[entries@[i].0@]
                &&& forall|name: Seq<char>| #[trigger]
                    members.dom().contains(name) ==> exists|i: int|
                        #![trigger entries@[i]]
                        0 <= i < entries@.len() && entries@[i].0@ == name
                &&& forall|i: int, j: int|
                    #![trigger entries@[i], entries@[j]]
                    0 <= i < j < entries@.len() ==> entries@[i].0@ != entries@[j].0@
            },
            None => !(json_tree(*value) is Object),
        },
{
    value.as_object().map(
        |members| members.iter().map(|(name, member)| (name.clone(), member)).collect(),
    )
}

} // verus!
