//! JSON documents, as `serde_json` reads them.
//!
//! A parsed document stays a `serde_json::Value`. What it holds is described
//! by the mathematical value [`Json`]; the functions below are the only way
//! the library looks into one, and their contracts are believed, not proved.

use vstd::prelude::*;

verus! {

#[verifier::external_type_specification]
#[verifier::external_body]
pub struct ExJsonValue(serde_json::Value);

#[verifier::external_type_specification]
#[verifier::external_body]
pub struct ExJsonError(serde_json::Error);

/// The mathematical value of a JSON document.
pub enum Json {
    Null,
    Bool(bool),
    /// A number written as an integer.
    Integer(int),
    /// Any other number.
    Fraction,
    Text(Seq<char>),
    Array(Seq<Json>),
    Object(Map<Seq<char>, Json>),
}

/// What `serde_json::from_str` makes of `raw`: the document, or `None` where
/// `raw` is not one JSON document.
pub uninterp spec fn json_parse(raw: Seq<char>) -> Option<Json>;

/// What a parsed document holds.
pub uninterp spec fn json_model(value: serde_json::Value) -> Json;

/// `serde_json::from_str` into a `Value`. Succeeds exactly on the texts that
/// `json_parse` reads, and the value then holds what `json_parse` says.
#[verifier::external_body]
pub(crate) fn parse_json(raw: &str) -> (parsed: Result<serde_json::Value, serde_json::Error>)
    ensures
        parsed is Ok <==> json_parse(raw@) is Some,
        parsed matches Ok(value) ==> json_parse(raw@) == Some(json_model(value)),
{
    serde_json::from_str(raw)
}

/// `Value::is_object`: whether the document is an object.
#[verifier::external_body]
pub(crate) fn json_is_object(value: &serde_json::Value) -> (yes: bool)
    ensures
        yes == (json_model(*value) is Object),
{
    value.is_object()
}

/// `Value::get` with a string key: the member under `key` where the document
/// is an object that has one, `None` otherwise.
#[verifier::external_body]
pub(crate) fn json_member<'a>(value: &'a serde_json::Value, key: &str) -> (member: Option<
    &'a serde_json::Value,
>)
    ensures
        member is Some <==> (json_model(*value) matches Json::Object(members)
            && members.contains_key(key@)),
        member matches Some(found) ==> (json_model(*value) matches Json::Object(members)
            && json_model(*found) == members[key@]),
{
    value.get(key)
}

/// `Value::as_str`: the text where the document is a string, `None` otherwise.
#[verifier::external_body]
pub(crate) fn json_as_text<'a>(value: &'a serde_json::Value) -> (text: Option<&'a str>)
    ensures
        text is Some <==> json_model(*value) is Text,
        text matches Some(s) ==> json_model(*value) == Json::Text(s@),
{
    value.as_str()
}

/// `Value::as_i64`: the number where the document is an integer that an
/// `i64` can hold, `None` otherwise.
#[verifier::external_body]
pub(crate) fn json_as_integer(value: &serde_json::Value) -> (number: Option<i64>)
    ensures
        number is Some <==> (json_model(*value) matches Json::Integer(n) && i64::MIN <= n
            <= i64::MAX),
        number matches Some(n) ==> json_model(*value) == Json::Integer(n as int),
{
    value.as_i64()
}

/// `Value::as_bool`: the flag where the document is a boolean, `None` otherwise.
#[verifier::external_body]
pub(crate) fn json_as_boolean(value: &serde_json::Value) -> (flag: Option<bool>)
    ensures
        flag is Some <==> json_model(*value) is Bool,
        flag matches Some(b) ==> json_model(*value) == Json::Bool(b),
{
    value.as_bool()
}

} // verus!
