//! The JSON documents that recipient sources hold. Parsing is `serde_json`'s
//! work; this module says what the library reads off a parsed document.

use vstd::prelude::*;

verus! {

/// `serde_json::Value`: a parsed document, read only through the functions
/// below.
#[verifier::external_type_specification]
#[verifier::external_body]
pub struct ExJsonValue(serde_json::Value);

/// `serde_json::Error`: why a text was refused. It is never looked into.
#[verifier::external_type_specification]
#[verifier::external_body]
pub struct ExJsonError(serde_json::Error);

/// A JSON document, as far as the library looks into one: texts, arrays and
/// objects with what they hold; of the other values only their kind.
pub enum Json {
    Null,
    Bool,
    Number,
    Text(Seq<char>),
    Array(Seq<Json>),
    Object(Map<Seq<char>, Json>),
}

/// The document that a parsed `serde_json::Value` holds.
pub uninterp spec fn json_of(value: serde_json::Value) -> Json;

/// The document that `serde_json` reads out of `text` as a
/// `serde_json::Value`; `None` where it refuses the text. Besides text that
/// is no JSON it refuses JSON nested more than 128 levels deep and JSON that
/// holds a number beyond the range of a 64-bit float, wherever in the
/// document that stands. Of a key written twice in one object it keeps the
/// last value.
pub uninterp spec fn parsed_json(text: Seq<char>) -> Option<Json>;

/// The documents of a list of values, in the list's order.
pub open spec fn jsons_of(values: Seq<serde_json::Value>) -> Seq<Json> {
    values.map_values(|value: serde_json::Value| json_of(value))
}

/// `serde_json::from_str` at `serde_json::Value`. The result depends on the
/// text alone: the same text is refused or gives the same document every
/// time, so the document has the name `parsed_json`.
#[verifier::external_body]
pub(crate) fn parse_json(text: &str) -> (parsed: Result<serde_json::Value, serde_json::Error>)
    ensures
        match parsed {
            Ok(value) => parsed_json(text@) == Some(json_of(value)),
            Err(_) => parsed_json(text@) is None,
        },
{
    serde_json::from_str::<serde_json::Value>(text)
}

/// `serde_json::Value::as_array`: the elements where the value is an array,
/// `None` for every other kind of value.
#[verifier::external_body]
pub(crate) fn array_items(value: &serde_json::Value) -> (items: Option<&Vec<serde_json::Value>>)
    ensures
        match items {
            Some(list) => json_of(*value) == Json::Array(jsons_of(list@)),
            None => !(json_of(*value) is Array),
        },
{
    value.as_array()
}

/// `serde_json::Value::get` with a string key: the member of that name where
/// the value is an object that has one, `None` for an object without it and
/// for every other kind of value.
#[verifier::external_body]
pub(crate) fn member<'a>(value: &'a serde_json::Value, key: &str) -> (found: Option<
    &'a serde_json::Value,
>)
    ensures
        match found {
            Some(inner) => json_of(*value) is Object && json_of(*value)->Object_0.contains_key(
                key@,
            ) && json_of(*value)->Object_0[key@] == json_of(*inner),
            None => !(json_of(*value) is Object) || !json_of(*value)->Object_0.contains_key(key@),
        },
{
    value.get(key)
}

/// `serde_json::Value::as_str`: the text where the value is a string, `None`
/// for every other kind of value.
#[verifier::external_body]
pub(crate) fn text_of<'a>(value: &'a serde_json::Value) -> (text: Option<&'a str>)
    ensures
        match text {
            Some(t) => json_of(*value) == Json::Text(t@),
            None => !(json_of(*value) is Text),
        },
{
    value.as_str()
}

} // verus!
