//! JSON, as far as the bot reads and writes it. Parsing, member lookup,
//! rendering and the writing of a string are done by `serde_json`; this
//! module names what a document holds and what a written string is, so that
//! the contracts of the library can say what a result is made from.

use vstd::prelude::*;

verus! {

/// `serde_json::Value`, a JSON value of any kind. The library carries it
/// from one call of `serde_json` to the next and never looks inside.
#[verifier::external_type_specification]
#[verifier::external_body]
pub struct ExJsonValue(serde_json::Value);

/// `serde_json::Error`, the error of a text that is no JSON document.
#[verifier::external_type_specification]
#[verifier::external_body]
pub struct ExJsonError(serde_json::Error);

/// What the library reads of one JSON value.
pub struct JsonMember {
    /// The value written out as compact JSON text.
    pub rendering: Seq<char>,
    /// The characters of the value, where it is a JSON string.
    pub string: Option<Seq<char>>,
    /// The number, where the value is an integer that fits in an `i64`.
    pub integer: Option<i64>,
}

/// A path of keys into a JSON value: the empty path is the value itself,
/// and each key steps into the member of that name.
pub type JsonPath = Seq<Seq<char>>;

/// What `value` holds, by path. A step into what is no object, or into a
/// member that an object does not have, arrives at `null`.
pub uninterp spec fn json_members(value: serde_json::Value) -> Map<JsonPath, JsonMember>;

/// What the JSON document `text` holds, by path; `None` where `text` is no
/// JSON document.
pub uninterp spec fn json_text_members(text: Seq<char>) -> Option<Map<JsonPath, JsonMember>>;

/// `serde_json::from_str` for a `Value`: the document that `text` holds, or
/// the error where it holds none. The result depends on `text` alone.
#[verifier::external_body]
pub(crate) fn parse_document(text: &str) -> (parsed: Result<serde_json::Value, serde_json::Error>)
    ensures
        match parsed {
            Ok(document) => json_text_members(text@) == Some(json_members(document)),
            Err(_) => json_text_members(text@).is_none(),
        },
{
    serde_json::from_str(text)
}

/// Indexing of a `serde_json::Value` by a string key: the member of that
/// name. It never fails: what is absent reads as `null`. What stands at a
/// path in the member stands in `value` at the path that begins with `key`.
#[verifier::external_body]
pub(crate) fn member<'a>(value: &'a serde_json::Value, key: &str) -> (found: &'a serde_json::Value)
    ensures
        forall|path: JsonPath| #[trigger]
            json_members(*found)[path] == json_members(*value)[seq![key@] + path],
{
    &value[key]
}

/// `to_string` of a `serde_json::Value`: its compact JSON text.
#[verifier::external_body]
pub(crate) fn render(value: &serde_json::Value) -> (text: String)
    ensures
        text@ == json_members(*value)[Seq::empty()].rendering,
{
    value.to_string()
}

/// `serde_json::Value::as_str`, copied into a `String`.
#[verifier::external_body]
pub(crate) fn string_of(value: &serde_json::Value) -> (text: Option<String>)
    ensures
        text.deep_view() == json_members(*value)[Seq::empty()].string,
{
    value.as_str().map(String::from)
}

/// `serde_json::Value::as_i64`.
#[verifier::external_body]
pub(crate) fn integer_of(value: &serde_json::Value) -> (number: Option<i64>)
    ensures
        number == json_members(*value)[Seq::empty()].integer,
{
    value.as_i64()
}

/// `text` written as a JSON string: between double quotes, with every
/// character that JSON does not take as it is written as its escape.
pub uninterp spec fn json_string_text(text: Seq<char>) -> Seq<char>;

/// `to_string` of the `serde_json::Value` that `Value::from` makes of a
/// string slice: the compact JSON text of the string `text`. The result
/// depends on `text` alone.
#[verifier::external_body]
pub(crate) fn write_string(text: &str) -> (written: String)
    ensures
        written@ == json_string_text(text@),
{
    serde_json::Value::from(text).to_string()
}

} // verus!
