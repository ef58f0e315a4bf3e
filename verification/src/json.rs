//! JSON values, as `serde_json` parses, builds and prints them.
//!
//! A `serde_json::Value` is opaque to the verifier. `Json` is its mathematical
//! model and `json_of` names the model of a value. The functions marked
//! `external_body` are single calls into `serde_json`. Their contracts are not
//! proved: they restate what that crate documents, for a build without its
//! `preserve_order` and `arbitrary_precision` features. The two functions at
//! the end are verified against them.

use vstd::prelude::*;

verus! {

/// The members of a JSON object: at most one under each key.
pub type Members = Map<Seq<char>, Json>;

/// The mathematical model of a JSON value.
pub enum Json {
    Null,
    Bool(bool),
    /// An integer that is not negative.
    Unsigned(u64),
    /// An integer below zero.
    Negative(i64),
    /// Any other number, by the bits of its 64-bit floating-point form.
    Float(u64),
    Text(Seq<char>),
    Array(Seq<Json>),
    Object(Members),
}

#[verifier::external_type_specification]
#[verifier::external_body]
pub struct ExValue(serde_json::Value);

#[verifier::external_type_specification]
#[verifier::external_body]
pub struct ExError(serde_json::Error);

#[verifier::external_type_specification]
#[verifier::external_body]
#[verifier::reject_recursive_types(K)]
#[verifier::reject_recursive_types(V)]
pub struct ExMap<K, V>(serde_json::Map<K, V>);

/// The model of a `serde_json::Value`.
pub uninterp spec fn json_of(value: serde_json::Value) -> Json;

/// The members that a `serde_json::Map` holds, each key with the model of its
/// value.
pub uninterp spec fn members_of(map: serde_json::Map<String, serde_json::Value>) -> Members;

/// What `serde_json::from_str` makes of a text: the model of the value that it
/// parses to, or `None` where it reports an error.
pub uninterp spec fn json_parse(text: Seq<char>) -> Option<Json>;

/// The text that `serde_json` prints for a value, in its compact form.
pub uninterp spec fn json_text(json: Json) -> Seq<char>;

/// The member of an object under a key: `None` for a key that the object lacks
/// and for anything that is not an object.
pub open spec fn member_of(json: Json, key: Seq<char>) -> Option<Json> {
    match json {
        Json::Object(members) => if members.contains_key(key) {
            Some(members[key])
        } else {
            None
        },
        _ => None,
    }
}

/// The number that a JSON value holds, where it is an integer that is not
/// negative.
pub open spec fn unsigned_of(json: Json) -> Option<u64> {
    match json {
        Json::Unsigned(number) => Some(number),
        _ => None,
    }
}

/// The text that a JSON value holds, where it is a string.
pub open spec fn text_of(json: Json) -> Option<Seq<char>> {
    match json {
        Json::Text(text) => Some(text),
        _ => None,
    }
}

/// The unsigned number under `key` in a JSON object, if there is one.
pub open spec fn member_unsigned(json: Json, key: Seq<char>) -> Option<u64> {
    match member_of(json, key) {
        Some(inner) => unsigned_of(inner),
        None => None,
    }
}

/// The string under `key` in a JSON object, if there is one.
pub open spec fn member_text(json: Json, key: Seq<char>) -> Option<Seq<char>> {
    match member_of(json, key) {
        Some(inner) => text_of(inner),
        None => None,
    }
}

/// Calls `serde_json::from_str::<Value>`, which parses a whole text as one
/// JSON value.
///
/// Trusted: whether the text parses, and to which value, depends on the text
/// alone.
#[verifier::external_body]
pub(crate) fn parse(text: &str) -> (parsed: Result<serde_json::Value, serde_json::Error>)
    ensures
        match parsed {
            Ok(value) => json_parse(text@) == Some(json_of(value)),
            Err(_) => json_parse(text@) is None,
        },
{
    serde_json::from_str::<serde_json::Value>(text)
}

/// Calls `Value::get` with a string index.
///
/// Trusted: it returns the member under `key` where the value is an object
/// that has the key, and `None` otherwise.
#[verifier::external_body]
pub(crate) fn member<'a>(value: &'a serde_json::Value, key: &str) -> (found: Option<
    &'a serde_json::Value,
>)
    ensures
        match found {
            Some(inner) => member_of(json_of(*value), key@) == Some(json_of(*inner)),
            None => member_of(json_of(*value), key@) is None,
        },
{
    value.get(key)
}

/// Calls `Value::as_u64`.
///
/// Trusted: it returns the number where the value is an integer that is not
/// negative, and `None` otherwise.
#[verifier::external_body]
pub(crate) fn as_unsigned(value: &serde_json::Value) -> (number: Option<u64>)
    ensures
        number == unsigned_of(json_of(*value)),
{
    value.as_u64()
}

/// Calls `Value::as_str`.
///
/// Trusted: it returns the text where the value is a string, and `None`
/// otherwise.
#[verifier::external_body]
pub(crate) fn as_text<'a>(value: &'a serde_json::Value) -> (text: Option<&'a str>)
    ensures
        match text {
            Some(held) => text_of(json_of(*value)) == Some(held@),
            None => text_of(json_of(*value)) is None,
        },
{
    value.as_str()
}

/// Calls `Value::from` on a `u64`.
///
/// Trusted: the value is the number.
#[verifier::external_body]
pub(crate) fn unsigned(number: u64) -> (value: serde_json::Value)
    ensures
        json_of(value) == Json::Unsigned(number),
{
    serde_json::Value::from(number)
}

/// Calls `Value::from` on a string slice.
///
/// Trusted: the value is a string with the same text.
#[verifier::external_body]
pub(crate) fn text(held: &str) -> (value: serde_json::Value)
    ensures
        json_of(value) == Json::Text(held@),
{
    serde_json::Value::from(held)
}

/// Calls `Map::new`.
///
/// Trusted: the map has no members.
#[verifier::external_body]
pub(crate) fn no_members() -> (fresh: serde_json::Map<String, serde_json::Value>)
    ensures
        members_of(fresh) == Members::empty(),
{
    serde_json::Map::new()
}

/// Calls `Map::insert`, and drops what it returns.
///
/// Trusted: afterwards the map holds `value` under `key`, in place of what it
/// held there before, and its other members as they were.
#[verifier::external_body]
pub(crate) fn put(
    members: &mut serde_json::Map<String, serde_json::Value>,
    key: &str,
    value: serde_json::Value,
)
    ensures
        members_of(*final(members)) == members_of(*old(members)).insert(key@, json_of(value)),
{
    members.insert(key.to_owned(), value);
}

/// Calls `Value::from` on a map.
///
/// Trusted: the value is the object with the map's members.
#[verifier::external_body]
pub(crate) fn object(members: serde_json::Map<String, serde_json::Value>) -> (value: serde_json::Value)
    ensures
        json_of(value) == Json::Object(members_of(members)),
{
    serde_json::Value::from(members)
}

/// Calls `to_string` on a value, which prints it through its `Display` in the
/// compact form.
///
/// Trusted: the text depends on the value alone.
#[verifier::external_body]
pub(crate) fn print(value: &serde_json::Value) -> (printed: String)
    ensures
        printed@ == json_text(json_of(*value)),
{
    value.to_string()
}

/// The unsigned number under `key` in a parsed value.
pub(crate) fn unsigned_member(value: &serde_json::Value, key: &str) -> (number: Option<u64>)
    ensures
        number == member_unsigned(json_of(*value), key@),
{
    match member(value, key) {
        Some(inner) => as_unsigned(inner),
        None => None,
    }
}

/// The string under `key` in a parsed value.
pub(crate) fn text_member(value: &serde_json::Value, key: &str) -> (text: Option<String>)
    ensures
        match text {
            Some(held) => member_text(json_of(*value), key@) == Some(held@),
            None => member_text(json_of(*value), key@) is None,
        },
{
    match member(value, key) {
        Some(inner) => match as_text(inner) {
            Some(held) => Some(String::from_str(held)),
            None => None,
        },
        None => None,
    }
}

} // verus!
