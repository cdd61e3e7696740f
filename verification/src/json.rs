//! The boundary to `serde_json`: the declarations and contracts in this file
//! are believed, not proved. Everything else in the crate is proved from them.

use serde_json::Value;
use vstd::prelude::*;

verus! {

/// `serde_json::Value`, any JSON value. Nothing inside it is visible here:
/// what the stores need to know of one, they ask through the functions below.
#[verifier::external_type_specification]
#[verifier::external_body]
pub struct ExValue(serde_json::Value);

/// `serde_json::Error`, the error of a parse. It is opaque but for its
/// message.
#[verifier::external_type_specification]
#[verifier::external_body]
pub struct ExJsonError(serde_json::Error);

/// `serde_json::Map`, the members of a JSON object by key.
#[verifier::external_type_specification]
#[verifier::external_body]
#[verifier::reject_recursive_types(K)]
#[verifier::reject_recursive_types(V)]
pub struct ExJsonMap<K, V>(serde_json::Map<K, V>);

/// What `serde_json::from_str::<Value>` makes of a text: the value it reads,
/// or the error with which it rejects the text.
pub uninterp spec fn json_parsed(text: Seq<char>) -> Result<Value, serde_json::Error>;

/// What `serde_json::to_string_pretty` prints for a value.
pub uninterp spec fn json_pretty(value: Value) -> Seq<char>;

/// The member that `Value::get` finds under a string key.
pub uninterp spec fn json_member(value: Value, key: Seq<char>) -> Option<Value>;

/// The string that `Value::as_str` finds in a value.
pub uninterp spec fn json_string(value: Value) -> Option<Seq<char>>;

/// Whether `Value::is_null` holds of a value.
pub uninterp spec fn json_is_null(value: Value) -> bool;

/// The message that a `serde_json::Error` displays.
pub uninterp spec fn error_text(error: serde_json::Error) -> Seq<char>;

/// What a `serde_json::Map` holds: each key with the value under it.
pub uninterp spec fn json_members(members: serde_json::Map<String, Value>) -> Map<
    Seq<char>,
    Value,
>;

/// The members of an object that has none.
pub open spec fn no_members() -> Map<Seq<char>, Value> {
    Map::empty()
}

/// The JSON string that `Value::from` makes of a string.
pub uninterp spec fn json_text(s: Seq<char>) -> Value;

/// The JSON object that `Value::from` makes of a map with these members.
pub uninterp spec fn json_object(members: Map<Seq<char>, Value>) -> Value;

/// `serde_json::from_str::<Value>`: parses a JSON text. The result is a
/// function of the text alone and is named `json_parsed`.
#[verifier::external_body]
pub(crate) fn parse(text: &str) -> (r: Result<Value, serde_json::Error>)
    ensures
        r == json_parsed(text@),
{
    serde_json::from_str::<Value>(text)
}

/// `serde_json::to_string_pretty` on a `Value`: the indented text of the
/// value. The result is a function of the value alone and is named
/// `json_pretty`. It is always `Ok`: the text goes to a vector in memory,
/// and a `Value` holds nothing that its serialization refuses (its object
/// keys are strings, and a number that is not finite cannot be in one).
#[verifier::external_body]
pub(crate) fn pretty(value: &Value) -> (r: Result<String, serde_json::Error>)
    ensures
        match r {
            Ok(text) => text@ == json_pretty(*value),
            Err(_) => false,
        },
{
    serde_json::to_string_pretty(value)
}

/// `Value::get` with a string key: the member of an object under that key.
/// The result is named `json_member`.
#[verifier::external_body]
pub(crate) fn member<'a>(value: &'a Value, key: &str) -> (r: Option<&'a Value>)
    ensures
        match r {
            Some(found) => json_member(*value, key@) == Some(*found),
            None => json_member(*value, key@) is None,
        },
{
    value.get(key)
}

/// `Value::as_str`: the string held by a value that is a JSON string. The
/// result is named `json_string`.
pub assume_specification<'a>[ Value::as_str ](value: &'a Value) -> (r: Option<&'a str>)
    ensures
        match r {
            Some(s) => json_string(*value) == Some(s@),
            None => json_string(*value) is None,
        },
;

/// `Value::is_null`: whether a value is the JSON null. The result is named
/// `json_is_null`.
pub assume_specification[ Value::is_null ](value: &Value) -> (r: bool)
    ensures
        r == json_is_null(*value),
;

/// `Display` for `serde_json::Error`: the message of the error. The result is
/// named `error_text`.
#[verifier::external_body]
pub(crate) fn describe(error: &serde_json::Error) -> (r: String)
    ensures
        r@ == error_text(*error),
{
    error.to_string()
}

/// `serde_json::Map::new`: a map without members.
#[verifier::external_body]
pub(crate) fn empty_members() -> (r: serde_json::Map<String, Value>)
    ensures
        json_members(r) == no_members(),
{
    serde_json::Map::new()
}

/// `serde_json::Map::insert`: afterwards the map holds `value` under `key`,
/// in place of what it held there, and the other members as before.
#[verifier::external_body]
pub(crate) fn insert_member(members: &mut serde_json::Map<String, Value>, key: &str, value: Value)
    ensures
        json_members(*final(members)) == json_members(*old(members)).insert(key@, value),
{
    members.insert(key.to_owned(), value);
}

/// `Value::from` on a `&str`: the JSON string with that content, named
/// `json_text`. It is not null, and `Value::as_str` finds the content in it.
#[verifier::external_body]
pub(crate) fn text_value(s: &str) -> (r: Value)
    ensures
        r == json_text(s@),
        json_string(r) == Some(s@),
        !json_is_null(r),
{
    Value::from(s)
}

/// `Value::from` on a `serde_json::Map`: the JSON object with the map's
/// members, named `json_object`. `Value::get` finds in it exactly those
/// members.
#[verifier::external_body]
pub(crate) fn object_value(members: serde_json::Map<String, Value>) -> (r: Value)
    ensures
        r == json_object(json_members(members)),
        forall|key: Seq<char>| #[trigger]
            json_member(r, key) == if json_members(members).dom().contains(key) {
                Some(json_members(members)[key])
            } else {
                None
            },
{
    Value::from(members)
}

} // verus!
