//! The JSON values of the preference document.
//!
//! Values are `serde_json::Value`s. Verus does not look inside them: what
//! the rules read from a value, and what they build, goes through the
//! functions of this module, whose contracts are taken from `serde_json`'s
//! source and are believed, not proved.

use vstd::prelude::*;

verus! {

/// `serde_json::Value`, carried through verified code as an opaque value.
#[verifier::external_type_specification]
#[verifier::external_body]
pub struct ExJsonValue(serde_json::Value);

/// `serde_json::Error`, carried through verified code as an opaque value.
#[verifier::external_type_specification]
#[verifier::external_body]
pub struct ExJsonError(serde_json::Error);

/// What `Value::as_u64` returns for a value.
pub uninterp spec fn json_as_u64(value: serde_json::Value) -> Option<u64>;

/// What `Value::as_str` returns for a value, as characters.
pub uninterp spec fn json_as_str(value: serde_json::Value) -> Option<Seq<char>>;

/// What `Value::get` returns for a value and a string key.
pub uninterp spec fn json_get(value: serde_json::Value, key: Seq<char>) -> Option<
    serde_json::Value,
>;

/// What `Value::as_f64` returns for a value, the number given by its IEEE
/// 754 bit pattern.
pub uninterp spec fn json_as_f64_bits(value: serde_json::Value) -> Option<u64>;

/// The value that `Value::from` makes of an unsigned 32-bit number.
pub uninterp spec fn json_from_u32(n: u32) -> serde_json::Value;

/// The value that `Value::from` makes of a string.
pub uninterp spec fn json_from_text(text: Seq<char>) -> serde_json::Value;

/// The object that `Value::from_iter` makes of a list of members.
pub uninterp spec fn json_object(members: Seq<(Seq<char>, serde_json::Value)>) -> serde_json::Value;

/// What `serde_json::from_str` makes of a text: the value it stands for,
/// or nothing where the text is not one JSON value.
pub uninterp spec fn json_parse(text: Seq<char>) -> Option<serde_json::Value>;

/// The members of a list with each key taken as its characters.
pub open spec fn member_views(members: Seq<(String, serde_json::Value)>) -> Seq<
    (Seq<char>, serde_json::Value),
> {
    members.map_values(|m: (String, serde_json::Value)| (m.0@, m.1))
}

/// `<Value as Clone>::clone`: the copy equals the value it was made from.
pub assume_specification[ <serde_json::Value as Clone>::clone ](
    value: &serde_json::Value,
) -> (r: serde_json::Value)
    ensures
        r == *value,
;

/// `Value::as_u64`: the number where the value is a non-negative integer
/// that a `u64` holds, nothing for any other value.
#[verifier::external_body]
pub(crate) fn as_u64(value: &serde_json::Value) -> (r: Option<u64>)
    ensures
        r == json_as_u64(*value),
{
    value.as_u64()
}

/// `Value::as_f64`: the number where the value is one, nothing for any
/// other value. The number is handed on as its bit pattern.
#[verifier::external_body]
pub(crate) fn as_f64_bits(value: &serde_json::Value) -> (r: Option<u64>)
    ensures
        r == json_as_f64_bits(*value),
{
    value.as_f64().map(|number| number.to_bits())
}

/// `Value::as_str`: the text where the value is a string, nothing for any
/// other value.
#[verifier::external_body]
pub(crate) fn as_str<'a>(value: &'a serde_json::Value) -> (r: Option<&'a str>)
    ensures
        r matches Some(s) ==> json_as_str(*value) == Some(s@),
        r is None ==> json_as_str(*value) is None,
{
    value.as_str()
}

/// `Value::get` with a string key: the member of that name where the value
/// is an object that has one, nothing otherwise.
#[verifier::external_body]
pub(crate) fn get<'a>(value: &'a serde_json::Value, key: &str) -> (r: Option<&'a serde_json::Value>)
    ensures
        r matches Some(member) ==> json_get(*value, key@) == Some(*member),
        r is None ==> json_get(*value, key@) is None,
{
    value.get(key)
}

/// `Value::from` on a `u32`: a number that `as_u64` reads back unchanged.
#[verifier::external_body]
pub(crate) fn from_u32(n: u32) -> (r: serde_json::Value)
    ensures
        r == json_from_u32(n),
        json_as_u64(r) == Some(n as u64),
{
    serde_json::Value::from(n)
}

/// `Value::from` on a string slice: a string that `as_str` reads back
/// unchanged.
#[verifier::external_body]
pub(crate) fn from_text(text: &str) -> (r: serde_json::Value)
    ensures
        r == json_from_text(text@),
        json_as_str(r) == Some(text@),
{
    serde_json::Value::from(text)
}

/// `Value::from_iter` on key and value pairs: an object. Of its members
/// the contract says only that an object made of one pair has that pair's
/// value under that pair's key.
#[verifier::external_body]
pub(crate) fn object_from(members: Vec<(String, serde_json::Value)>) -> (r: serde_json::Value)
    ensures
        r == json_object(member_views(members@)),
        members@.len() == 1 ==> json_get(r, members@[0].0@) == Some(members@[0].1),
{
    serde_json::Value::from_iter(members)
}

/// `serde_json::from_str` read as a `Value`: the parsed value, or the
/// parser's error where the text is not one JSON value.
#[verifier::external_body]
pub(crate) fn parse(text: &str) -> (r: Result<serde_json::Value, serde_json::Error>)
    ensures
        r matches Ok(value) ==> json_parse(text@) == Some(value),
        r is Err ==> json_parse(text@) is None,
{
    serde_json::from_str::<serde_json::Value>(text)
}

} // verus!
