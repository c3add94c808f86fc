//! The boundary with `serde_json`.
//!
//! A response body is parsed by `serde_json` into a `serde_json::Value`, which
//! the verifier cannot look into. This module gives such a value a mathematical
//! model, [`JsonModel`], and states, for each `serde_json` function that the
//! library calls, what it returns in terms of that model. None of these
//! statements is proved: they are read off the source of `serde_json`, built
//! with its default features.

use vstd::prelude::*;

verus! {

/// `serde_json::Value`, taken as it is: the verifier sees nothing inside it.
#[verifier::external_type_specification]
#[verifier::external_body]
pub struct ExValue(serde_json::Value);

/// `serde_json::Error`, taken as it is: the library only tells that there is one.
#[verifier::external_type_specification]
#[verifier::external_body]
pub struct ExError(serde_json::Error);

/// What a JSON value holds.
///
/// A number is either an integer, as written, or a real number, given by the
/// bits of the IEEE 754 double that stands for it.
pub ghost enum JsonModel {
    Null,
    Bool(bool),
    Integer(int),
    Real(u64),
    Text(Seq<char>),
    Array(Seq<JsonModel>),
    Object(Map<Seq<char>, JsonModel>),
}

/// The JSON value that a `serde_json::Value` holds.
pub uninterp spec fn json_model(doc: serde_json::Value) -> JsonModel;

/// The JSON value that `serde_json::from_slice` reads from a text, or `None`
/// where it rejects the text.
pub uninterp spec fn json_parse(body: Seq<u8>) -> Option<JsonModel>;

/// The bits of the double that `serde_json::Value::as_f64` gives for an integer.
pub uninterp spec fn double_of(n: int) -> u64;

/// Calls `serde_json::from_slice` for a `serde_json::Value`.
///
/// The contract claims that parsing is a function of the text alone: which
/// texts are rejected, and the value read from the others, is `json_parse`.
#[verifier::external_body]
pub(crate) fn value_from_slice(body: &[u8]) -> (r: Result<serde_json::Value, serde_json::Error>)
    ensures
        match r {
            Ok(doc) => json_parse(body@) == Some(json_model(doc)),
            Err(_) => json_parse(body@) is None,
        },
{
    serde_json::from_slice::<serde_json::Value>(body)
}

/// Calls `serde_json::Value::get` with a string key.
///
/// The contract claims that the call finds a member exactly where the value is
/// an object that has the key, and that it then returns that member.
#[verifier::external_body]
pub(crate) fn value_get<'a>(doc: &'a serde_json::Value, key: &str) -> (r: Option<
    &'a serde_json::Value,
>)
    ensures
        match r {
            Some(v) => json_model(*doc) matches JsonModel::Object(members) && members.contains_key(
                key@,
            ) && members[key@] == json_model(*v),
            None => !(json_model(*doc) matches JsonModel::Object(members) && members.contains_key(
                key@,
            )),
        },
{
    doc.get(key)
}

/// Calls `serde_json::Value::as_f64` and takes the bits of the double.
///
/// The contract claims that every number has a double: a real number its own,
/// an integer the one that `double_of` names; and that nothing else has one.
#[verifier::external_body]
pub(crate) fn value_as_f64_bits(v: &serde_json::Value) -> (r: Option<u64>)
    ensures
        r == (match json_model(*v) {
            JsonModel::Integer(n) => Some(double_of(n)),
            JsonModel::Real(bits) => Some(bits),
            _ => None,
        }),
{
    v.as_f64().map(|x| x.to_bits())
}

/// `serde_json::Value::is_null` holds of the null value and of no other.
pub assume_specification[ serde_json::Value::is_null ](v: &serde_json::Value) -> (r: bool)
    ensures
        r == (json_model(*v) is Null),
;

/// `serde_json::Value::as_bool` returns the boolean that the value is, and
/// `None` for every other value.
pub assume_specification[ serde_json::Value::as_bool ](v: &serde_json::Value) -> (r: Option<bool>)
    ensures
        r == (match json_model(*v) {
            JsonModel::Bool(b) => Some(b),
            _ => None,
        }),
;

/// `serde_json::Value::as_i64` returns the integer that the value is where it
/// lies between `i64::MIN` and `i64::MAX`, and `None` for every other value.
pub assume_specification[ serde_json::Value::as_i64 ](v: &serde_json::Value) -> (r: Option<i64>)
    ensures
        r == (match json_model(*v) {
            JsonModel::Integer(n) if i64::MIN <= n <= i64::MAX => Some(n as i64),
            _ => None,
        }),
;

/// `serde_json::Value::as_str` returns the string that the value is, and
/// `None` for every other value.
pub assume_specification<'a>[ serde_json::Value::as_str ](v: &'a serde_json::Value) -> (r: Option<
    &'a str,
>)
    ensures
        match r {
            Some(s) => json_model(*v) == JsonModel::Text(s@),
            None => !(json_model(*v) is Text),
        },
;

} // verus!
