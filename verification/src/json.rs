//! JSON documents, as `serde_json` reads them.
//!
//! A document is a `serde_json::Value`, which the verifier cannot look into.
//! What a document holds is named by `json_model`, and every function here
//! that touches a document is a thin call into `serde_json` whose contract is
//! taken on trust: it is read off the source of `serde_json`, not proved.

use vstd::prelude::*;

verus! {

/// What a JSON document holds.
pub enum JsonModel {
    /// `null`.
    Null,
    /// `true` or `false`.
    Bool(bool),
    /// A number that the document holds as an integer.
    Integer(int),
    /// A number that the document holds as a binary64 value, by its bits.
    Real(u64),
    /// A string.
    Text(Seq<char>),
    /// An array, with its elements in order.
    List(Seq<JsonModel>),
    /// An object, with its members in the order in which the document hands
    /// them out.
    Object(Seq<(Seq<char>, JsonModel)>),
}

/// The type of a JSON document.
#[verifier::external_type_specification]
#[verifier::external_body]
pub struct ExValue(serde_json::Value);

/// The type of the error with which `serde_json` refuses a text.
#[verifier::external_type_specification]
#[verifier::external_body]
pub struct ExError(serde_json::Error);

/// What the document `v` holds.
pub uninterp spec fn json_model(v: serde_json::Value) -> JsonModel;

/// What the bytes `bytes` hold when they are read as JSON: the document, or
/// nothing where the bytes are not a JSON document.
pub uninterp spec fn json_parse(bytes: Seq<u8>) -> Option<JsonModel>;

/// What a list of members holds: each key with what its document holds.
pub open spec fn members_model(ms: Seq<(String, &serde_json::Value)>) -> Seq<
    (Seq<char>, JsonModel),
> {
    ms.map_values(|m: (String, &serde_json::Value)| (m.0@, json_model(*m.1)))
}

/// Reads `bytes` as a JSON document, by `serde_json::from_slice`.
///
/// Trusted: the document that comes back holds what `json_parse` names for
/// these bytes, and an error comes back exactly where `json_parse` names
/// nothing. This says that reading depends on the bytes alone; it says
/// nothing about which bytes are JSON.
#[verifier::external_body]
pub(crate) fn parse(bytes: &[u8]) -> (r: Result<serde_json::Value, serde_json::Error>)
    ensures
        match r {
            Ok(v) => json_parse(bytes@) == Some(json_model(v)),
            Err(_) => json_parse(bytes@) is None,
        },
{
    serde_json::from_slice::<serde_json::Value>(bytes)
}

/// The boolean that `v` is, by `serde_json::Value::as_bool`.
///
/// Trusted: the result is the boolean of a document that is one, and nothing
/// for every other document.
#[verifier::external_body]
pub(crate) fn as_bool(v: &serde_json::Value) -> (r: Option<bool>)
    ensures
        r == match json_model(*v) {
            JsonModel::Bool(b) => Some(b),
            _ => None,
        },
{
    v.as_bool()
}

/// The integer that `v` is, by `serde_json::Value::as_i64`.
///
/// Trusted: the result is the value of a document that is an integer of at
/// most 64 bits with a sign, and nothing for every other document: one that
/// is no number, a number that was not written as an integer, and an
/// integer above the greatest such value.
#[verifier::external_body]
pub(crate) fn as_i64(v: &serde_json::Value) -> (r: Option<i64>)
    ensures
        r matches Some(i) ==> json_model(*v) == JsonModel::Integer(i as int),
        r is None ==> !(json_model(*v) matches JsonModel::Integer(i) && i64::MIN <= i
            <= i64::MAX),
{
    v.as_i64()
}

/// The string that `v` is, by `serde_json::Value::as_str`.
///
/// Trusted: the result is the text of a document that is a string, and
/// nothing for every other document.
#[verifier::external_body]
pub(crate) fn as_text<'a>(v: &'a serde_json::Value) -> (r: Option<&'a str>)
    ensures
        r matches Some(s) ==> json_model(*v) == JsonModel::Text(s@),
        r is None ==> !(json_model(*v) is Text),
{
    v.as_str()
}

/// The members of the object that `v` is, by `serde_json::Value::as_object`
/// and `serde_json::Map::iter`.
///
/// Trusted: for a document that is an object the result lists its members in
/// the order of the model, each with a copy of its key, and no key occurs
/// twice; for every other document the result is nothing.
#[verifier::external_body]
pub(crate) fn object_members<'a>(v: &'a serde_json::Value) -> (r: Option<
    Vec<(String, &'a serde_json::Value)>,
>)
    ensures
        r matches Some(ms) ==> json_model(*v) == JsonModel::Object(members_model(ms@))
            && forall|i: int, j: int|
            0 <= i < j < ms.len() ==> (#[trigger] ms[i]).0@ != (#[trigger] ms[j]).0@,
        r is None ==> !(json_model(*v) is Object),
{
    v.as_object().map(|m| m.iter().map(|(k, x)| (k.clone(), x)).collect())
}

} // verus!
