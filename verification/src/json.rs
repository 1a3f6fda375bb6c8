//! The JSON object that carries a claim set to and from the token codec.
//!
//! The object is `serde_json`'s own map. Verus cannot look inside it, so its
//! contents are named by [`json_fields`] and every method the library calls
//! on it is wrapped here with a contract over that name.

use vstd::prelude::*;

verus! {

/// `serde_json::Value`, the kind of value that the fields of a JSON object
/// hold. Nothing is read from it directly.
#[verifier::external_type_specification]
#[verifier::external_body]
pub struct ExJsonValue(serde_json::Value);

/// `serde_json::Map`, the JSON object. What it holds is named by
/// [`json_fields`].
#[verifier::external_type_specification]
#[verifier::external_body]
#[verifier::reject_recursive_types(K)]
#[verifier::reject_recursive_types(V)]
pub struct ExJsonMap<K, V>(serde_json::Map<K, V>);

/// What one field of a JSON object holds: its integer value if it is an
/// integer number, its text if it is a string, and neither for any other
/// kind of value.
pub type JsonField = (Option<int>, Option<Seq<char>>);

/// The fields of a JSON object, by key.
pub type JsonFields = Map<Seq<char>, JsonField>;

/// The fields that a `serde_json::Map` holds. Two objects with the same
/// fields differ at most in values that are neither integers nor strings.
pub uninterp spec fn json_fields(m: serde_json::Map<String, serde_json::Value>) -> Map<
    Seq<char>,
    (Option<int>, Option<Seq<char>>),
>;

/// An object without fields.
pub open spec fn no_fields() -> JsonFields {
    Map::empty()
}

/// A field that holds the integer `v`.
pub open spec fn int_field(v: int) -> JsonField {
    (Some(v), None)
}

/// A field that holds the string `s`.
pub open spec fn text_field(s: Seq<char>) -> JsonField {
    (None, Some(s))
}

/// Every field is an integer or a string.
pub open spec fn scalar_only(f: JsonFields) -> bool {
    forall|k: Seq<char>| #[trigger] f.contains_key(k) ==> f[k].0 is Some || f[k].1 is Some
}

/// The integer under `key`, if the object has that key and an integer under it.
pub open spec fn field_int(f: JsonFields, key: Seq<char>) -> Option<int> {
    if f.contains_key(key) {
        f[key].0
    } else {
        None
    }
}

/// The string under `key`, if the object has that key and a string under it.
pub open spec fn field_text(f: JsonFields, key: Seq<char>) -> Option<Seq<char>> {
    if f.contains_key(key) {
        f[key].1
    } else {
        None
    }
}

/// `v` as an `i64`, where it is one.
pub open spec fn int_as_i64(v: Option<int>) -> Option<i64> {
    match v {
        Some(n) if i64::MIN <= n <= i64::MAX => Some(n as i64),
        _ => None,
    }
}

/// `v` as a `u64`, where it is one.
pub open spec fn int_as_u64(v: Option<int>) -> Option<u64> {
    match v {
        Some(n) if 0 <= n <= u64::MAX => Some(n as u64),
        _ => None,
    }
}

/// `serde_json::Map::new`: an object without fields.
#[verifier::external_body]
pub(crate) fn json_new() -> (m: serde_json::Map<String, serde_json::Value>)
    ensures
        json_fields(m) == no_fields(),
{
    serde_json::Map::new()
}

/// `serde_json::Map::insert` with a signed integer: afterwards `key` holds
/// the integer `value`, and every other field is as before.
#[verifier::external_body]
pub(crate) fn json_put_i64(
    m: &mut serde_json::Map<String, serde_json::Value>,
    key: &str,
    value: i64,
)
    ensures
        json_fields(*final(m)) == json_fields(*old(m)).insert(key@, int_field(value as int)),
{
    m.insert(key.to_owned(), serde_json::Value::from(value));
}

/// `serde_json::Map::insert` with an unsigned integer: afterwards `key`
/// holds the integer `value`, and every other field is as before.
#[verifier::external_body]
pub(crate) fn json_put_u64(
    m: &mut serde_json::Map<String, serde_json::Value>,
    key: &str,
    value: u64,
)
    ensures
        json_fields(*final(m)) == json_fields(*old(m)).insert(key@, int_field(value as int)),
{
    m.insert(key.to_owned(), serde_json::Value::from(value));
}

/// `serde_json::Map::insert` with a string: afterwards `key` holds the
/// string `value`, and every other field is as before.
#[verifier::external_body]
pub(crate) fn json_put_text(
    m: &mut serde_json::Map<String, serde_json::Value>,
    key: &str,
    value: &str,
)
    ensures
        json_fields(*final(m)) == json_fields(*old(m)).insert(key@, text_field(value@)),
{
    m.insert(key.to_owned(), serde_json::Value::from(value));
}

/// `serde_json::Map::get` followed by `Value::as_i64`: the integer under
/// `key` where there is one and it fits an `i64`, else `None`.
#[verifier::external_body]
pub(crate) fn json_get_i64(m: &serde_json::Map<String, serde_json::Value>, key: &str) -> (r:
    Option<i64>)
    ensures
        r == int_as_i64(field_int(json_fields(*m), key@)),
{
    m.get(key).and_then(|v| v.as_i64())
}

/// `serde_json::Map::get` followed by `Value::as_u64`: the integer under
/// `key` where there is one and it fits a `u64`, else `None`.
#[verifier::external_body]
pub(crate) fn json_get_u64(m: &serde_json::Map<String, serde_json::Value>, key: &str) -> (r:
    Option<u64>)
    ensures
        r == int_as_u64(field_int(json_fields(*m), key@)),
{
    m.get(key).and_then(|v| v.as_u64())
}

/// `serde_json::Map::get` followed by `Value::as_str`: a copy of the string
/// under `key` where there is one, else `None`.
#[verifier::external_body]
pub(crate) fn json_get_text(m: &serde_json::Map<String, serde_json::Value>, key: &str) -> (r:
    Option<String>)
    ensures
        match r {
            Some(s) => field_text(json_fields(*m), key@) == Some(s@),
            None => field_text(json_fields(*m), key@) is None,
        },
{
    m.get(key).and_then(|v| v.as_str()).map(|s| s.to_owned())
}

} // verus!
