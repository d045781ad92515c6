//! The JSON values of `serde_json`, as far as the bridge looks into them.
//!
//! A `serde_json::Value` is opaque to the verifier. What the bridge reads of
//! it is given a name here, and each accessor below is a thin call into
//! `serde_json` whose contract is taken on trust from that crate's source.

use vstd::prelude::*;

verus! {

/// `serde_json::Value`, a JSON value, carried as an opaque type.
#[verifier::external_type_specification]
#[verifier::external_body]
pub struct ExValue(serde_json::Value);

/// `serde_json::Error`, carried as an opaque type.
#[verifier::external_type_specification]
#[verifier::external_body]
pub struct ExJsonError(serde_json::Error);

/// `serde_json::Map`, the members of a JSON object, carried as an opaque
/// type.
#[verifier::external_type_specification]
#[verifier::external_body]
#[verifier::reject_recursive_types(K)]
#[verifier::reject_recursive_types(V)]
pub struct ExJsonMap<K, V>(serde_json::Map<K, V>);

/// The member stored under `key` if `v` is a JSON object that has one.
pub uninterp spec fn json_member(v: serde_json::Value, key: Seq<char>) -> Option<serde_json::Value>;

/// The characters of `v` if `v` is a JSON string.
pub uninterp spec fn json_string(v: serde_json::Value) -> Option<Seq<char>>;

/// Whether `v` is the JSON value `null`.
pub uninterp spec fn json_is_null(v: serde_json::Value) -> bool;

/// Whether `v` is a JSON object.
pub uninterp spec fn json_is_object(v: serde_json::Value) -> bool;

/// The compact JSON text of `v`, if `serde_json` can produce one.
pub uninterp spec fn json_text(v: serde_json::Value) -> Option<Seq<char>>;

/// The value that `text` denotes, if `text` is one JSON document.
pub uninterp spec fn json_parsed(text: Seq<char>) -> Option<serde_json::Value>;

/// The members that the JSON object under construction `m` holds, by key.
pub uninterp spec fn json_entries(m: serde_json::Map<String, serde_json::Value>) -> Map<
    Seq<char>,
    serde_json::Value,
>;

/// Calls `serde_json::Value::get` with a string key. Trusted: the result is
/// the member named by [`json_member`], which is absent whenever `v` is not an
/// object or has no such key.
#[verifier::external_body]
pub(crate) fn member<'a>(v: &'a serde_json::Value, key: &str) -> (res: Option<&'a serde_json::Value>)
    ensures
        res matches Some(m) ==> json_member(*v, key@) == Some(*m),
        res is None ==> json_member(*v, key@) is None,
{
    v.get(key)
}

/// Calls `serde_json::Value::as_str`. Trusted: the result is the text named
/// by [`json_string`], which is absent whenever `v` is not a string.
#[verifier::external_body]
pub(crate) fn as_text<'a>(v: &'a serde_json::Value) -> (res: Option<&'a str>)
    ensures
        res matches Some(s) ==> json_string(*v) == Some(s@),
        res is None ==> json_string(*v) is None,
{
    v.as_str()
}

/// Calls `serde_json::Value::is_null`. Trusted: the result is [`json_is_null`].
#[verifier::external_body]
pub(crate) fn is_null(v: &serde_json::Value) -> (res: bool)
    ensures
        res == json_is_null(*v),
{
    v.is_null()
}

/// Calls `serde_json::Value::is_object`. Trusted: the result is
/// [`json_is_object`].
#[verifier::external_body]
pub(crate) fn is_object(v: &serde_json::Value) -> (res: bool)
    ensures
        res == json_is_object(*v),
{
    v.is_object()
}

/// Calls `serde_json::to_string` on a value. Trusted: success yields the text
/// named by [`json_text`], and failure means that there is none.
#[verifier::external_body]
pub(crate) fn to_text(v: &serde_json::Value) -> (res: Result<String, serde_json::Error>)
    ensures
        res matches Ok(s) ==> json_text(*v) == Some(s@),
        res is Err ==> json_text(*v) is None,
{
    serde_json::to_string(v)
}

/// Calls `serde_json::from_str` for a `Value`. Trusted: success yields the
/// value named by [`json_parsed`], and failure means that there is none.
#[verifier::external_body]
pub(crate) fn parse(text: &str) -> (res: Result<serde_json::Value, serde_json::Error>)
    ensures
        res matches Ok(v) ==> json_parsed(text@) == Some(v),
        res is Err ==> json_parsed(text@) is None,
{
    serde_json::from_str::<serde_json::Value>(text)
}

/// Calls `serde_json::Map::new`. Trusted: the new map has no entries.
#[verifier::external_body]
pub(crate) fn new_object() -> (res: serde_json::Map<String, serde_json::Value>)
    ensures
        forall|key: Seq<char>| !(#[trigger] json_entries(res).contains_key(key)),
{
    serde_json::Map::new()
}

/// Calls `serde_json::Map::insert`. Trusted: afterwards `key` is bound to
/// `value` and every other entry is as before. The value that the call
/// displaced, if any, is dropped.
#[verifier::external_body]
pub(crate) fn put(
    m: &mut serde_json::Map<String, serde_json::Value>,
    key: String,
    value: serde_json::Value,
)
    ensures
        json_entries(*final(m)) == json_entries(*old(m)).insert(key@, value),
{
    let _ = m.insert(key, value);
}

/// Converts a map into a `serde_json::Value` with `Value::from`. Trusted: the
/// result is an object, neither `null` nor a string, and its members are
/// exactly the map's entries.
#[verifier::external_body]
pub(crate) fn object_value(m: serde_json::Map<String, serde_json::Value>) -> (res:
    serde_json::Value)
    ensures
        json_is_object(res),
        !json_is_null(res),
        json_string(res) is None,
        forall|key: Seq<char>| #[trigger]
            json_member(res, key) == (if json_entries(m).contains_key(key) {
                Some(json_entries(m)[key])
            } else {
                None
            }),
{
    serde_json::Value::from(m)
}

/// Converts a string into a `serde_json::Value` with `Value::from`. Trusted:
/// the result is a JSON string of the same characters, neither `null` nor an
/// object.
#[verifier::external_body]
pub(crate) fn string_value(s: String) -> (res: serde_json::Value)
    ensures
        json_string(res) == Some(s@),
        !json_is_null(res),
        !json_is_object(res),
{
    serde_json::Value::from(s)
}

} // verus!
