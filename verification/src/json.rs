//! Numbers, objects and payloads in the notations of `serde_json` and `rmp_serde`.
use std::collections::HashMap;

use serde_json::Value;
use vstd::prelude::*;

use crate::text::{decimal, utf8};

verus! {

/// An error of the `serde_json` crate.
#[verifier::external_type_specification]
#[verifier::external_body]
pub struct ExJsonError(serde_json::Error);

/// A value in the notation of the `serde_json` crate.
#[verifier::external_type_specification]
#[verifier::external_body]
pub struct ExValue(serde_json::Value);

/// An error of the `rmp_serde` crate.
#[verifier::external_type_specification]
#[verifier::external_body]
pub struct ExMsgpackError(rmp_serde::decode::Error);

/// The entries of a map, by the texts of their keys.
pub open spec fn entries<V>(m: HashMap<String, V>) -> Map<Seq<char>, V> {
    Map::new(
        |text: Seq<char>| exists|k: String| #[trigger] m@.contains_key(k) && k@ == text,
        |text: Seq<char>| m@[choose|k: String| #[trigger] m@.contains_key(k) && k@ == text],
    )
}

/// The entries of a map of texts.
pub open spec fn text_entries(m: HashMap<String, String>) -> Map<Seq<char>, Seq<char>> {
    entries(m).map_values(|v: String| v@)
}

/// The text that a value holds, if it holds one.
pub uninterp spec fn json_text(value: Value) -> Option<Seq<char>>;

/// The texts that `serde_json::from_slice` reads from bytes as a map of texts, if it reads one.
pub uninterp spec fn json_string_map(bytes: Seq<u8>) -> Option<Map<Seq<char>, Seq<char>>>;

/// The values that `serde_json::from_slice` reads from bytes as a map of values, if it reads one.
pub uninterp spec fn json_object(bytes: Seq<u8>) -> Option<Map<Seq<char>, Value>>;

/// The values that `rmp_serde::from_slice` reads from bytes as a map of values, if it reads one.
pub uninterp spec fn msgpack_object(bytes: Seq<u8>) -> Option<Map<Seq<char>, Value>>;

/// Calls `HashMap::get`, which gives the value of the entry with the key, if there is one.
#[verifier::external_body]
pub(crate) fn map_get<'a>(m: &'a HashMap<String, Value>, key: &str) -> (r: Option<&'a Value>)
    ensures
        match r {
            Some(value) => entries(*m).contains_key(key@) && entries(*m)[key@] == *value,
            None => !entries(*m).contains_key(key@),
        },
{
    m.get(key)
}

/// Calls `Value::as_str`, which gives the text that the value holds, if it holds one.
#[verifier::external_body]
pub(crate) fn value_as_str(value: &Value) -> (r: Option<&str>)
    ensures
        match r {
            Some(text) => json_text(*value) == Some(text@),
            None => json_text(*value) is None,
        },
{
    value.as_str()
}

/// Calls `serde_json::to_string` on a map of texts, which writes it as an object; the same map is
/// read back from the bytes of what was written, and a map without entries is written as two
/// braces. In which order the entries stand is not said.
#[verifier::external_body]
pub(crate) fn write_string_map(m: &HashMap<String, String>) -> (r: Result<
    String,
    serde_json::Error,
>)
    ensures
        match r {
            Ok(text) => {
                &&& json_string_map(utf8(text@)) == Some(text_entries(*m))
                &&& text_entries(*m) == Map::<Seq<char>, Seq<char>>::empty() ==> text@ == "{}"@
            },
            Err(_) => false,
        },
{
    serde_json::to_string(m)
}

/// Calls `serde_json::from_slice` for a map of values, which reads the object that the bytes stand
/// for and fails where they stand for none.
#[verifier::external_body]
pub(crate) fn read_json_object(bytes: &[u8]) -> (r: Result<
    HashMap<String, Value>,
    serde_json::Error,
>)
    ensures
        match r {
            Ok(m) => json_object(bytes@) == Some(entries(m)),
            Err(_) => json_object(bytes@) is None,
        },
{
    serde_json::from_slice(bytes)
}

/// Calls `rmp_serde::from_slice` for a map of values, which reads the map that the bytes stand for
/// and fails where they stand for none.
#[verifier::external_body]
pub(crate) fn read_msgpack_object(bytes: &[u8]) -> (r: Result<
    HashMap<String, Value>,
    rmp_serde::decode::Error,
>)
    ensures
        match r {
            Ok(m) => msgpack_object(bytes@) == Some(entries(m)),
            Err(_) => msgpack_object(bytes@) is None,
        },
{
    rmp_serde::from_slice(bytes)
}

/// The number that `serde_json::from_slice` reads from bytes as a `u64`, if it reads one.
pub uninterp spec fn json_u64(bytes: Seq<u8>) -> Option<u64>;

/// Calls `serde_json::from_slice` for a `u64`, which reads the number that the bytes stand for and
/// fails where they stand for none.
#[verifier::external_body]
pub(crate) fn read_u64(bytes: &[u8]) -> (r: Result<u64, serde_json::Error>)
    ensures
        match r {
            Ok(n) => json_u64(bytes@) == Some(n),
            Err(_) => json_u64(bytes@) is None,
        },
{
    serde_json::from_slice(bytes)
}

/// Calls `serde_json::to_vec` on a `u64`, which writes it in decimal notation; the number is read
/// back from what was written.
#[verifier::external_body]
pub(crate) fn write_u64(n: u64) -> (r: Result<Vec<u8>, serde_json::Error>)
    ensures
        match r {
            Ok(bytes) => bytes@ == utf8(decimal(n as nat)) && json_u64(bytes@) == Some(n),
            Err(_) => false,
        },
{
    serde_json::to_vec(&n)
}

} // verus!
