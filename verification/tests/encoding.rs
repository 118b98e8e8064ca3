use std::collections::HashMap;

use redis_cache::encoding::{
    deserialize_payload, encoding_or_default, get_encoding, PayloadError,
};
use serde_json::Value;

fn config(key: &str, value: Value) -> HashMap<String, Value> {
    let mut map = HashMap::new();
    map.insert(key.to_string(), value);
    map
}

#[test]
fn the_encoding_is_the_configured_one() {
    assert_eq!(get_encoding(&config("encoding", Value::String("json".to_string()))), "json");
    assert_eq!(get_encoding(&config("encoding", Value::String("".to_string()))), "");
}

#[test]
fn the_encoding_is_msgpack_where_none_is_configured() {
    assert_eq!(get_encoding(&HashMap::new()), "msgpack");
    assert_eq!(get_encoding(&config("encoding", Value::Bool(true))), "msgpack");
    assert_eq!(get_encoding(&config("Encoding", Value::String("json".to_string()))), "msgpack");
    assert_eq!(encoding_or_default(None), "msgpack");
    assert_eq!(encoding_or_default(Some("x")), "x");
}

#[test]
fn json_payloads_are_read() {
    let map = deserialize_payload("json", b"{\"a\": 1, \"b\": \"x\"}").unwrap();
    assert_eq!(map.len(), 2);
    assert_eq!(map["a"], Value::from(1));
    assert_eq!(map["b"], Value::from("x"));
    let error = deserialize_payload("json", b"[1]").err().unwrap();
    assert!(matches!(error, PayloadError::Json(_)));
    assert_eq!(error.message("no map"), "Failed to deserialize json `payload`: no map");
}

#[test]
fn msgpack_payloads_are_read() {
    let payload = [0x82, 0xa1, b'a', 1, 0xa1, b'b', 0xa1, b'x'];
    let map = deserialize_payload("msgpack", &payload).unwrap();
    assert_eq!(map.len(), 2);
    assert_eq!(map["a"], Value::from(1));
    assert_eq!(map["b"], Value::from("x"));
    let error = deserialize_payload("msgpack", &[]).err().unwrap();
    assert!(matches!(error, PayloadError::Msgpack(_)));
    assert_eq!(error.message("empty"), "Failed to deserialize msgpack `payload`: empty");
}

#[test]
fn other_encodings_are_refused() {
    let error = deserialize_payload("JSON", b"{}").err().unwrap();
    assert!(matches!(error, PayloadError::UnsupportedEncoding { .. }));
    assert_eq!(error.message(""), "Unsupported encoding: JSON");
}
