//! The encodings that payloads can have.
use std::collections::HashMap;

use serde_json::Value;
use vstd::prelude::*;

use crate::json::{
    entries, json_object, json_text, map_get, msgpack_object, read_json_object,
    read_msgpack_object, value_as_str,
};
use crate::text::str_eq;

verus! {

/// Why a payload could not be read.
#[derive(Debug)]
pub enum PayloadError {
    /// The payload is no map in the `msgpack` encoding.
    Msgpack(rmp_serde::decode::Error),
    /// The payload is no map in the `json` encoding.
    Json(serde_json::Error),
    /// There is no such encoding.
    UnsupportedEncoding { encoding: String },
}

impl PayloadError {
    /// The text that tells a reader what failed; `cause` is the text of the error that reading the
    /// payload gave.
    pub open spec fn text(self, cause: Seq<char>) -> Seq<char> {
        match self {
            PayloadError::Msgpack(_) => "Failed to deserialize msgpack `payload`: "@ + cause,
            PayloadError::Json(_) => "Failed to deserialize json `payload`: "@ + cause,
            PayloadError::UnsupportedEncoding { encoding } => "Unsupported encoding: "@
                + encoding@,
        }
    }

    /// The text that tells a reader what failed; `cause` is the text of the error that reading the
    /// payload gave.
    pub fn message(&self, cause: &str) -> (r: String)
        ensures
            r@ == self.text(cause@),
    {
        let (mut text, end) = match self {
            PayloadError::Msgpack(_) => (
                "Failed to deserialize msgpack `payload`: ".to_owned(),
                cause,
            ),
            PayloadError::Json(_) => ("Failed to deserialize json `payload`: ".to_owned(), cause),
            PayloadError::UnsupportedEncoding { encoding } => (
                "Unsupported encoding: ".to_owned(),
                encoding.as_str(),
            ),
        };
        text.append(end);
        text
    }
}

/// The encoding that a configuration asks for: the text under `encoding`, or `msgpack` where no
/// text stands there.
pub open spec fn encoding_of(config: Map<Seq<char>, Value>) -> Seq<char> {
    if config.contains_key("encoding"@) {
        match json_text(config["encoding"@]) {
            Some(text) => text,
            None => "msgpack"@,
        }
    } else {
        "msgpack"@
    }
}

/// The given encoding, or `msgpack` where none is given.
pub fn encoding_or_default(found: Option<&str>) -> (r: String)
    ensures
        r@ == (match found {
            Some(text) => text@,
            None => "msgpack"@,
        }),
{
    match found {
        Some(text) => text.to_owned(),
        None => "msgpack".to_owned(),
    }
}

/// The encoding that a configuration asks for.
pub fn get_encoding(config: &HashMap<String, Value>) -> (r: String)
    ensures
        r@ == encoding_of(entries(*config)),
{
    match map_get(config, "encoding") {
        Some(value) => encoding_or_default(value_as_str(value)),
        None => encoding_or_default(None),
    }
}

/// The entries of a payload in the given encoding.
pub fn deserialize_payload(encoding: &str, payload: &[u8]) -> (r: Result<
    HashMap<String, Value>,
    PayloadError,
>)
    ensures
        if encoding@ == "msgpack"@ {
            match r {
                Ok(m) => msgpack_object(payload@) == Some(entries(m)),
                Err(e) => e is Msgpack && msgpack_object(payload@) is None,
            }
        } else if encoding@ == "json"@ {
            match r {
                Ok(m) => json_object(payload@) == Some(entries(m)),
                Err(e) => e is Json && json_object(payload@) is None,
            }
        } else {
            r matches Err(PayloadError::UnsupportedEncoding { encoding: named }) && named@
                == encoding@
        },
{
    if str_eq(encoding, "msgpack") {
        match read_msgpack_object(payload) {
            Ok(m) => Ok(m),
            Err(e) => Err(PayloadError::Msgpack(e)),
        }
    } else if str_eq(encoding, "json") {
        match read_json_object(payload) {
            Ok(m) => Ok(m),
            Err(e) => Err(PayloadError::Json(e)),
        }
    } else {
        Err(PayloadError::UnsupportedEncoding { encoding: encoding.to_owned() })
    }
}

/// The encoding is the text under `encoding`, whatever text it is, and `msgpack` where nothing or
/// no text stands there.
pub proof fn law_encoding_is_the_configured_text(config: Map<Seq<char>, Value>, text: Seq<char>)
    ensures
        config.contains_key("encoding"@) && json_text(config["encoding"@]) == Some(text)
            ==> encoding_of(config) == text,
        config.contains_key("encoding"@) && json_text(config["encoding"@]) is None ==> encoding_of(
            config,
        ) == "msgpack"@,
        !config.contains_key("encoding"@) ==> encoding_of(config) == "msgpack"@,
{
}

/// The texts of the errors of payloads.
pub proof fn law_payload_error_texts(error: PayloadError, cause: Seq<char>)
    ensures
        error.text(cause) == (match error {
            PayloadError::Msgpack(_) => "Failed to deserialize msgpack `payload`: "@ + cause,
            PayloadError::Json(_) => "Failed to deserialize json `payload`: "@ + cause,
            PayloadError::UnsupportedEncoding { encoding } => "Unsupported encoding: "@
                + encoding@,
        }),
{
}

} // verus!
