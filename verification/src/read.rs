//! Reading what stands under a key.
use std::collections::HashMap;

use bytes::Bytes;
use redis::Cmd;
use vstd::prelude::*;

use crate::error::{CacheError, CacheErrorView};
use crate::json::{json_string_map, text_entries, write_string_map};
use crate::keys::{
    collection_named, get_index_key, index_key_of, index_named, Collection, IndexKey,
};
use crate::pipeline::{collection_storage, index_storage, Storage};
use crate::text::{signed_decimal, utf8};
use crate::wire::{
    all_contents, bytes_from_vec, cmd_get, cmd_hgetall, cmd_lrange, cmd_smembers, command_args,
    contents,
};

verus! {

/// What is asked of Redis to read a key.
pub struct ReadRequest {
    /// How what stands under the key is kept, and hence what the reply is.
    pub storage: Storage,
    /// The command.
    pub command: Cmd,
}

/// What Redis gives when a key is read.
#[derive(Debug)]
pub enum ReadReply {
    /// The single value, empty where there is none.
    Single(Vec<u8>),
    /// The values of a list, or the members of a set.
    Values(Vec<Bytes>),
    /// The fields of a hash.
    Fields(HashMap<String, String>),
}

/// The arguments of the command that reads what is kept as `storage` under `key`.
pub open spec fn read_args(storage: Storage, key: Seq<char>) -> Seq<Seq<u8>> {
    match storage {
        Storage::Single => seq![utf8("GET"@), utf8(key)],
        Storage::List => seq![utf8("LRANGE"@), utf8(key), utf8("0"@), utf8("-1"@)],
        Storage::Members => seq![utf8("SMEMBERS"@), utf8(key)],
        Storage::Fields => seq![utf8("HGETALL"@), utf8(key)],
    }
}

/// Whether a request is the one for what is kept as `storage` under `key`.
pub open spec fn asks(request: ReadRequest, storage: Storage, key: Seq<char>) -> bool {
    &&& request.storage == storage
    &&& command_args(request.command) == read_args(storage, key)
}

/// How the index under `key` is kept, or why it can not be read.
pub open spec fn read_index_storage(key: Seq<char>) -> Result<Storage, CacheErrorView> {
    match index_key_of(key) {
        None => Err(CacheErrorView::MissingDelimiter { key }),
        Some(index_key) => match index_named(index_key) {
            None => Err(CacheErrorView::UnknownIndexOnRead { index_key }),
            Some(index) => Ok(index_storage(index)),
        },
    }
}

/// How what stands in a collection under `key` is kept, or why it can not be read.
pub open spec fn read_storage(collection: Seq<char>, key: Seq<char>) -> Result<
    Storage,
    CacheErrorView,
> {
    match collection_named(collection) {
        None | Some(Collection::Snapshots) | Some(Collection::Health) => Err(
            CacheErrorView::UnsupportedRead { collection },
        ),
        Some(c) => match collection_storage(c) {
            None => read_index_storage(key),
            Some(storage) => Ok(storage),
        },
    }
}

/// The request for a single value.
pub fn read_string(key: &str) -> (r: ReadRequest)
    ensures
        asks(r, Storage::Single, key@),
{
    ReadRequest { storage: Storage::Single, command: cmd_get(key) }
}

/// The request for the members of a set.
pub fn read_set(key: &str) -> (r: ReadRequest)
    ensures
        asks(r, Storage::Members, key@),
{
    ReadRequest { storage: Storage::Members, command: cmd_smembers(key) }
}

/// The request for the fields of a hash.
pub fn read_hset(key: &str) -> (r: ReadRequest)
    ensures
        asks(r, Storage::Fields, key@),
{
    ReadRequest { storage: Storage::Fields, command: cmd_hgetall(key) }
}

/// The request for all values of a list.
pub fn read_list(key: &str) -> (r: ReadRequest)
    ensures
        asks(r, Storage::List, key@),
{
    let command = cmd_lrange(key, 0, -1);
    proof {
        reveal_strlit("0");
        reveal_strlit("-1");
        assert(signed_decimal(0) =~= "0"@);
        assert(signed_decimal(-1) =~= "-1"@);
    }
    ReadRequest { storage: Storage::List, command }
}

/// The request for an index.
pub fn read_index(key: &str) -> (r: Result<ReadRequest, CacheError>)
    ensures
        match r {
            Ok(request) => read_index_storage(key@) matches Ok(storage) && asks(
                request,
                storage,
                key@,
            ),
            Err(e) => read_index_storage(key@) == Err::<Storage, _>(e@),
        },
{
    let index_key = match get_index_key(key) {
        Ok(index_key) => index_key,
        Err(e) => {
            return Err(e);
        },
    };
    match IndexKey::parse(index_key) {
        Some(IndexKey::OrderPosition) | Some(IndexKey::OrderClient) => Ok(read_hset(key)),
        Some(_) => Ok(read_set(key)),
        None => Err(CacheError::UnknownIndexOnRead { index_key: index_key.to_owned() }),
    }
}

/// The request for what stands in a collection under `key`.
pub fn read_collection(collection: &str, key: &str) -> (r: Result<ReadRequest, CacheError>)
    ensures
        match r {
            Ok(request) => read_storage(collection@, key@) matches Ok(storage) && asks(
                request,
                storage,
                key@,
            ),
            Err(e) => read_storage(collection@, key@) == Err::<Storage, _>(e@),
        },
{
    match Collection::parse(collection) {
        Some(Collection::Index) => read_index(key),
        Some(Collection::Accounts) | Some(Collection::Orders) | Some(Collection::Positions) => Ok(
            read_list(key),
        ),
        None | Some(Collection::Snapshots) | Some(Collection::Health) => Err(
            CacheError::UnsupportedRead { collection: collection.to_owned() },
        ),
        Some(_) => Ok(read_string(key)),
    }
}

/// What a read gives for a reply: no value where the single value is empty, the values or members
/// as they are, and the fields of a hash as one JSON object.
pub fn decode_reply(reply: ReadReply) -> (r: Result<Vec<Bytes>, serde_json::Error>)
    ensures
        match (reply, r) {
            (ReadReply::Single(value), Ok(values)) => all_contents(values@) == (if value@.len()
                == 0 {
                Seq::empty()
            } else {
                seq![value@]
            }),
            (ReadReply::Values(items), Ok(values)) => values == items,
            (ReadReply::Fields(fields), Ok(values)) => {
                &&& values@.len() == 1
                &&& json_string_map(contents(values@[0])) == Some(text_entries(fields))
                &&& text_entries(fields) == Map::<Seq<char>, Seq<char>>::empty() ==> contents(
                    values@[0],
                ) == utf8("{}"@)
            },
            (_, Err(_)) => false,
        },
{
    match reply {
        ReadReply::Single(value) => {
            let mut values: Vec<Bytes> = Vec::new();
            let ghost bytes = value@;
            if value.len() > 0 {
                values.push(bytes_from_vec(value));
            }
            proof {
                assert(all_contents(values@) =~= (if bytes.len() == 0 {
                    Seq::empty()
                } else {
                    seq![bytes]
                }));
            }
            Ok(values)
        },
        ReadReply::Values(items) => Ok(items),
        ReadReply::Fields(fields) => match write_string_map(&fields) {
            Ok(json) => {
                let mut values: Vec<Bytes> = Vec::new();
                values.push(bytes_from_vec(json.as_str().as_bytes_vec()));
                Ok(values)
            },
            Err(e) => Err(e),
        },
    }
}

/// A request names how what stands under the key is kept, and is the command that reads all of it
/// under exactly that key.
pub proof fn law_request_reads_the_key(request: ReadRequest, storage: Storage, key: Seq<char>)
    requires
        asks(request, storage, key),
    ensures
        request.storage == storage,
        command_args(request.command) == (match storage {
            Storage::Single => seq![utf8("GET"@), utf8(key)],
            Storage::List => seq![utf8("LRANGE"@), utf8(key), utf8("0"@), utf8("-1"@)],
            Storage::Members => seq![utf8("SMEMBERS"@), utf8(key)],
            Storage::Fields => seq![utf8("HGETALL"@), utf8(key)],
        }),
{
}

} // verus!
