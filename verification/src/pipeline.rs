//! Turning commands into Redis pipelines.
use bytes::Bytes;
use redis::Pipeline;
use vstd::prelude::*;

use crate::command::{CommandView, DatabaseCommand, DatabaseOperation};
use crate::error::{CacheError, CacheErrorView};
use crate::keys::{
    collection_named, collection_of, get_collection_key, get_index_key, index_key_of, index_named,
    Collection, IndexKey,
};
use crate::text::{concat3, utf8};
use crate::wire::{
    all_contents, bytes_as_ref, payload_contents, pipe, pipe_atomic, pipe_del, pipe_hset,
    pipe_rpush, pipe_rpush_exists, pipe_sadd, pipe_set, pipe_srem, pipeline_atomic,
    pipeline_commands,
};

verus! {

/// How Redis keeps what stands under a key.
#[derive(Clone, Copy, Debug, PartialEq, Eq, Structural)]
pub enum Storage {
    /// A single value.
    Single,
    /// A list of values.
    List,
    /// A set of members.
    Members,
    /// A hash of fields.
    Fields,
}

/// How an index is kept.
pub open spec fn index_storage(index: IndexKey) -> Storage {
    match index {
        IndexKey::OrderPosition | IndexKey::OrderClient => Storage::Fields,
        _ => Storage::Members,
    }
}

/// How a collection is kept; what stands under a key of the `index` collection depends on the
/// index.
pub open spec fn collection_storage(collection: Collection) -> Option<Storage> {
    match collection {
        Collection::Index => None,
        Collection::Accounts | Collection::Orders | Collection::Positions
        | Collection::Snapshots => Some(Storage::List),
        _ => Some(Storage::Single),
    }
}

/// The collections that take updates.
pub open spec fn updatable(collection: Collection) -> bool {
    match collection {
        Collection::Accounts | Collection::Orders | Collection::Positions => true,
        _ => false,
    }
}

/// The collections of which a key can be deleted as a whole.
pub open spec fn deletable(collection: Collection) -> bool {
    match collection {
        Collection::Actors | Collection::Strategies => true,
        _ => false,
    }
}

/// The indexes that a member can be removed from.
pub open spec fn removable(index: IndexKey) -> bool {
    match index {
        IndexKey::OrdersOpen | IndexKey::OrdersClosed | IndexKey::OrdersEmulated
        | IndexKey::OrdersInflight | IndexKey::PositionsOpen | IndexKey::PositionsClosed => true,
        _ => false,
    }
}

/// The key under which Redis holds a key of a trader.
pub open spec fn redis_key(trader_key: Seq<char>, key: Seq<char>) -> Seq<char> {
    trader_key + ":"@ + key
}

/// The command that adds `value` to what is kept as `storage` under `key`.
pub open spec fn add_command(storage: Storage, key: Seq<char>, value: Seq<Seq<u8>>) -> Seq<
    Seq<u8>,
> {
    match storage {
        Storage::Single => seq![utf8("SET"@), utf8(key), value[0]],
        Storage::List => seq![utf8("RPUSH"@), utf8(key), value[0]],
        Storage::Members => seq![utf8("SADD"@), utf8(key), value[0]],
        Storage::Fields => seq![utf8("HSET"@), utf8(key), value[0], value[1]],
    }
}

/// The command that inserts into the index under `key`, or why there is none.
pub open spec fn insert_index_command(key: Seq<char>, value: Seq<Seq<u8>>) -> Result<
    Seq<Seq<u8>>,
    CacheErrorView,
> {
    match index_key_of(key) {
        None => Err(CacheErrorView::MissingDelimiter { key }),
        Some(index_key) => match index_named(index_key) {
            None => Err(CacheErrorView::UnknownIndexOnInsert { index_key }),
            Some(index) => Ok(add_command(index_storage(index), key, value)),
        },
    }
}

/// The command that inserts into a collection under `key`, or why there is none.
pub open spec fn insert_command(
    collection: Seq<char>,
    key: Seq<char>,
    value: Seq<Seq<u8>>,
) -> Result<Seq<Seq<u8>>, CacheErrorView> {
    if value.len() == 0 {
        Err(CacheErrorView::EmptyValue)
    } else {
        match collection_named(collection) {
            None => Err(CacheErrorView::UnsupportedInsert { collection }),
            Some(c) => match collection_storage(c) {
                None => insert_index_command(key, value),
                Some(storage) => Ok(add_command(storage, key, value)),
            },
        }
    }
}

/// The command that updates a collection under `key`, or why there is none.
pub open spec fn update_command(
    collection: Seq<char>,
    key: Seq<char>,
    value: Seq<Seq<u8>>,
) -> Result<Seq<Seq<u8>>, CacheErrorView> {
    if value.len() == 0 {
        Err(CacheErrorView::EmptyValue)
    } else {
        match collection_named(collection) {
            Some(c) if updatable(c) => Ok(seq![utf8("RPUSHX"@), utf8(key), value[0]]),
            _ => Err(CacheErrorView::UnsupportedUpdate { collection }),
        }
    }
}

/// The command that removes from the index under `key`, or why there is none.
pub open spec fn remove_index_command(key: Seq<char>, value: Option<Seq<Seq<u8>>>) -> Result<
    Seq<Seq<u8>>,
    CacheErrorView,
> {
    match (value, index_key_of(key)) {
        (None, _) => Err(CacheErrorView::MissingPayload { key }),
        (Some(_), None) => Err(CacheErrorView::MissingDelimiter { key }),
        (Some(value), Some(index_key)) => match index_named(index_key) {
            Some(index) if removable(index) => Ok(seq![utf8("SREM"@), utf8(key), value[0]]),
            _ => Err(CacheErrorView::UnsupportedIndexRemove { index_key }),
        },
    }
}

/// The command that deletes from a collection under `key`, or why there is none.
pub open spec fn delete_command(
    collection: Seq<char>,
    key: Seq<char>,
    value: Option<Seq<Seq<u8>>>,
) -> Result<Seq<Seq<u8>>, CacheErrorView> {
    match collection_named(collection) {
        Some(Collection::Index) => remove_index_command(key, value),
        Some(c) if deletable(c) => Ok(seq![utf8("DEL"@), utf8(key)]),
        _ => Err(CacheErrorView::UnsupportedDelete { collection }),
    }
}

/// Whether `len` items are enough for an insert into the index under `key`, or the insert is
/// refused before they are read: a hash takes a field and a value, a set takes a member.
pub open spec fn insert_index_fits(key: Seq<char>, len: nat) -> bool {
    match index_key_of(key) {
        Some(index_key) => match index_named(index_key) {
            Some(index) => match index_storage(index) {
                Storage::Fields => len >= 2,
                _ => len >= 1,
            },
            None => true,
        },
        None => true,
    }
}

/// Whether `len` items are enough for an insert, or the insert is refused before they are read.
pub open spec fn insert_fits(collection: Seq<char>, key: Seq<char>, len: nat) -> bool {
    len >= 1 && collection_named(collection) == Some(Collection::Index) ==> insert_index_fits(
        key,
        len,
    )
}

/// Whether the index under `key` is one that a member can be removed from.
pub open spec fn removes_member(key: Seq<char>) -> bool {
    match index_key_of(key) {
        Some(index_key) => match index_named(index_key) {
            Some(index) => removable(index),
            None => false,
        },
        None => false,
    }
}

/// Whether a payload has an item for a removal, or the removal is refused before it is read.
pub open spec fn remove_index_fits(key: Seq<char>, value: Option<Seq<Seq<u8>>>) -> bool {
    match value {
        Some(items) => removes_member(key) ==> items.len() >= 1,
        None => true,
    }
}

/// Whether a payload has an item for a delete, or the delete is done or refused without it.
pub open spec fn delete_fits(
    collection: Seq<char>,
    key: Seq<char>,
    value: Option<Seq<Seq<u8>>>,
) -> bool {
    collection_named(collection) == Some(Collection::Index) ==> remove_index_fits(key, value)
}

/// What a pipeline that took one command, or took none and gave an error, has become.
pub open spec fn takes(
    before: Pipeline,
    after: Pipeline,
    result: Result<(), CacheError>,
    command: Result<Seq<Seq<u8>>, CacheErrorView>,
) -> bool {
    &&& pipeline_atomic(after) == pipeline_atomic(before)
    &&& match (result, command) {
        (Ok(()), Ok(args)) => pipeline_commands(after) == pipeline_commands(before).push(args),
        (Err(e), Err(view)) => e@ == view && pipeline_commands(after) == pipeline_commands(before),
        _ => false,
    }
}

/// Adds to a pipeline the command that inserts `value` into a collection under `key`.
pub fn insert(pipe: &mut Pipeline, collection: &str, key: &str, value: &Vec<Bytes>) -> (r: Result<
    (),
    CacheError,
>)
    requires
        insert_fits(collection@, key@, value@.len()),
    ensures
        takes(
            *old(pipe),
            *final(pipe),
            r,
            insert_command(collection@, key@, all_contents(value@)),
        ),
        pipeline_atomic(*final(pipe)) == pipeline_atomic(*old(pipe)),
        match insert_command(collection@, key@, all_contents(value@)) {
            Ok(args) => r is Ok && pipeline_commands(*final(pipe)) == pipeline_commands(
                *old(pipe),
            ).push(args),
            Err(view) => {
                &&& r matches Err(e) && e@ == view
                &&& pipeline_commands(*final(pipe)) == pipeline_commands(*old(pipe))
            },
        },
{
    if value.len() == 0 {
        return Err(CacheError::EmptyValue);
    }
    match Collection::parse(collection) {
        Some(Collection::Index) => insert_index(pipe, key, value),
        Some(Collection::Accounts)
        | Some(Collection::Orders)
        | Some(Collection::Positions)
        | Some(Collection::Snapshots) => {
            pipe_rpush(pipe, key, bytes_as_ref(&value[0]));
            Ok(())
        },
        Some(_) => {
            pipe_set(pipe, key, bytes_as_ref(&value[0]));
            Ok(())
        },
        None => Err(CacheError::UnsupportedInsert { collection: collection.to_owned() }),
    }
}

/// Adds to a pipeline the command that inserts `value` into the index under `key`.
pub fn insert_index(pipe: &mut Pipeline, key: &str, value: &Vec<Bytes>) -> (r: Result<
    (),
    CacheError,
>)
    requires
        insert_index_fits(key@, value@.len()),
    ensures
        takes(*old(pipe), *final(pipe), r, insert_index_command(key@, all_contents(value@))),
        pipeline_atomic(*final(pipe)) == pipeline_atomic(*old(pipe)),
        match insert_index_command(key@, all_contents(value@)) {
            Ok(args) => r is Ok && pipeline_commands(*final(pipe)) == pipeline_commands(
                *old(pipe),
            ).push(args),
            Err(view) => {
                &&& r matches Err(e) && e@ == view
                &&& pipeline_commands(*final(pipe)) == pipeline_commands(*old(pipe))
            },
        },
{
    let index_key = match get_index_key(key) {
        Ok(index_key) => index_key,
        Err(e) => {
            return Err(e);
        },
    };
    match IndexKey::parse(index_key) {
        Some(IndexKey::OrderPosition) | Some(IndexKey::OrderClient) => {
            pipe_hset(pipe, key, bytes_as_ref(&value[0]), bytes_as_ref(&value[1]));
            Ok(())
        },
        Some(_) => {
            pipe_sadd(pipe, key, bytes_as_ref(&value[0]));
            Ok(())
        },
        None => Err(CacheError::UnknownIndexOnInsert { index_key: index_key.to_owned() }),
    }
}

/// Adds to a pipeline the command that updates a collection under `key`.
pub fn update(pipe: &mut Pipeline, collection: &str, key: &str, value: &Vec<Bytes>) -> (r: Result<
    (),
    CacheError,
>)
    ensures
        takes(
            *old(pipe),
            *final(pipe),
            r,
            update_command(collection@, key@, all_contents(value@)),
        ),
        pipeline_atomic(*final(pipe)) == pipeline_atomic(*old(pipe)),
        match update_command(collection@, key@, all_contents(value@)) {
            Ok(args) => r is Ok && pipeline_commands(*final(pipe)) == pipeline_commands(
                *old(pipe),
            ).push(args),
            Err(view) => {
                &&& r matches Err(e) && e@ == view
                &&& pipeline_commands(*final(pipe)) == pipeline_commands(*old(pipe))
            },
        },
{
    if value.len() == 0 {
        return Err(CacheError::EmptyValue);
    }
    match Collection::parse(collection) {
        Some(Collection::Accounts) | Some(Collection::Orders) | Some(Collection::Positions) => {
            pipe_rpush_exists(pipe, key, bytes_as_ref(&value[0]));
            Ok(())
        },
        _ => Err(CacheError::UnsupportedUpdate { collection: collection.to_owned() }),
    }
}

/// Adds to a pipeline the command that deletes from a collection under `key`.
pub fn delete(
    pipe: &mut Pipeline,
    collection: &str,
    key: &str,
    value: &Option<Vec<Bytes>>,
) -> (r: Result<(), CacheError>)
    requires
        delete_fits(collection@, key@, payload_contents(*value)),
    ensures
        takes(
            *old(pipe),
            *final(pipe),
            r,
            delete_command(collection@, key@, payload_contents(*value)),
        ),
        pipeline_atomic(*final(pipe)) == pipeline_atomic(*old(pipe)),
        match delete_command(collection@, key@, payload_contents(*value)) {
            Ok(args) => r is Ok && pipeline_commands(*final(pipe)) == pipeline_commands(
                *old(pipe),
            ).push(args),
            Err(view) => {
                &&& r matches Err(e) && e@ == view
                &&& pipeline_commands(*final(pipe)) == pipeline_commands(*old(pipe))
            },
        },
{
    match Collection::parse(collection) {
        Some(Collection::Index) => remove_index(pipe, key, value),
        Some(Collection::Actors) | Some(Collection::Strategies) => {
            pipe_del(pipe, key);
            Ok(())
        },
        _ => Err(CacheError::UnsupportedDelete { collection: collection.to_owned() }),
    }
}

/// Adds to a pipeline the command that removes a member from the index under `key`.
pub fn remove_index(pipe: &mut Pipeline, key: &str, value: &Option<Vec<Bytes>>) -> (r: Result<
    (),
    CacheError,
>)
    requires
        remove_index_fits(key@, payload_contents(*value)),
    ensures
        takes(
            *old(pipe),
            *final(pipe),
            r,
            remove_index_command(key@, payload_contents(*value)),
        ),
        pipeline_atomic(*final(pipe)) == pipeline_atomic(*old(pipe)),
        match remove_index_command(key@, payload_contents(*value)) {
            Ok(args) => r is Ok && pipeline_commands(*final(pipe)) == pipeline_commands(
                *old(pipe),
            ).push(args),
            Err(view) => {
                &&& r matches Err(e) && e@ == view
                &&& pipeline_commands(*final(pipe)) == pipeline_commands(*old(pipe))
            },
        },
{
    let value = match value {
        Some(value) => value,
        None => {
            return Err(CacheError::MissingPayload { key: key.to_owned() });
        },
    };
    let index_key = match get_index_key(key) {
        Ok(index_key) => index_key,
        Err(e) => {
            return Err(e);
        },
    };
    match IndexKey::parse(index_key) {
        Some(IndexKey::OrdersOpen)
        | Some(IndexKey::OrdersClosed)
        | Some(IndexKey::OrdersEmulated)
        | Some(IndexKey::OrdersInflight)
        | Some(IndexKey::PositionsOpen)
        | Some(IndexKey::PositionsClosed) => {
            pipe_srem(pipe, key, bytes_as_ref(&value[0]));
            Ok(())
        },
        _ => Err(CacheError::UnsupportedIndexRemove { index_key: index_key.to_owned() }),
    }
}

/// The commands that carry out a command of a trader, or why there are none: one, or none where
/// an insert or an update has no payload or the command only closes the database.
pub open spec fn drained(trader_key: Seq<char>, cmd: CommandView) -> Result<
    Seq<Seq<Seq<u8>>>,
    CacheErrorView,
> {
    let key = cmd.key->0;
    match collection_of(key) {
        None => Err(CacheErrorView::MissingDelimiter { key }),
        Some(collection) => {
            let target = redis_key(trader_key, key);
            match (cmd.op_type, cmd.payload) {
                (DatabaseOperation::Insert, Some(value)) => alone(
                    insert_command(collection, target, value),
                ),
                (DatabaseOperation::Update, Some(value)) => alone(
                    update_command(collection, target, value),
                ),
                (DatabaseOperation::Delete, value) => alone(
                    delete_command(collection, target, value),
                ),
                _ => Ok(Seq::empty()),
            }
        },
    }
}

/// The pipeline of one command.
pub open spec fn alone(command: Result<Seq<Seq<u8>>, CacheErrorView>) -> Result<
    Seq<Seq<Seq<u8>>>,
    CacheErrorView,
> {
    match command {
        Ok(args) => Ok(seq![args]),
        Err(e) => Err(e),
    }
}

/// Whether a command has the key and the payload items that carrying it out reads.
pub open spec fn drainable(trader_key: Seq<char>, cmd: CommandView) -> bool {
    match cmd.key {
        None => false,
        Some(key) => match collection_of(key) {
            None => true,
            Some(collection) => {
                let target = redis_key(trader_key, key);
                match (cmd.op_type, cmd.payload) {
                    (DatabaseOperation::Insert, Some(value)) => insert_fits(
                        collection,
                        target,
                        value.len(),
                    ),
                    (DatabaseOperation::Delete, value) => delete_fits(collection, target, value),
                    _ => true,
                }
            },
        },
    }
}

/// The text of the error where Redis did not carry out a pipeline; `cause` is the text of the error
/// that sending it gave.
pub fn query_failure(cause: &str) -> (r: String)
    ensures
        r@ == "Redis pipeline query failed: "@ + cause@,
{
    let mut text = "Redis pipeline query failed: ".to_owned();
    text.append(cause);
    text
}

/// The transaction that carries out a command of a trader.
pub fn drain_single_message(trader_key: &str, msg: &DatabaseCommand) -> (r: Result<
    Pipeline,
    CacheError,
>)
    requires
        drainable(trader_key@, msg@),
    ensures
        match r {
            Ok(pipe) => {
                &&& pipeline_atomic(pipe)
                &&& drained(trader_key@, msg@) == Ok::<_, CacheErrorView>(pipeline_commands(pipe))
            },
            Err(e) => drained(trader_key@, msg@) == Err::<Seq<Seq<Seq<u8>>>, _>(e@),
        },
{
    let mut queue = pipe();
    pipe_atomic(&mut queue);
    let key = match &msg.key {
        Some(key) => key.as_str(),
        None => {
            assert(false);
            ""
        },
    };
    let collection = match get_collection_key(key) {
        Ok(collection) => collection,
        Err(e) => {
            return Err(e);
        },
    };
    let target = concat3(trader_key, ":", key);
    let outcome = match msg.op_type {
        DatabaseOperation::Insert => match &msg.payload {
            Some(payload) => insert(&mut queue, collection, target.as_str(), payload),
            None => Ok(()),
        },
        DatabaseOperation::Update => match &msg.payload {
            Some(payload) => update(&mut queue, collection, target.as_str(), payload),
            None => Ok(()),
        },
        DatabaseOperation::Delete => delete(
            &mut queue,
            collection,
            target.as_str(),
            &msg.payload,
        ),
        DatabaseOperation::Close => Ok(()),
    };
    match outcome {
        Ok(()) => Ok(queue),
        Err(e) => Err(e),
    }
}

/// Whether a command has the key and the payload items that carrying it out reads.
pub fn is_drainable(trader_key: &str, msg: &DatabaseCommand) -> (r: bool)
    ensures
        r == drainable(trader_key@, msg@),
{
    let key = match &msg.key {
        Some(key) => key.as_str(),
        None => {
            return false;
        },
    };
    let collection = match get_collection_key(key) {
        Ok(collection) => collection,
        Err(_) => {
            return true;
        },
    };
    let target = concat3(trader_key, ":", key);
    let index = match Collection::parse(collection) {
        Some(Collection::Index) => match get_index_key(target.as_str()) {
            Ok(index_key) => IndexKey::parse(index_key),
            Err(_) => None,
        },
        _ => None,
    };
    match (msg.op_type, &msg.payload, index) {
        (
            DatabaseOperation::Insert,
            Some(value),
            Some(IndexKey::OrderPosition) | Some(IndexKey::OrderClient),
        ) => value.len() != 1,
        (
            DatabaseOperation::Delete,
            Some(value),
            Some(IndexKey::OrdersOpen)
            | Some(IndexKey::OrdersClosed)
            | Some(IndexKey::OrdersEmulated)
            | Some(IndexKey::OrdersInflight)
            | Some(IndexKey::PositionsOpen)
            | Some(IndexKey::PositionsClosed),
        ) => value.len() > 0,
        _ => true,
    }
}

} // verus!
