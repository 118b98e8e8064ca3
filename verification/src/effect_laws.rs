//! What the commands of the cache do to Redis, and what its reads then give.
use vstd::prelude::*;

use crate::command::{CommandView, DatabaseOperation};
use crate::database::trader_storage;
use crate::error::CacheErrorView;
use crate::key_laws::law_key_is_cut_at_the_colon;
use crate::keys::{
    collection_named, collection_of, index_key_of, index_named, law_collection_names,
    law_index_names, Collection, IndexKey,
};
use crate::pipeline::{
    delete_command, delete_fits, drainable, drained, insert_command, insert_fits,
    insert_index_command, insert_index_fits, remove_index_command, remove_index_fits,
    update_command, Storage,
};
use crate::read::{read_args, read_index_storage, read_storage};
use crate::redis_model::{
    execute, execute_all, fields_at, items_at, lemma_command_names, lemma_execute_one, members_at,
    reply, Kept,
};
use crate::text::{has_delimiter, utf8};

verus! {

/// Whether `name` is one of the collections of single values that can be read.
pub open spec fn names_readable_values(name: Seq<char>) -> bool {
    name == "general"@ || name == "currencies"@ || name == "instruments"@ || name
        == "synthetics"@ || name == "actors"@ || name == "strategies"@
}

/// Whether `name` is one of the collections of lists that can be read.
pub open spec fn names_readable_lists(name: Seq<char>) -> bool {
    name == "accounts"@ || name == "orders"@ || name == "positions"@
}

/// Whether `name` is one of the indexes that are sets.
pub open spec fn names_member_index(name: Seq<char>) -> bool {
    name == "index:order_ids"@ || name == "index:orders"@ || names_removable_index(name) || name
        == "index:positions"@
}

/// Whether `name` is one of the indexes that members are removed from.
pub open spec fn names_removable_index(name: Seq<char>) -> bool {
    name == "index:orders_open"@ || name == "index:orders_closed"@ || name
        == "index:orders_emulated"@ || name == "index:orders_inflight"@ || name
        == "index:positions_open"@ || name == "index:positions_closed"@
}

/// Whether `name` is one of the indexes that are hashes.
pub open spec fn names_field_index(name: Seq<char>) -> bool {
    name == "index:order_position"@ || name == "index:order_client"@
}

/// Whether `name` is one of the collections.
pub open spec fn names_collection(name: Seq<char>) -> bool {
    names_readable_values(name) || names_readable_lists(name) || name == "health"@ || name
        == "snapshots"@ || name == "index"@
}

/// The collections by their names.
pub proof fn law_collections_by_name(name: Seq<char>)
    ensures
        name == "index"@ <==> collection_named(name) == Some(Collection::Index),
        name == "general"@ <==> collection_named(name) == Some(Collection::General),
        name == "currencies"@ <==> collection_named(name) == Some(Collection::Currencies),
        name == "instruments"@ <==> collection_named(name) == Some(Collection::Instruments),
        name == "synthetics"@ <==> collection_named(name) == Some(Collection::Synthetics),
        name == "accounts"@ <==> collection_named(name) == Some(Collection::Accounts),
        name == "orders"@ <==> collection_named(name) == Some(Collection::Orders),
        name == "positions"@ <==> collection_named(name) == Some(Collection::Positions),
        name == "actors"@ <==> collection_named(name) == Some(Collection::Actors),
        name == "strategies"@ <==> collection_named(name) == Some(Collection::Strategies),
        name == "snapshots"@ <==> collection_named(name) == Some(Collection::Snapshots),
        name == "health"@ <==> collection_named(name) == Some(Collection::Health),
{
    law_collection_names(Collection::Index, name);
    law_collection_names(Collection::General, name);
    law_collection_names(Collection::Currencies, name);
    law_collection_names(Collection::Instruments, name);
    law_collection_names(Collection::Synthetics, name);
    law_collection_names(Collection::Accounts, name);
    law_collection_names(Collection::Orders, name);
    law_collection_names(Collection::Positions, name);
    law_collection_names(Collection::Actors, name);
    law_collection_names(Collection::Strategies, name);
    law_collection_names(Collection::Snapshots, name);
    law_collection_names(Collection::Health, name);
}

/// The indexes by their names.
pub proof fn law_indexes_by_name(name: Seq<char>)
    ensures
        name == "index:order_ids"@ <==> index_named(name) == Some(IndexKey::OrderIds),
        name == "index:order_position"@ <==> index_named(name) == Some(IndexKey::OrderPosition),
        name == "index:order_client"@ <==> index_named(name) == Some(IndexKey::OrderClient),
        name == "index:orders"@ <==> index_named(name) == Some(IndexKey::Orders),
        name == "index:orders_open"@ <==> index_named(name) == Some(IndexKey::OrdersOpen),
        name == "index:orders_closed"@ <==> index_named(name) == Some(IndexKey::OrdersClosed),
        name == "index:orders_emulated"@ <==> index_named(name) == Some(IndexKey::OrdersEmulated),
        name == "index:orders_inflight"@ <==> index_named(name) == Some(IndexKey::OrdersInflight),
        name == "index:positions"@ <==> index_named(name) == Some(IndexKey::Positions),
        name == "index:positions_open"@ <==> index_named(name) == Some(IndexKey::PositionsOpen),
        name == "index:positions_closed"@ <==> index_named(name) == Some(
            IndexKey::PositionsClosed,
        ),
{
    law_index_names(IndexKey::OrderIds, name);
    law_index_names(IndexKey::OrderPosition, name);
    law_index_names(IndexKey::OrderClient, name);
    law_index_names(IndexKey::Orders, name);
    law_index_names(IndexKey::OrdersOpen, name);
    law_index_names(IndexKey::OrdersClosed, name);
    law_index_names(IndexKey::OrdersEmulated, name);
    law_index_names(IndexKey::OrdersInflight, name);
    law_index_names(IndexKey::Positions, name);
    law_index_names(IndexKey::PositionsOpen, name);
    law_index_names(IndexKey::PositionsClosed, name);
}

/// An insert into a collection of single values makes the first item of the payload the value under
/// the key, whatever stood there, and touches no other key.
pub proof fn law_insert_sets_the_value(
    db: Map<Seq<u8>, Kept>,
    name: Seq<char>,
    key: Seq<char>,
    value: Seq<Seq<u8>>,
)
    requires
        name == "general"@ || name == "currencies"@ || name == "instruments"@ || name
            == "synthetics"@ || name == "actors"@ || name == "strategies"@ || name == "health"@,
        value.len() > 0,
    ensures
        insert_command(name, key, value) matches Ok(args) && args == seq![
            utf8("SET"@),
            utf8(key),
            value[0],
        ] && execute(db, args) == Some(db.insert(utf8(key), Kept::Value(value[0]))),
{
    law_collections_by_name(name);
    lemma_command_names();
}

/// An insert into a collection of lists pushes the first item of the payload to the end of the list
/// under the key, which is made where there is none, and touches no other key.
pub proof fn law_insert_pushes_to_the_list(
    db: Map<Seq<u8>, Kept>,
    name: Seq<char>,
    key: Seq<char>,
    value: Seq<Seq<u8>>,
)
    requires
        name == "accounts"@ || name == "orders"@ || name == "positions"@ || name == "snapshots"@,
        value.len() > 0,
    ensures
        insert_command(name, key, value) matches Ok(args) && args == seq![
            utf8("RPUSH"@),
            utf8(key),
            value[0],
        ] && (items_at(db, utf8(key)) matches Some(items) ==> execute(db, args) == Some(
            db.insert(utf8(key), Kept::Items(items.push(value[0]))),
        )),
{
    law_collections_by_name(name);
    lemma_command_names();
}

/// An insert into an index that is a set adds the first item of the payload to the set, and touches
/// no other key.
pub proof fn law_insert_adds_the_member(
    db: Map<Seq<u8>, Kept>,
    trader_key: Seq<char>,
    index: Seq<char>,
    value: Seq<Seq<u8>>,
)
    requires
        !trader_key.contains(':'),
        names_member_index(index),
        value.len() > 0,
    ensures
        ({
            let key = trader_key + ":"@ + index;
            &&& insert_command("index"@, key, value) == insert_index_command(key, value)
            &&& insert_index_command(key, value) matches Ok(args) && args == seq![
                utf8("SADD"@),
                utf8(key),
                value[0],
            ] && (members_at(db, utf8(key)) matches Some(members) ==> execute(db, args) == Some(
                db.insert(utf8(key), Kept::Members(members.insert(value[0]))),
            ))
        }),
{
    law_key_is_cut_at_the_colon(trader_key, index);
    law_collections_by_name("index"@);
    law_indexes_by_name(index);
    lemma_command_names();
}

/// An insert into an index that is a hash sets the field that the first item of the payload names
/// to the second item, and touches no other field and no other key.
pub proof fn law_insert_sets_the_field(
    db: Map<Seq<u8>, Kept>,
    trader_key: Seq<char>,
    index: Seq<char>,
    value: Seq<Seq<u8>>,
)
    requires
        !trader_key.contains(':'),
        names_field_index(index),
        value.len() > 1,
    ensures
        ({
            let key = trader_key + ":"@ + index;
            &&& insert_command("index"@, key, value) == insert_index_command(key, value)
            &&& insert_index_command(key, value) matches Ok(args) && args == seq![
                utf8("HSET"@),
                utf8(key),
                value[0],
                value[1],
            ] && (fields_at(db, utf8(key)) matches Some(fields) ==> execute(db, args) == Some(
                db.insert(utf8(key), Kept::Fields(fields.insert(value[0], value[1]))),
            ))
        }),
{
    law_key_is_cut_at_the_colon(trader_key, index);
    law_collections_by_name("index"@);
    law_indexes_by_name(index);
}

/// An insert is refused exactly where the payload is empty, the collection is none of the twelve,
/// or a key of the `index` collection holds no delimiter or names none of the eleven indexes; the
/// error says which, and the first that holds counts.
pub proof fn law_insert_is_refused(name: Seq<char>, key: Seq<char>, value: Seq<Seq<u8>>)
    ensures
        value.len() == 0 ==> insert_command(name, key, value) == Err::<Seq<Seq<u8>>, _>(
            CacheErrorView::EmptyValue,
        ),
        value.len() > 0 && !names_collection(name) ==> insert_command(name, key, value) == Err::<
            Seq<Seq<u8>>,
            _,
        >(CacheErrorView::UnsupportedInsert { collection: name }),
        value.len() > 0 && names_collection(name) && name != "index"@ ==> insert_command(
            name,
            key,
            value,
        ) is Ok,
        value.len() > 0 && name == "index"@ && !key.contains(':') ==> insert_command(
            name,
            key,
            value,
        ) == Err::<Seq<Seq<u8>>, _>(CacheErrorView::MissingDelimiter { key }),
        forall|front: Seq<char>, index: Seq<char>|
            value.len() > 0 && name == "index"@ && !front.contains(':') && key == #[trigger] (front
                + ":"@ + index) && !names_member_index(index) && !names_field_index(index)
                ==> insert_command(name, key, value) == Err::<Seq<Seq<u8>>, _>(
                CacheErrorView::UnknownIndexOnInsert { index_key: index },
            ),
        !key.contains(':') ==> insert_index_command(key, value) == Err::<Seq<Seq<u8>>, _>(
            CacheErrorView::MissingDelimiter { key },
        ),
{
    law_collections_by_name(name);
    assert(has_delimiter(key) <==> key.contains(':'));
    assert forall|front: Seq<char>, index: Seq<char>|
        value.len() > 0 && name == "index"@ && !front.contains(':') && key == #[trigger] (front
            + ":"@ + index) && !names_member_index(index) && !names_field_index(
            index,
        ) implies insert_command(name, key, value) == Err::<Seq<Seq<u8>>, _>(
        CacheErrorView::UnknownIndexOnInsert { index_key: index },
    ) by {
        law_key_is_cut_at_the_colon(front, index);
        law_indexes_by_name(index);
    }
}

/// An update of a collection of lists that takes updates pushes the first item of the payload to
/// the end of the list under the key where there is one, makes none where there is none, and
/// touches no other key; every other update is refused.
pub proof fn law_update_pushes_to_the_list(
    db: Map<Seq<u8>, Kept>,
    name: Seq<char>,
    key: Seq<char>,
    value: Seq<Seq<u8>>,
)
    ensures
        value.len() == 0 ==> update_command(name, key, value) == Err::<Seq<Seq<u8>>, _>(
            CacheErrorView::EmptyValue,
        ),
        value.len() > 0 && !names_readable_lists(name) ==> update_command(name, key, value)
            == Err::<Seq<Seq<u8>>, _>(CacheErrorView::UnsupportedUpdate { collection: name }),
        value.len() > 0 && names_readable_lists(name) ==> (update_command(
            name,
            key,
            value,
        ) matches Ok(args) && args == seq![utf8("RPUSHX"@), utf8(key), value[0]] && (items_at(
            db,
            utf8(key),
        ) matches Some(items) ==> execute(db, args) == Some(
            if db.contains_key(utf8(key)) {
                db.insert(utf8(key), Kept::Items(items.push(value[0])))
            } else {
                db
            },
        ))),
{
    law_collections_by_name(name);
    lemma_command_names();
}

/// A delete of an actor or a strategy drops the key and no other; a delete from an index is a
/// removal from it; every other delete is refused.
pub proof fn law_delete_drops_the_key(
    db: Map<Seq<u8>, Kept>,
    name: Seq<char>,
    key: Seq<char>,
    value: Option<Seq<Seq<u8>>>,
)
    ensures
        name == "actors"@ || name == "strategies"@ ==> (delete_command(name, key, value) matches Ok(
            args,
        ) && args == seq![utf8("DEL"@), utf8(key)] && execute(db, args) == Some(
            db.remove(utf8(key)),
        )),
        name == "index"@ ==> delete_command(name, key, value) == remove_index_command(key, value),
        name != "actors"@ && name != "strategies"@ && name != "index"@ ==> delete_command(
            name,
            key,
            value,
        ) == Err::<Seq<Seq<u8>>, _>(CacheErrorView::UnsupportedDelete { collection: name }),
{
    law_collections_by_name(name);
}

/// A removal from an index takes the first item of the payload out of the set and leaves every
/// other member and every other key; it is refused without a payload, and from an index that
/// members are not removed from.
pub proof fn law_remove_takes_the_member_out(
    db: Map<Seq<u8>, Kept>,
    trader_key: Seq<char>,
    index: Seq<char>,
    value: Seq<Seq<u8>>,
)
    requires
        !trader_key.contains(':'),
    ensures
        ({
            let key = trader_key + ":"@ + index;
            &&& remove_index_command(key, None) == Err::<Seq<Seq<u8>>, _>(
                CacheErrorView::MissingPayload { key },
            )
            &&& !names_removable_index(index) ==> remove_index_command(key, Some(value)) == Err::<
                Seq<Seq<u8>>,
                _,
            >(CacheErrorView::UnsupportedIndexRemove { index_key: index })
            &&& names_removable_index(index) ==> (remove_index_command(
                key,
                Some(value),
            ) matches Ok(args) && args == seq![utf8("SREM"@), utf8(key), value[0]] && (members_at(
                db,
                utf8(key),
            ) matches Some(members) ==> (execute(db, args) matches Some(after) && members_at(
                after,
                utf8(key),
            ) == Some(members.remove(value[0])) && after.remove(utf8(key)) == db.remove(
                utf8(key),
            ))))
        }),
{
    law_key_is_cut_at_the_colon(trader_key, index);
    law_indexes_by_name(index);
    lemma_command_names();
    let key = utf8(trader_key + ":"@ + index);
    assert(db.remove(key).remove(key) =~= db.remove(key));
    assert(forall|kept: Kept| #[trigger] db.insert(key, kept).remove(key) =~= db.remove(key));
    if let Some(members) = members_at(db, key) {
        if members.remove(value[0]) == Set::<Seq<u8>>::empty() {
            assert(members_at(db.remove(key), key) == Some(Set::<Seq<u8>>::empty()));
        }
    }
}

/// A removal from a key without a delimiter is refused.
pub proof fn law_remove_needs_a_delimiter(key: Seq<char>, value: Option<Seq<Seq<u8>>>)
    requires
        !key.contains(':'),
    ensures
        remove_index_command(key, value) == Err::<Seq<Seq<u8>>, _>(
            match value {
                Some(_) => CacheErrorView::MissingDelimiter { key },
                None => CacheErrorView::MissingPayload { key },
            },
        ),
{
    assert(!has_delimiter(key));
}

/// A command of a trader is carried out on the collection that its key names and under the key with
/// the trader key in front: an insert and an update as one command of that kind, or as none where
/// there is no payload, a delete always, and the closing command not at all. A key without a
/// delimiter is refused.
pub proof fn law_command_is_carried_out(
    trader_key: Seq<char>,
    name: Seq<char>,
    rest: Seq<char>,
    cmd: CommandView,
)
    requires
        !name.contains(':'),
        cmd.key == Some(name + ":"@ + rest),
    ensures
        ({
            let target = trader_key + ":"@ + (name + ":"@ + rest);
            let command = match (cmd.op_type, cmd.payload) {
                (DatabaseOperation::Insert, Some(value)) => Some(
                    insert_command(name, target, value),
                ),
                (DatabaseOperation::Update, Some(value)) => Some(
                    update_command(name, target, value),
                ),
                (DatabaseOperation::Delete, value) => Some(delete_command(name, target, value)),
                (DatabaseOperation::Insert, None) => None,
                (DatabaseOperation::Update, None) => None,
                (DatabaseOperation::Close, _) => None,
            };
            match command {
                None => drained(trader_key, cmd) == Ok::<_, CacheErrorView>(
                    Seq::<Seq<Seq<u8>>>::empty(),
                ),
                Some(Ok(args)) => drained(trader_key, cmd) == Ok::<_, CacheErrorView>(seq![args]),
                Some(Err(error)) => drained(trader_key, cmd) == Err::<Seq<Seq<Seq<u8>>>, _>(error),
            }
        }),
{
    law_key_is_cut_at_the_colon(name, rest);
}

/// A command on a key without a delimiter is refused, whatever it is.
pub proof fn law_command_needs_a_delimiter(trader_key: Seq<char>, cmd: CommandView)
    requires
        cmd.key matches Some(key) && !key.contains(':'),
    ensures
        drained(trader_key, cmd) == Err::<Seq<Seq<Seq<u8>>>, _>(
            CacheErrorView::MissingDelimiter { key: cmd.key->0 },
        ),
        drainable(trader_key, cmd),
{
    assert(!has_delimiter(cmd.key->0));
}

/// A command can be carried out unless it has no key, or is an insert of a single item into an
/// index that is a hash, or a removal with an empty payload from an index that members are removed
/// from.
pub proof fn law_commands_that_can_be_carried_out(trader_key: Seq<char>, cmd: CommandView)
    ensures
        drainable(trader_key, cmd) <==> (cmd.key matches Some(key) && !({
            &&& collection_of(key) == Some("index"@)
            &&& index_key_of(trader_key + ":"@ + key) matches Some(index) && ({
                ||| cmd.op_type == DatabaseOperation::Insert && names_field_index(index) && (
                cmd.payload matches Some(value) && value.len() == 1)
                ||| cmd.op_type == DatabaseOperation::Delete && names_removable_index(index) && (
                cmd.payload matches Some(value) && value.len() == 0)
            })
        })),
{
    if let Some(key) = cmd.key {
        if let Some(collection) = collection_of(key) {
            law_collections_by_name(collection);
        }
        if let Some(index) = index_key_of(trader_key + ":"@ + key) {
            law_indexes_by_name(index);
        }
    }
}

/// How many items of a payload the single commands read: an insert into an index one, or two where
/// the index is a hash, a removal from an index that members are removed from one, and nothing is
/// asked of a payload where the command is refused before.
pub proof fn law_items_that_are_read(
    name: Seq<char>,
    key: Seq<char>,
    len: nat,
    value: Option<Seq<Seq<u8>>>,
)
    ensures
        ({
            let index = index_key_of(key);
            &&& insert_index_fits(key, len) <==> (index matches Some(i) ==> (names_field_index(i)
                ==> len >= 2) && (names_member_index(i) ==> len >= 1))
            &&& insert_fits(name, key, len) <==> (len >= 1 && name == "index"@ ==> (
            index matches Some(i) ==> (names_field_index(i) ==> len >= 2)))
            &&& remove_index_fits(key, value) <==> (index matches Some(i) ==> (
            value matches Some(items) ==> (names_removable_index(i) ==> items.len() >= 1)))
            &&& delete_fits(name, key, value) <==> (name == "index"@ ==> remove_index_fits(
                key,
                value,
            ))
        }),
{
    law_collections_by_name(name);
    if let Some(index) = index_key_of(key) {
        law_indexes_by_name(index);
    }
}

/// What a read of a collection gives: the value, or all values of the list, that Redis holds under
/// the key; snapshots, health and what is no collection can not be read.
pub proof fn law_read_gives_what_is_kept(db: Map<Seq<u8>, Kept>, name: Seq<char>, key: Seq<char>)
    ensures
        names_readable_values(name) ==> (read_storage(name, key) == Ok::<_, CacheErrorView>(
            Storage::Single,
        ) && reply(db, read_args(Storage::Single, key)) == (if db.contains_key(utf8(key)) {
            match db[utf8(key)] {
                Kept::Value(value) => Some(Kept::Value(value)),
                _ => None,
            }
        } else {
            Some(Kept::Value(Seq::empty()))
        })),
        names_readable_lists(name) ==> (read_storage(name, key) == Ok::<_, CacheErrorView>(
            Storage::List,
        ) && reply(db, read_args(Storage::List, key)) == (match items_at(db, utf8(key)) {
            Some(items) => Some(Kept::Items(items)),
            None => None,
        })),
        name == "index"@ ==> read_storage(name, key) == read_index_storage(key),
        !names_readable_values(name) && !names_readable_lists(name) && name != "index"@
            ==> read_storage(name, key) == Err::<Storage, _>(
            CacheErrorView::UnsupportedRead { collection: name },
        ),
{
    law_collections_by_name(name);
    lemma_command_names();
}

/// What a read of an index gives: all members of the set, or all fields of the hash, that Redis
/// holds under the key; what is no index can not be read.
pub proof fn law_read_gives_the_index(
    db: Map<Seq<u8>, Kept>,
    trader_key: Seq<char>,
    index: Seq<char>,
)
    requires
        !trader_key.contains(':'),
    ensures
        ({
            let key = trader_key + ":"@ + index;
            &&& names_member_index(index) ==> (read_index_storage(key) == Ok::<_, CacheErrorView>(
                Storage::Members,
            ) && reply(db, read_args(Storage::Members, key)) == (match members_at(db, utf8(key)) {
                Some(members) => Some(Kept::Members(members)),
                None => None,
            }))
            &&& names_field_index(index) ==> (read_index_storage(key) == Ok::<_, CacheErrorView>(
                Storage::Fields,
            ) && reply(db, read_args(Storage::Fields, key)) == (match fields_at(db, utf8(key)) {
                Some(fields) => Some(Kept::Fields(fields)),
                None => None,
            }))
            &&& !names_member_index(index) && !names_field_index(index) ==> read_index_storage(key)
                == Err::<Storage, _>(CacheErrorView::UnknownIndexOnRead { index_key: index })
        }),
{
    law_key_is_cut_at_the_colon(trader_key, index);
    law_indexes_by_name(index);
    lemma_command_names();
}

/// A read of an index under a key without a delimiter is refused.
pub proof fn law_read_of_an_index_needs_a_delimiter(key: Seq<char>)
    requires
        !key.contains(':'),
    ensures
        read_index_storage(key) == Err::<Storage, _>(CacheErrorView::MissingDelimiter { key }),
{
    assert(!has_delimiter(key));
}

/// A read of a key of a trader reads the collection that the key names, under the key with the
/// trader key in front; a key without a delimiter is refused.
pub proof fn law_read_is_under_the_trader_key(
    trader_key: Seq<char>,
    name: Seq<char>,
    rest: Seq<char>,
    bare: Seq<char>,
)
    requires
        !name.contains(':'),
        !bare.contains(':'),
    ensures
        trader_storage(trader_key, name + ":"@ + rest) == read_storage(
            name,
            trader_key + ":"@ + (name + ":"@ + rest),
        ),
        trader_storage(trader_key, bare) == Err::<Storage, _>(
            CacheErrorView::MissingDelimiter { key: bare },
        ),
{
    law_key_is_cut_at_the_colon(name, rest);
    assert(!has_delimiter(bare));
}

/// What was inserted into a collection of single values is what a read of the key then gives.
pub proof fn law_inserted_value_is_read(
    db: Map<Seq<u8>, Kept>,
    trader_key: Seq<char>,
    name: Seq<char>,
    rest: Seq<char>,
    cmd: CommandView,
    value: Seq<Seq<u8>>,
)
    requires
        names_readable_values(name),
        cmd.op_type == DatabaseOperation::Insert,
        cmd.key == Some(name + ":"@ + rest),
        cmd.payload == Some(value),
        value.len() > 0,
    ensures
        drained(trader_key, cmd) matches Ok(commands) && execute_all(db, commands) matches Some(
            after,
        ) && trader_storage(trader_key, cmd.key->0) matches Ok(storage) && reply(
            after,
            read_args(storage, trader_key + ":"@ + cmd.key->0),
        ) == Some(Kept::Value(value[0])),
{
    lemma_collection_names_hold_no_colon(name);
    let target = trader_key + ":"@ + (name + ":"@ + rest);
    law_command_is_carried_out(trader_key, name, rest, cmd);
    law_insert_sets_the_value(db, name, target, value);
    let args = insert_command(name, target, value)->Ok_0;
    lemma_execute_one(db, args);
    law_read_is_under_the_trader_key(trader_key, name, rest, Seq::empty());
    law_read_gives_what_is_kept(db.insert(utf8(target), Kept::Value(value[0])), name, target);
}

/// What was inserted into a collection of lists, or updated there behind an insert, is the last
/// value that a read of the key then gives, behind all that it gave before.
pub proof fn law_inserted_item_is_read(
    db: Map<Seq<u8>, Kept>,
    trader_key: Seq<char>,
    name: Seq<char>,
    rest: Seq<char>,
    cmd: CommandView,
    value: Seq<Seq<u8>>,
)
    requires
        names_readable_lists(name),
        cmd.op_type == DatabaseOperation::Insert || (cmd.op_type == DatabaseOperation::Update
            && db.contains_key(utf8(trader_key + ":"@ + (name + ":"@ + rest)))),
        cmd.key == Some(name + ":"@ + rest),
        cmd.payload == Some(value),
        value.len() > 0,
        items_at(db, utf8(trader_key + ":"@ + (name + ":"@ + rest))) is Some,
    ensures
        drained(trader_key, cmd) matches Ok(commands) && execute_all(db, commands) matches Some(
            after,
        ) && trader_storage(trader_key, cmd.key->0) matches Ok(storage) && reply(
            after,
            read_args(storage, trader_key + ":"@ + cmd.key->0),
        ) == Some(
            Kept::Items(
                items_at(db, utf8(trader_key + ":"@ + (name + ":"@ + rest)))->0.push(value[0]),
            ),
        ),
{
    lemma_collection_names_hold_no_colon(name);
    let target = trader_key + ":"@ + (name + ":"@ + rest);
    let items = items_at(db, utf8(target))->0;
    law_command_is_carried_out(trader_key, name, rest, cmd);
    law_insert_pushes_to_the_list(db, name, target, value);
    law_update_pushes_to_the_list(db, name, target, value);
    lemma_execute_one(db, insert_command(name, target, value)->Ok_0);
    lemma_execute_one(db, update_command(name, target, value)->Ok_0);
    law_read_is_under_the_trader_key(trader_key, name, rest, Seq::empty());
    law_read_gives_what_is_kept(
        db.insert(utf8(target), Kept::Items(items.push(value[0]))),
        name,
        target,
    );
}

/// What is inserted into an index that is a set is among the members that a read of the index then
/// gives, with all that it gave before, and what is removed from it is not.
pub proof fn law_index_members_are_read(
    db: Map<Seq<u8>, Kept>,
    trader_key: Seq<char>,
    index: Seq<char>,
    cmd: CommandView,
    value: Seq<Seq<u8>>,
)
    requires
        !trader_key.contains(':'),
        names_member_index(index),
        cmd.op_type == DatabaseOperation::Insert || (cmd.op_type == DatabaseOperation::Delete
            && names_removable_index(index)),
        cmd.key == Some(index),
        cmd.payload == Some(value),
        value.len() > 0,
        members_at(db, utf8(trader_key + ":"@ + index)) is Some,
    ensures
        drained(trader_key, cmd) matches Ok(commands) && execute_all(db, commands) matches Some(
            after,
        ) && trader_storage(trader_key, index) matches Ok(storage) && reply(
            after,
            read_args(storage, trader_key + ":"@ + index),
        ) == Some(
            Kept::Members(
                if cmd.op_type == DatabaseOperation::Insert {
                    members_at(db, utf8(trader_key + ":"@ + index))->0.insert(value[0])
                } else {
                    members_at(db, utf8(trader_key + ":"@ + index))->0.remove(value[0])
                },
            ),
        ),
{
    let rest = lemma_index_names_begin_with_index(index);
    let target = trader_key + ":"@ + index;
    law_command_is_carried_out(trader_key, "index"@, rest, cmd);
    law_insert_adds_the_member(db, trader_key, index, value);
    law_remove_takes_the_member_out(db, trader_key, index, value);
    law_delete_drops_the_key(db, "index"@, target, Some(value));
    let command = if cmd.op_type == DatabaseOperation::Insert {
        insert_command("index"@, target, value)
    } else {
        delete_command("index"@, target, Some(value))
    };
    lemma_execute_one(db, command->Ok_0);
    let after = execute(db, command->Ok_0)->0;
    law_read_is_under_the_trader_key(trader_key, "index"@, rest, Seq::empty());
    law_read_gives_what_is_kept(after, "index"@, target);
    law_read_gives_the_index(after, trader_key, index);
}

/// What is inserted into an index that is a hash is the field that a read of the index then gives,
/// with all other fields that it gave before.
pub proof fn law_index_fields_are_read(
    db: Map<Seq<u8>, Kept>,
    trader_key: Seq<char>,
    index: Seq<char>,
    cmd: CommandView,
    value: Seq<Seq<u8>>,
)
    requires
        !trader_key.contains(':'),
        names_field_index(index),
        cmd.op_type == DatabaseOperation::Insert,
        cmd.key == Some(index),
        cmd.payload == Some(value),
        value.len() > 1,
        fields_at(db, utf8(trader_key + ":"@ + index)) is Some,
    ensures
        drained(trader_key, cmd) matches Ok(commands) && execute_all(db, commands) matches Some(
            after,
        ) && trader_storage(trader_key, index) matches Ok(storage) && reply(
            after,
            read_args(storage, trader_key + ":"@ + index),
        ) == Some(
            Kept::Fields(
                fields_at(db, utf8(trader_key + ":"@ + index))->0.insert(value[0], value[1]),
            ),
        ),
{
    let rest = lemma_index_names_begin_with_index(index);
    let target = trader_key + ":"@ + index;
    law_command_is_carried_out(trader_key, "index"@, rest, cmd);
    law_insert_sets_the_field(db, trader_key, index, value);
    let args = insert_command("index"@, target, value)->Ok_0;
    lemma_execute_one(db, args);
    let after = execute(db, args)->0;
    law_read_is_under_the_trader_key(trader_key, "index"@, rest, Seq::empty());
    law_read_gives_what_is_kept(after, "index"@, target);
    law_read_gives_the_index(after, trader_key, index);
}

/// The names of the collections hold no colon.
proof fn lemma_collection_names_hold_no_colon(name: Seq<char>)
    requires
        names_collection(name),
    ensures
        !name.contains(':'),
{
    reveal_strlit("general");
    reveal_strlit("currencies");
    reveal_strlit("instruments");
    reveal_strlit("synthetics");
    reveal_strlit("actors");
    reveal_strlit("strategies");
    reveal_strlit("accounts");
    reveal_strlit("orders");
    reveal_strlit("positions");
    reveal_strlit("health");
    reveal_strlit("snapshots");
    reveal_strlit("index");
}

/// The names of the indexes are keys of the collection `index`.
proof fn lemma_index_names_begin_with_index(name: Seq<char>) -> (rest: Seq<char>)
    requires
        names_member_index(name) || names_field_index(name),
    ensures
        name == "index"@ + ":"@ + rest,
        !"index"@.contains(':'),
{
    lemma_collection_names_hold_no_colon("index"@);
    reveal_strlit("index");
    reveal_strlit(":");
    reveal_strlit("index:order_ids");
    reveal_strlit("index:order_position");
    reveal_strlit("index:order_client");
    reveal_strlit("index:orders");
    reveal_strlit("index:orders_open");
    reveal_strlit("index:orders_closed");
    reveal_strlit("index:orders_emulated");
    reveal_strlit("index:orders_inflight");
    reveal_strlit("index:positions");
    reveal_strlit("index:positions_open");
    reveal_strlit("index:positions_closed");
    let rest = name.skip(6);
    assert(name =~= "index"@ + ":"@ + rest);
    rest
}

} // verus!
