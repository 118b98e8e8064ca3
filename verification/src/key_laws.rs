//! What the layout of the keys promises.
use vstd::prelude::*;

use crate::command::CommandView;
use crate::config::trader_key_of;
use crate::error::CacheErrorView;
use crate::keys::{
    collection_named, collection_of, index_key_of, index_named, is_collection_of, is_index_key_of,
    lemma_collection_of, lemma_index_key_of, Collection,
};
use crate::pipeline::{
    add_command, drained, insert_command, insert_index_command, redis_key, remove_index_command,
    Storage,
};
use crate::read::{read_index_storage, read_storage};
use crate::text::{first_delimiter_at, has_delimiter, utf8, REDIS_DELIMITER};

verus! {

/// A text that holds a delimiter holds a first one.
proof fn lemma_first_delimiter_exists(s: Seq<char>) -> (i: int)
    requires
        has_delimiter(s),
    ensures
        first_delimiter_at(s, i),
    decreases s.len(),
{
    let j = choose|j: int| 0 <= j < s.len() && s[j] == REDIS_DELIMITER;
    let before = s.take(j);
    if has_delimiter(before) {
        let i = lemma_first_delimiter_exists(before);
        assert(s.take(i) =~= before.take(i));
        i
    } else {
        j
    }
}

/// The delimiter as a text.
proof fn lemma_delimiter_text()
    ensures
        ":"@ == seq![REDIS_DELIMITER],
{
    reveal_strlit(":");
    assert(":"@ =~= seq![REDIS_DELIMITER]);
}

/// A text with a delimiter behind one without: the first delimiter is the one between them.
proof fn lemma_cut(a: Seq<char>, b: Seq<char>)
    requires
        !has_delimiter(a),
    ensures
        is_collection_of(a, a + ":"@ + b),
        is_index_key_of(b, a + ":"@ + b),
{
    lemma_delimiter_text();
    let key = a + ":"@ + b;
    let n = a.len() as int;
    assert(key[n] == REDIS_DELIMITER);
    assert(key.take(n) =~= a);
    assert(key.skip(n + 1) =~= b);
}

/// A key with a delimiter is its collection, a delimiter and its index key, and the collection
/// holds no delimiter.
pub proof fn law_key_is_its_parts(key: Seq<char>)
    requires
        has_delimiter(key),
    ensures
        collection_of(key) matches Some(collection) && index_key_of(key) matches Some(index_key)
            && key == collection + ":"@ + index_key && !has_delimiter(collection),
{
    lemma_delimiter_text();
    let i = lemma_first_delimiter_exists(key);
    let collection = key.take(i);
    let index_key = key.skip(i + 1);
    assert(key =~= collection + ":"@ + index_key);
    lemma_cut(collection, index_key);
    lemma_collection_of(collection, key);
    lemma_index_key_of(index_key, key);
}

/// A key is cut at its first colon: what stands before it is the collection, what stands behind it
/// the index key, and a key without a colon has neither.
pub proof fn law_key_is_cut_at_the_colon(front: Seq<char>, back: Seq<char>)
    requires
        !front.contains(':'),
    ensures
        collection_of(front + ":"@ + back) == Some(front),
        index_key_of(front + ":"@ + back) == Some(back),
        collection_of(front) is None,
        index_key_of(front) is None,
{
    assert(!has_delimiter(front));
    lemma_cut(front, back);
    lemma_collection_of(front, front + ":"@ + back);
    lemma_index_key_of(back, front + ":"@ + back);
}

/// The key of Redis is the trader key, a colon and the key.
pub proof fn law_redis_key_text(trader_key: Seq<char>, key: Seq<char>)
    ensures
        redis_key(trader_key, key) == trader_key + ":"@ + key,
        has_delimiter(key) <==> key.contains(':'),
{
}

/// Where the trader key holds no delimiter, the key of Redis is cut into the trader key and the
/// key.
pub proof fn law_trader_key_is_cut_off(trader_key: Seq<char>, key: Seq<char>)
    requires
        !has_delimiter(trader_key),
    ensures
        collection_of(redis_key(trader_key, key)) == Some(trader_key),
        index_key_of(redis_key(trader_key, key)) == Some(key),
{
    lemma_cut(trader_key, key);
    lemma_collection_of(trader_key, redis_key(trader_key, key));
    lemma_index_key_of(key, redis_key(trader_key, key));
}

/// Where trader keys hold no delimiter, no two traders share a key of Redis, and no two keys of a
/// trader are the same key of Redis.
pub proof fn law_redis_keys_distinct(
    trader_key: Seq<char>,
    key: Seq<char>,
    other_trader_key: Seq<char>,
    other_key: Seq<char>,
)
    requires
        !has_delimiter(trader_key),
        !has_delimiter(other_trader_key),
        redis_key(trader_key, key) == redis_key(other_trader_key, other_key),
    ensures
        trader_key == other_trader_key,
        key == other_key,
{
    law_trader_key_is_cut_off(trader_key, key);
    law_trader_key_is_cut_off(other_trader_key, other_key);
}

/// A trader key holds a delimiter exactly where the trader identifier does or the instance
/// identifier is part of it.
pub proof fn law_trader_key_delimiter(
    trader_id: Seq<char>,
    instance_id: Seq<char>,
    use_trader_prefix: bool,
    use_instance_id: bool,
)
    ensures
        has_delimiter(
            trader_key_of(trader_id, instance_id, use_trader_prefix, use_instance_id),
        ) <==> has_delimiter(trader_id) || use_instance_id,
{
    lemma_delimiter_text();
    reveal_strlit("trader-");
    let key = trader_key_of(trader_id, instance_id, use_trader_prefix, use_instance_id);
    let start = if use_trader_prefix {
        "trader-"@.len() as int
    } else {
        0
    };
    let end = start + trader_id.len();
    assert(forall|i: int| 0 <= i < start ==> key[i] != REDIS_DELIMITER);
    assert(forall|i: int| start <= i < end ==> key[i] == trader_id[i - start]);
    if has_delimiter(trader_id) {
        let i = choose|i: int| 0 <= i < trader_id.len() && trader_id[i] == REDIS_DELIMITER;
        assert(key[start + i] == REDIS_DELIMITER);
    }
    if use_instance_id {
        assert(key[end] == REDIS_DELIMITER);
    }
    if has_delimiter(key) && !use_instance_id {
        let i = choose|i: int| 0 <= i < key.len() && key[i] == REDIS_DELIMITER;
        assert(trader_id[i - start] == REDIS_DELIMITER);
    }
}

/// The name of an index holds one delimiter.
proof fn lemma_index_name_delimiter(name: Seq<char>)
    requires
        index_named(name) is Some,
    ensures
        forall|i: int| 0 <= i < name.len() && name[i] == REDIS_DELIMITER ==> i == 5,
{
    reveal_strlit("index:order_ids");
    reveal_strlit("index:order_position");
    reveal_strlit("index:order_client");
    reveal_strlit("index:orders");
    reveal_strlit("index:orders_open");
    reveal_strlit("index:orders_closed");
    reveal_strlit("index:orders_emulated");
    reveal_strlit("index:orders_inflight");
    reveal_strlit("index:positions");
    reveal_strlit("index:positions_open");
    reveal_strlit("index:positions_closed");
}

/// Where the trader key holds a delimiter, no key with a delimiter names an index, hence none of
/// the `index` collection: every insert into an index, removal from one and read of one is refused.
pub proof fn law_delimiter_in_trader_key_refuses_indexes(
    trader_key: Seq<char>,
    key: Seq<char>,
    value: Seq<Seq<u8>>,
)
    requires
        has_delimiter(trader_key),
        has_delimiter(key),
    ensures
        ({
            let target = redis_key(trader_key, key);
            &&& index_key_of(target) matches Some(index_key) && {
                &&& insert_index_command(target, value) == Err::<Seq<Seq<u8>>, _>(
                    CacheErrorView::UnknownIndexOnInsert { index_key },
                )
                &&& remove_index_command(target, Some(value)) == Err::<Seq<Seq<u8>>, _>(
                    CacheErrorView::UnsupportedIndexRemove { index_key },
                )
                &&& read_index_storage(target) == Err::<Storage, _>(
                    CacheErrorView::UnknownIndexOnRead { index_key },
                )
            }
        }),
{
    lemma_delimiter_text();
    law_key_is_its_parts(trader_key);
    law_key_is_its_parts(key);
    let target = redis_key(trader_key, key);
    let head = collection_of(trader_key)->0;
    let rest = index_key_of(trader_key)->0;
    let index_key = rest + ":"@ + key;
    assert(target =~= head + ":"@ + index_key);
    lemma_cut(head, index_key);
    lemma_index_key_of(index_key, target);
    let i = lemma_first_delimiter_exists(key);
    let first = rest.len() as int;
    let second = first + 1 + i;
    assert(index_key[first] == REDIS_DELIMITER);
    assert(index_key[second] == REDIS_DELIMITER);
    if index_named(index_key) is Some {
        lemma_index_name_delimiter(index_key);
    }
}

/// What can be read can be inserted, and is inserted the way it is read: the insert adds to what
/// the read gives.
pub proof fn law_read_agrees_with_insert(
    collection: Seq<char>,
    key: Seq<char>,
    value: Seq<Seq<u8>>,
)
    requires
        value.len() > 0,
    ensures
        match (read_storage(collection, key), insert_command(collection, key, value)) {
            (Ok(storage), Ok(command)) => command == add_command(storage, key, value),
            (Ok(_), Err(_)) => false,
            (Err(_), Ok(_)) => collection_named(collection) == Some(Collection::Snapshots)
                || collection_named(collection) == Some(Collection::Health),
            (Err(_), Err(_)) => true,
        },
{
}

/// A command of a trader becomes at most one command of Redis, and that one is on the key of the
/// trader.
pub proof fn law_command_stays_with_trader(trader_key: Seq<char>, cmd: CommandView)
    requires
        cmd.key is Some,
    ensures
        drained(trader_key, cmd) matches Ok(commands) ==> {
            &&& commands.len() <= 1
            &&& forall|i: int|
                0 <= i < commands.len() ==> {
                    &&& (#[trigger] commands[i]).len() >= 2
                    &&& commands[i][1] == utf8(redis_key(trader_key, cmd.key->0))
                }
        },
{
}

} // verus!
