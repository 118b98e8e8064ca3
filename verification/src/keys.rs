//! Keys: their parts, the collections and indexes that they name.
use vstd::prelude::*;

use crate::error::{CacheError, CacheErrorView};
use crate::text::{
    find_delimiter, first_delimiter_at, has_delimiter, lemma_first_delimiter_unique, str_eq,
};

verus! {

/// The collections that the first part of a key can name.
#[derive(Clone, Copy, Debug, PartialEq, Eq, Structural)]
pub enum Collection {
    Index,
    General,
    Currencies,
    Instruments,
    Synthetics,
    Accounts,
    Orders,
    Positions,
    Actors,
    Strategies,
    Snapshots,
    Health,
}

/// The indexes that the key of an index can name.
#[derive(Clone, Copy, Debug, PartialEq, Eq, Structural)]
pub enum IndexKey {
    OrderIds,
    OrderPosition,
    OrderClient,
    Orders,
    OrdersOpen,
    OrdersClosed,
    OrdersEmulated,
    OrdersInflight,
    Positions,
    PositionsOpen,
    PositionsClosed,
}

/// The collection that `name` names, if there is one.
pub open spec fn collection_named(name: Seq<char>) -> Option<Collection> {
    if name == "index"@ {
        Some(Collection::Index)
    } else if name == "general"@ {
        Some(Collection::General)
    } else if name == "currencies"@ {
        Some(Collection::Currencies)
    } else if name == "instruments"@ {
        Some(Collection::Instruments)
    } else if name == "synthetics"@ {
        Some(Collection::Synthetics)
    } else if name == "accounts"@ {
        Some(Collection::Accounts)
    } else if name == "orders"@ {
        Some(Collection::Orders)
    } else if name == "positions"@ {
        Some(Collection::Positions)
    } else if name == "actors"@ {
        Some(Collection::Actors)
    } else if name == "strategies"@ {
        Some(Collection::Strategies)
    } else if name == "snapshots"@ {
        Some(Collection::Snapshots)
    } else if name == "health"@ {
        Some(Collection::Health)
    } else {
        None
    }
}

impl Collection {
    /// The name under which keys refer to it.
    pub open spec fn name(self) -> Seq<char> {
        match self {
            Collection::Index => "index"@,
            Collection::General => "general"@,
            Collection::Currencies => "currencies"@,
            Collection::Instruments => "instruments"@,
            Collection::Synthetics => "synthetics"@,
            Collection::Accounts => "accounts"@,
            Collection::Orders => "orders"@,
            Collection::Positions => "positions"@,
            Collection::Actors => "actors"@,
            Collection::Strategies => "strategies"@,
            Collection::Snapshots => "snapshots"@,
            Collection::Health => "health"@,
        }
    }

    /// The collection that `name` names, if there is one.
    pub fn parse(name: &str) -> (r: Option<Collection>)
        ensures
            r == collection_named(name@),
    {
        if str_eq(name, "index") {
            Some(Collection::Index)
        } else if str_eq(name, "general") {
            Some(Collection::General)
        } else if str_eq(name, "currencies") {
            Some(Collection::Currencies)
        } else if str_eq(name, "instruments") {
            Some(Collection::Instruments)
        } else if str_eq(name, "synthetics") {
            Some(Collection::Synthetics)
        } else if str_eq(name, "accounts") {
            Some(Collection::Accounts)
        } else if str_eq(name, "orders") {
            Some(Collection::Orders)
        } else if str_eq(name, "positions") {
            Some(Collection::Positions)
        } else if str_eq(name, "actors") {
            Some(Collection::Actors)
        } else if str_eq(name, "strategies") {
            Some(Collection::Strategies)
        } else if str_eq(name, "snapshots") {
            Some(Collection::Snapshots)
        } else if str_eq(name, "health") {
            Some(Collection::Health)
        } else {
            None
        }
    }
}

/// Every collection is named by its own name, and by no other.
pub proof fn law_collection_names(c: Collection, name: Seq<char>)
    ensures
        collection_named(c.name()) == Some(c),
        collection_named(name) == Some(c) <==> name == c.name(),
{
    reveal_strlit("index");
    reveal_strlit("general");
    reveal_strlit("currencies");
    reveal_strlit("instruments");
    reveal_strlit("synthetics");
    reveal_strlit("accounts");
    reveal_strlit("orders");
    reveal_strlit("positions");
    reveal_strlit("actors");
    reveal_strlit("strategies");
    reveal_strlit("snapshots");
    reveal_strlit("health");
    assert("index"@.len() == 5);
    assert("general"@.len() == 7);
    assert("currencies"@.len() == 10);
    assert("instruments"@.len() == 11);
    assert("synthetics"@.len() == 10);
    assert("accounts"@.len() == 8);
    assert("orders"@.len() == 6);
    assert("positions"@.len() == 9);
    assert("actors"@.len() == 6);
    assert("strategies"@.len() == 10);
    assert("snapshots"@.len() == 9);
    assert("health"@.len() == 6);
    assert("currencies"@[0] != "synthetics"@[0]);
    assert("currencies"@[0] != "strategies"@[0]);
    assert("synthetics"@[1] != "strategies"@[1]);
    assert("orders"@[0] != "actors"@[0]);
    assert("orders"@[0] != "health"@[0]);
    assert("positions"@[0] != "snapshots"@[0]);
    assert("actors"@[0] != "health"@[0]);
}

/// The index that `name` names, if there is one.
pub open spec fn index_named(name: Seq<char>) -> Option<IndexKey> {
    if name == "index:order_ids"@ {
        Some(IndexKey::OrderIds)
    } else if name == "index:order_position"@ {
        Some(IndexKey::OrderPosition)
    } else if name == "index:order_client"@ {
        Some(IndexKey::OrderClient)
    } else if name == "index:orders"@ {
        Some(IndexKey::Orders)
    } else if name == "index:orders_open"@ {
        Some(IndexKey::OrdersOpen)
    } else if name == "index:orders_closed"@ {
        Some(IndexKey::OrdersClosed)
    } else if name == "index:orders_emulated"@ {
        Some(IndexKey::OrdersEmulated)
    } else if name == "index:orders_inflight"@ {
        Some(IndexKey::OrdersInflight)
    } else if name == "index:positions"@ {
        Some(IndexKey::Positions)
    } else if name == "index:positions_open"@ {
        Some(IndexKey::PositionsOpen)
    } else if name == "index:positions_closed"@ {
        Some(IndexKey::PositionsClosed)
    } else {
        None
    }
}

impl IndexKey {
    /// The name under which keys refer to it.
    pub open spec fn name(self) -> Seq<char> {
        match self {
            IndexKey::OrderIds => "index:order_ids"@,
            IndexKey::OrderPosition => "index:order_position"@,
            IndexKey::OrderClient => "index:order_client"@,
            IndexKey::Orders => "index:orders"@,
            IndexKey::OrdersOpen => "index:orders_open"@,
            IndexKey::OrdersClosed => "index:orders_closed"@,
            IndexKey::OrdersEmulated => "index:orders_emulated"@,
            IndexKey::OrdersInflight => "index:orders_inflight"@,
            IndexKey::Positions => "index:positions"@,
            IndexKey::PositionsOpen => "index:positions_open"@,
            IndexKey::PositionsClosed => "index:positions_closed"@,
        }
    }

    /// The index that `name` names, if there is one.
    pub fn parse(name: &str) -> (r: Option<IndexKey>)
        ensures
            r == index_named(name@),
    {
        if str_eq(name, "index:order_ids") {
            Some(IndexKey::OrderIds)
        } else if str_eq(name, "index:order_position") {
            Some(IndexKey::OrderPosition)
        } else if str_eq(name, "index:order_client") {
            Some(IndexKey::OrderClient)
        } else if str_eq(name, "index:orders") {
            Some(IndexKey::Orders)
        } else if str_eq(name, "index:orders_open") {
            Some(IndexKey::OrdersOpen)
        } else if str_eq(name, "index:orders_closed") {
            Some(IndexKey::OrdersClosed)
        } else if str_eq(name, "index:orders_emulated") {
            Some(IndexKey::OrdersEmulated)
        } else if str_eq(name, "index:orders_inflight") {
            Some(IndexKey::OrdersInflight)
        } else if str_eq(name, "index:positions") {
            Some(IndexKey::Positions)
        } else if str_eq(name, "index:positions_open") {
            Some(IndexKey::PositionsOpen)
        } else if str_eq(name, "index:positions_closed") {
            Some(IndexKey::PositionsClosed)
        } else {
            None
        }
    }
}

/// Every index is named by its own name, and by no other.
pub proof fn law_index_names(c: IndexKey, name: Seq<char>)
    ensures
        index_named(c.name()) == Some(c),
        index_named(name) == Some(c) <==> name == c.name(),
{
    reveal_strlit("index:order_ids");
    reveal_strlit("index:order_position");
    reveal_strlit("index:order_client");
    reveal_strlit("index:orders");
    reveal_strlit("index:orders_open");
    reveal_strlit("index:orders_closed");
    reveal_strlit("index:orders_emulated");
    reveal_strlit("index:orders_inflight");
    reveal_strlit("index:positions");
    reveal_strlit("index:positions_open");
    reveal_strlit("index:positions_closed");
    assert("index:order_ids"@.len() == 15);
    assert("index:order_position"@.len() == 20);
    assert("index:order_client"@.len() == 18);
    assert("index:orders"@.len() == 12);
    assert("index:orders_open"@.len() == 17);
    assert("index:orders_closed"@.len() == 19);
    assert("index:orders_emulated"@.len() == 21);
    assert("index:orders_inflight"@.len() == 21);
    assert("index:positions"@.len() == 15);
    assert("index:positions_open"@.len() == 20);
    assert("index:positions_closed"@.len() == 22);
    assert("index:order_ids"@[6] != "index:positions"@[6]);
    assert("index:order_position"@[6] != "index:positions_open"@[6]);
    assert("index:orders_emulated"@[13] != "index:orders_inflight"@[13]);
}

/// Whether `collection` is what stands in `key` before the first delimiter.
pub open spec fn is_collection_of(collection: Seq<char>, key: Seq<char>) -> bool {
    &&& first_delimiter_at(key, collection.len() as int)
    &&& collection == key.take(collection.len() as int)
}

/// Whether `index_key` is what stands in `key` behind the first delimiter.
pub open spec fn is_index_key_of(index_key: Seq<char>, key: Seq<char>) -> bool {
    &&& first_delimiter_at(key, key.len() - index_key.len() - 1)
    &&& index_key == key.skip(key.len() - index_key.len())
}

/// What stands in `key` before the first delimiter, if there is a delimiter.
pub open spec fn collection_of(key: Seq<char>) -> Option<Seq<char>> {
    if has_delimiter(key) {
        Some(choose|c: Seq<char>| is_collection_of(c, key))
    } else {
        None
    }
}

/// What stands in `key` behind the first delimiter, if there is a delimiter.
pub open spec fn index_key_of(key: Seq<char>) -> Option<Seq<char>> {
    if has_delimiter(key) {
        Some(choose|c: Seq<char>| is_index_key_of(c, key))
    } else {
        None
    }
}

/// The collection of a key is the one text that stands before its first delimiter.
pub proof fn lemma_collection_of(collection: Seq<char>, key: Seq<char>)
    requires
        is_collection_of(collection, key),
    ensures
        collection_of(key) == Some(collection),
{
    let c = choose|c: Seq<char>| is_collection_of(c, key);
    lemma_first_delimiter_unique(key, c.len() as int, collection.len() as int);
}

/// The index key of a key is the one text that stands behind its first delimiter.
pub proof fn lemma_index_key_of(index_key: Seq<char>, key: Seq<char>)
    requires
        is_index_key_of(index_key, key),
    ensures
        index_key_of(key) == Some(index_key),
{
    let c = choose|c: Seq<char>| is_index_key_of(c, key);
    lemma_first_delimiter_unique(
        key,
        key.len() - c.len() - 1,
        key.len() - index_key.len() - 1,
    );
}

/// The collection that `key` names: what stands before its first delimiter.
pub fn get_collection_key(key: &str) -> (r: Result<&str, CacheError>)
    ensures
        match r {
            Ok(collection) => {
                &&& is_collection_of(collection@, key@)
                &&& collection_of(key@) == Some(collection@)
            },
            Err(e) => {
                &&& !has_delimiter(key@)
                &&& e@ == CacheErrorView::MissingDelimiter { key: key@ }
            },
        },
{
    match find_delimiter(key) {
        Some(i) => {
            let collection = key.substring_char(0, i);
            proof {
                assert(collection@ =~= key@.take(i as int));
                lemma_collection_of(collection@, key@);
            }
            Ok(collection)
        },
        None => Err(CacheError::MissingDelimiter { key: key.to_owned() }),
    }
}

/// The index that `key` names: what stands behind its first delimiter.
pub fn get_index_key(key: &str) -> (r: Result<&str, CacheError>)
    ensures
        match r {
            Ok(index_key) => {
                &&& is_index_key_of(index_key@, key@)
                &&& index_key_of(key@) == Some(index_key@)
            },
            Err(e) => {
                &&& !has_delimiter(key@)
                &&& e@ == CacheErrorView::MissingDelimiter { key: key@ }
            },
        },
{
    match find_delimiter(key) {
        Some(i) => {
            let n = key.unicode_len();
            let index_key = key.substring_char(i + 1, n);
            proof {
                assert(index_key@ =~= key@.skip(i + 1));
                lemma_index_key_of(index_key@, key@);
            }
            Ok(index_key)
        },
        None => Err(CacheError::MissingDelimiter { key: key.to_owned() }),
    }
}

} // verus!
