//! What a cache database is configured with.
use vstd::prelude::*;

use crate::text::concat3;

verus! {

/// The identifier of a trader.
#[derive(Clone, Debug, PartialEq, Eq)]
pub struct TraderId {
    pub value: String,
}

/// The identifier of an instance, in its text form.
#[derive(Clone, Debug, PartialEq, Eq)]
pub struct UUID4 {
    pub value: String,
}

/// Where the database is.
#[derive(Clone, Debug, PartialEq, Eq)]
pub struct DatabaseConfig {
    /// The address of the Redis server.
    pub url: String,
}

/// The configuration of a cache.
#[derive(Clone, Debug, PartialEq, Eq)]
pub struct CacheConfig {
    /// Where the database behind the cache is, if there is one.
    pub database: Option<DatabaseConfig>,
    /// The interval between two passes over the log in milliseconds.
    pub buffer_interval_ms: Option<usize>,
    /// Whether the trader key begins with `trader-`.
    pub use_trader_prefix: bool,
    /// Whether the trader key ends in the instance identifier.
    pub use_instance_id: bool,
}

impl Default for CacheConfig {
    fn default() -> (r: Self)
        ensures
            r.database is None,
            r.buffer_interval_ms is None,
            r.use_trader_prefix,
            !r.use_instance_id,
    {
        CacheConfig {
            database: None,
            buffer_interval_ms: None,
            use_trader_prefix: true,
            use_instance_id: false,
        }
    }
}

impl CacheConfig {
    /// The interval between two passes over the log in milliseconds, zero where none is set.
    pub fn buffer_interval(&self) -> (r: u64)
        ensures
            r == (match self.buffer_interval_ms {
                Some(millis) => millis as u64,
                None => 0,
            }),
    {
        match self.buffer_interval_ms {
            Some(millis) => millis as u64,
            None => 0,
        }
    }
}

/// The text under which the keys of a trader stand.
pub open spec fn trader_key_of(
    trader_id: Seq<char>,
    instance_id: Seq<char>,
    use_trader_prefix: bool,
    use_instance_id: bool,
) -> Seq<char> {
    (if use_trader_prefix {
        "trader-"@
    } else {
        Seq::empty()
    }) + trader_id + (if use_instance_id {
        ":"@ + instance_id
    } else {
        Seq::empty()
    })
}

/// The text under which the keys of a trader stand.
pub fn get_trader_key(trader_id: &TraderId, instance_id: &UUID4, config: &CacheConfig) -> (r:
    String)
    ensures
        r@ == trader_key_of(
            trader_id.value@,
            instance_id.value@,
            config.use_trader_prefix,
            config.use_instance_id,
        ),
{
    let prefix = if config.use_trader_prefix {
        "trader-"
    } else {
        ""
    };
    let suffix = if config.use_instance_id {
        concat3(":", instance_id.value.as_str(), "")
    } else {
        "".to_owned()
    };
    proof {
        reveal_strlit("");
        assert(""@ =~= Seq::<char>::empty());
    }
    let key = concat3(prefix, trader_id.value.as_str(), suffix.as_str());
    proof {
        assert(key@ =~= trader_key_of(
            trader_id.value@,
            instance_id.value@,
            config.use_trader_prefix,
            config.use_instance_id,
        ));
    }
    key
}

/// The trader key is the trader identifier as it is, behind `trader-` where the prefix is used, and
/// with a colon and the instance identifier as it is behind it where that is used.
pub proof fn law_trader_key_text(trader_id: Seq<char>, instance_id: Seq<char>)
    ensures
        trader_key_of(trader_id, instance_id, false, false) == trader_id,
        trader_key_of(trader_id, instance_id, true, false) == "trader-"@ + trader_id,
        trader_key_of(trader_id, instance_id, false, true) == trader_id + ":"@ + instance_id,
        trader_key_of(trader_id, instance_id, true, true) == "trader-"@ + trader_id + ":"@
            + instance_id,
{
    assert(trader_key_of(trader_id, instance_id, false, false) =~= trader_id);
    assert(trader_key_of(trader_id, instance_id, true, false) =~= "trader-"@ + trader_id);
    assert(trader_key_of(trader_id, instance_id, false, true) =~= trader_id + ":"@ + instance_id);
    assert(trader_key_of(trader_id, instance_id, true, true) =~= "trader-"@ + trader_id + ":"@
        + instance_id);
}

/// Traders with different identifiers have different trader keys, and instances of a trader with
/// different identifiers have different trader keys where the instance identifier is used.
pub proof fn law_trader_keys_differ(
    trader_id: Seq<char>,
    other_trader_id: Seq<char>,
    instance_id: Seq<char>,
    other_instance_id: Seq<char>,
    use_trader_prefix: bool,
)
    ensures
        trader_key_of(trader_id, instance_id, use_trader_prefix, false) == trader_key_of(
            other_trader_id,
            other_instance_id,
            use_trader_prefix,
            false,
        ) <==> trader_id == other_trader_id,
        trader_key_of(trader_id, instance_id, use_trader_prefix, true) == trader_key_of(
            trader_id,
            other_instance_id,
            use_trader_prefix,
            true,
        ) <==> instance_id == other_instance_id,
{
    law_trader_key_text(trader_id, instance_id);
    law_trader_key_text(other_trader_id, other_instance_id);
    law_trader_key_text(trader_id, other_instance_id);
    let prefix = "trader-"@;
    assert((prefix + trader_id).skip(prefix.len() as int) =~= trader_id);
    assert((prefix + other_trader_id).skip(prefix.len() as int) =~= other_trader_id);
    let front = trader_id + ":"@;
    assert((front + instance_id).skip(front.len() as int) =~= instance_id);
    assert((front + other_instance_id).skip(front.len() as int) =~= other_instance_id);
    let long = prefix + trader_id + ":"@;
    assert((long + instance_id).skip(long.len() as int) =~= instance_id);
    assert((long + other_instance_id).skip(long.len() as int) =~= other_instance_id);
}

} // verus!
