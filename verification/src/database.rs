//! The cache database of a trader: what it sends to the task that writes, and what it asks of
//! Redis.
use bytes::Bytes;
use redis::Cmd;
use vstd::prelude::*;

use crate::command::{DatabaseCommand, DatabaseOperation};
use crate::config::{get_trader_key, trader_key_of, CacheConfig, TraderId, UUID4};
use crate::dirty::{get_global_surreal_dirty_flag, DirtyFlag};
use crate::error::{CacheError, CacheErrorView};
use crate::keys::{collection_of, get_collection_key};
use crate::pipeline::{redis_key, Storage};
use crate::read::{asks, read_collection, read_storage, ReadRequest};
use crate::scan::{scan_keys, scans, ScanStep};
use crate::text::{concat3, str_eq, utf8};
use crate::wire::{cmd, command_args};

verus! {

/// How many commands can wait on their way to the task that writes.
pub const CHANNEL_BUFFER_SIZE: usize = 1;

/// The cache database of a trader.
#[derive(Clone, Debug)]
pub struct RedisCacheDatabase {
    pub trader_id: TraderId,
    /// The text under which the keys of the trader stand.
    pub trader_key: String,
}

/// How a read goes on.
pub enum ReadStep {
    /// Carry out what waits in the log, and go on with the read.
    Drain,
    /// Ask Redis.
    Fetch(ReadRequest),
    /// Refuse the read.
    Refuse(CacheError),
}

/// How what stands under a key of a trader is kept, or why it can not be read.
pub open spec fn trader_storage(trader_key: Seq<char>, key: Seq<char>) -> Result<
    Storage,
    CacheErrorView,
> {
    match collection_of(key) {
        None => Err(CacheErrorView::MissingDelimiter { key }),
        Some(collection) => read_storage(collection, redis_key(trader_key, key)),
    }
}

impl RedisCacheDatabase {
    /// Creates a new [`RedisCacheDatabase`] instance.
    pub fn new(trader_id: TraderId, instance_id: UUID4, config: &CacheConfig) -> (r: Result<
        RedisCacheDatabase,
        CacheError,
    >)
        ensures
            match r {
                Ok(database) => {
                    &&& config.database is Some
                    &&& database.trader_id == trader_id
                    &&& database.trader_key@ == trader_key_of(
                        trader_id.value@,
                        instance_id.value@,
                        config.use_trader_prefix,
                        config.use_instance_id,
                    )
                },
                Err(e) => config.database is None && e == CacheError::NoDatabaseConfig,
            },
    {
        match &config.database {
            Some(_) => {
                let trader_key = get_trader_key(&trader_id, &instance_id, config);
                Ok(RedisCacheDatabase { trader_id, trader_key })
            },
            None => Err(CacheError::NoDatabaseConfig),
        }
    }

    /// The command that closes the database.
    pub fn close(&self) -> (r: DatabaseCommand)
        ensures
            r.op_type == DatabaseOperation::Close,
            r.key is None,
            r.payload is None,
            !r.committed_to_redis,
    {
        DatabaseCommand::close()
    }

    /// The command that makes Redis drop everything that it holds.
    pub fn flushdb(&self) -> (r: Cmd)
        ensures
            command_args(r) == seq![utf8("FLUSHDB"@)],
    {
        cmd("FLUSHDB")
    }

    /// How the search for the keys of the trader that match a pattern goes on, where `drained` says
    /// whether what waits in the log has been carried out for it.
    pub fn keys(&self, drained: bool, pattern: &str) -> (r: ScanStep)
        ensures
            scans(r, drained, redis_key(self.trader_key@, pattern@)),
            match r {
                ScanStep::Drain => !drained,
                ScanStep::Scan(scan) => {
                    &&& drained
                    &&& scan.pattern@ == self.trader_key@ + ":"@ + pattern@
                    &&& scan.cursor == 0 && scan.keys@.len() == 0 && !scan.done
                },
            },
    {
        if drained {
            ScanStep::Scan(scan_keys(concat3(self.trader_key.as_str(), ":", pattern)))
        } else {
            ScanStep::Drain
        }
    }

    /// How the read of a key goes on, where `drained` says whether what waits in the log has been
    /// carried out for it.
    pub fn read(&self, flag: &DirtyFlag, drained: bool, key: &str) -> (r: ReadStep)
        ensures
            match r {
                ReadStep::Drain => flag.dirty && !drained,
                ReadStep::Fetch(request) => {
                    &&& !flag.dirty || drained
                    &&& trader_storage(self.trader_key@, key@) matches Ok(storage) && asks(
                        request,
                        storage,
                        redis_key(self.trader_key@, key@),
                    )
                    &&& command_args(request.command).len() >= 2
                    &&& command_args(request.command)[1] == utf8(
                        self.trader_key@ + ":"@ + key@,
                    )
                },
                ReadStep::Refuse(e) => {
                    &&& !flag.dirty || drained
                    &&& trader_storage(self.trader_key@, key@) == Err::<Storage, _>(e@)
                },
            },
    {
        if !drained && get_global_surreal_dirty_flag(flag) {
            return ReadStep::Drain;
        }
        let collection = match get_collection_key(key) {
            Ok(collection) => collection,
            Err(e) => {
                return ReadStep::Refuse(e);
            },
        };
        let target = concat3(self.trader_key.as_str(), ":", key);
        match read_collection(collection, target.as_str()) {
            Ok(request) => ReadStep::Fetch(request),
            Err(e) => ReadStep::Refuse(e),
        }
    }

    /// The command that inserts a payload under a key.
    pub fn insert(&self, key: String, payload: Option<Vec<Bytes>>) -> (r: DatabaseCommand)
        ensures
            r.op_type == DatabaseOperation::Insert,
            r.key == Some(key),
            r.payload == payload,
            !r.committed_to_redis,
    {
        self.send_command(DatabaseOperation::Insert, key, payload)
    }

    /// The command that updates what stands under a key with a payload.
    pub fn update(&self, key: String, payload: Option<Vec<Bytes>>) -> (r: DatabaseCommand)
        ensures
            r.op_type == DatabaseOperation::Update,
            r.key == Some(key),
            r.payload == payload,
            !r.committed_to_redis,
    {
        self.send_command(DatabaseOperation::Update, key, payload)
    }

    /// The command that deletes what stands under a key, or a payload from it.
    pub fn delete(&self, key: String, payload: Option<Vec<Bytes>>) -> (r: DatabaseCommand)
        ensures
            r.op_type == DatabaseOperation::Delete,
            r.key == Some(key),
            r.payload == payload,
            !r.committed_to_redis,
    {
        self.send_command(DatabaseOperation::Delete, key, payload)
    }

    /// The command that is sent to the task that writes.
    fn send_command(
        &self,
        operation: DatabaseOperation,
        key: String,
        payload: Option<Vec<Bytes>>,
    ) -> (r: DatabaseCommand)
        ensures
            r.op_type == operation,
            r.key == Some(key),
            r.payload == payload,
            !r.committed_to_redis,
    {
        DatabaseCommand::new(operation, key, payload)
    }
}

/// The text of the error where a command could not be sent to the task that writes; `cause` is the
/// text of the error that sending gave.
pub fn send_failure(cause: &str) -> (r: String)
    ensures
        r@ == "Failed to process command: Failed to send command: "@ + cause@,
{
    let mut text = "Failed to process command: Failed to send command: ".to_owned();
    text.append(cause);
    text
}

/// The command that asks whether Redis is there.
pub fn ping() -> (r: Cmd)
    ensures
        command_args(r) == seq![utf8("PING"@)],
{
    cmd("PING")
}

/// Whether the connection is alive, given the reply to a ping, if there was one.
pub fn is_redis_connection_alive(reply: Option<&str>) -> (r: bool)
    ensures
        r <==> (reply matches Some(text) && text@ == "PONG"@),
{
    match reply {
        Some(text) => str_eq(text, "PONG"),
        None => false,
    }
}

} // verus!
