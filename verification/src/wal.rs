//! The log in which commands wait until Redis has carried them out.
//!
//! A store holds the log under keys of its own: one operation per sequence number, the sequence
//! number that the next operation gets, and the one that was last committed. A function here takes
//! what was read from the store and gives what is to be written to it, in one transaction.
use vstd::prelude::*;

use crate::command::{
    logged, operation_name, unlogged, CommandView, DatabaseCommand, LoggedCommandView,
    SerializableDatabaseCommand,
};
use crate::json::{json_u64, read_u64, write_u64};
use crate::text::{
    concat3, decimal, decimal_string, lemma_decimal_injective, lemma_utf8_injective, utf8,
};

verus! {

/// The keys of the log.
#[derive(Clone, Copy, Debug, PartialEq, Eq, Structural)]
pub enum RedisWALKey {
    /// Key for the next sequence number to be used for a new operation.
    NextOperationSequence,
    /// Key for the last sequence number that has been committed.
    LastCommittedOperationSequence,
    /// Key for the operation with the given sequence number.
    GetKeyForOperationSequence(u64),
}

impl RedisWALKey {
    /// The text of the key.
    pub open spec fn text(self) -> Seq<char> {
        match self {
            RedisWALKey::NextOperationSequence => "RedisWal/NextOperationSequence"@,
            RedisWALKey::LastCommittedOperationSequence =>
                "RedisWal/LastCommittedOperationSequence"@,
            RedisWALKey::GetKeyForOperationSequence(sequence) => "RedisWal/OperationSequence/"@
                + decimal(sequence as nat),
        }
    }

    /// The bytes of the key.
    pub open spec fn bytes(self) -> Seq<u8> {
        utf8(self.text())
    }

    /// The bytes of the key.
    pub fn as_bytes(&self) -> (r: Vec<u8>)
        ensures
            r@ == self.bytes(),
    {
        match self {
            RedisWALKey::NextOperationSequence => "RedisWal/NextOperationSequence".as_bytes_vec(),
            RedisWALKey::LastCommittedOperationSequence =>
                "RedisWal/LastCommittedOperationSequence".as_bytes_vec(),
            RedisWALKey::GetKeyForOperationSequence(sequence) => {
                let mut text = "RedisWal/OperationSequence/".to_owned();
                text.append(decimal_string(*sequence).as_str());
                text.as_str().as_bytes_vec()
            },
        }
    }
}

/// Keys with the same bytes are the same: no write of the log overwrites another entry.
pub proof fn law_wal_keys_distinct(a: RedisWALKey, b: RedisWALKey)
    ensures
        a.bytes() == b.bytes() <==> a == b,
{
    if a.bytes() == b.bytes() {
        reveal_strlit("RedisWal/NextOperationSequence");
        reveal_strlit("RedisWal/LastCommittedOperationSequence");
        reveal_strlit("RedisWal/OperationSequence/");
        lemma_utf8_injective(a.text(), b.text());
        assert(a.text()[9] == b.text()[9]);
        match (a, b) {
            (
                RedisWALKey::GetKeyForOperationSequence(x),
                RedisWALKey::GetKeyForOperationSequence(y),
            ) => {
                let prefix = "RedisWal/OperationSequence/"@;
                assert(a.text().skip(prefix.len() as int) =~= decimal(x as nat));
                assert(b.text().skip(prefix.len() as int) =~= decimal(y as nat));
                lemma_decimal_injective(x as nat, y as nat);
            },
            _ => {},
        }
    }
}

/// Why an entry of the log could not be read or written.
#[derive(Debug)]
pub enum WalError {
    /// What the store holds as a sequence number is none.
    Sequence(serde_json::Error),
    /// The operation type of an operation is unknown; the text says which it is.
    UnknownOperation { text: String },
    /// The operation has already been committed.
    AlreadyCommitted { sequence: u64 },
    /// There is no operation with the sequence number.
    NotFound { sequence: u64 },
}

impl WalError {
    /// The text that tells a reader what failed; `cause` is the text of the error that an
    /// unreadable sequence number gave.
    pub open spec fn text(self, cause: Seq<char>) -> Seq<char> {
        match self {
            WalError::Sequence(_) => cause,
            WalError::UnknownOperation { text } => text@,
            WalError::AlreadyCommitted { sequence } => "Operation with sequence "@ + decimal(
                sequence as nat,
            ) + " is already committed to Redis. Aborting."@,
            WalError::NotFound { sequence } => "Operation with sequence "@ + decimal(
                sequence as nat,
            ) + " not found"@,
        }
    }

    /// The text that tells a reader what failed; `cause` is the text of the error that an
    /// unreadable sequence number gave.
    pub fn message(&self, cause: &str) -> (r: String)
        ensures
            r@ == self.text(cause@),
    {
        match self {
            WalError::Sequence(_) => cause.to_owned(),
            WalError::UnknownOperation { text } => text.clone(),
            WalError::AlreadyCommitted { sequence } => concat3(
                "Operation with sequence ",
                decimal_string(*sequence).as_str(),
                " is already committed to Redis. Aborting.",
            ),
            WalError::NotFound { sequence } => concat3(
                "Operation with sequence ",
                decimal_string(*sequence).as_str(),
                " not found",
            ),
        }
    }
}

/// What is written to append an operation.
#[derive(Debug)]
pub struct WalAppend {
    pub operation_key: Vec<u8>,
    pub operation: SerializableDatabaseCommand,
    pub sequence_key: Vec<u8>,
    pub sequence: Vec<u8>,
}

/// What is written to commit an operation.
#[derive(Debug)]
pub struct WalCommit {
    pub operation_key: Vec<u8>,
    pub operation: SerializableDatabaseCommand,
    pub sequence_key: Vec<u8>,
    pub sequence: Vec<u8>,
}

/// The sequence number that stored bytes stand for: zero where nothing is stored.
pub open spec fn stored_sequence(stored: Option<Seq<u8>>) -> Option<u64> {
    match stored {
        Some(bytes) => json_u64(bytes),
        None => Some(0),
    }
}

/// The bytes that are stored, if any are.
pub open spec fn stored_bytes(stored: Option<&[u8]>) -> Option<Seq<u8>> {
    match stored {
        Some(bytes) => Some(bytes@),
        None => None,
    }
}

/// The sequence number that is stored, zero where nothing is.
pub fn read_sequence(stored: Option<&[u8]>) -> (r: Result<u64, WalError>)
    ensures
        match r {
            Ok(n) => stored_sequence(stored_bytes(stored)) == Some(n),
            Err(e) => e is Sequence && stored_sequence(stored_bytes(stored)) is None,
        },
        match (stored, r) {
            (Some(bytes), Ok(n)) => json_u64(bytes@) == Some(n),
            (Some(bytes), Err(e)) => e is Sequence && json_u64(bytes@) is None,
            (None, Ok(n)) => n == 0,
            (None, Err(_)) => false,
        },
{
    match stored {
        Some(bytes) => match read_u64(bytes) {
            Ok(n) => Ok(n),
            Err(e) => Err(WalError::Sequence(e)),
        },
        None => Ok(0),
    }
}

/// Whether `entry` is what is written to append a command under the next sequence number: the
/// command in its logged form, and the sequence number that follows.
pub open spec fn appends(entry: WalAppend, next_sequence: u64, message: CommandView) -> bool {
    &&& entry.operation_key@ == RedisWALKey::GetKeyForOperationSequence(next_sequence).bytes()
    &&& entry.operation@ == logged(message)
    &&& entry.sequence_key@ == RedisWALKey::NextOperationSequence.bytes()
    &&& entry.sequence@ == utf8(decimal((next_sequence + 1) as nat))
    &&& json_u64(entry.sequence@) == Some((next_sequence + 1) as u64)
}

/// What is written to append a command as the operation with the next sequence number.
pub fn write_to_wal_store(next_sequence: u64, message: DatabaseCommand) -> (r: Result<
    WalAppend,
    WalError,
>)
    requires
        next_sequence < u64::MAX,
    ensures
        match r {
            Ok(entry) => {
                &&& appends(entry, next_sequence, message@)
                &&& entry.operation_key@ == utf8(
                    "RedisWal/OperationSequence/"@ + decimal(next_sequence as nat),
                )
                &&& entry.sequence_key@ == utf8("RedisWal/NextOperationSequence"@)
                &&& entry.sequence@ == utf8(decimal((next_sequence + 1) as nat))
                &&& entry.operation.op_type@ == operation_name(message.op_type)
                &&& entry.operation.key == message.key
                &&& entry.operation.payload == message.payload
                &&& entry.operation.committed_to_redis == message.committed_to_redis
            },
            Err(_) => false,
        },
{
    match write_u64(next_sequence + 1) {
        Ok(sequence) => Ok(
            WalAppend {
                operation_key: RedisWALKey::GetKeyForOperationSequence(next_sequence).as_bytes(),
                operation: SerializableDatabaseCommand::from(message),
                sequence_key: RedisWALKey::NextOperationSequence.as_bytes(),
                sequence,
            },
        ),
        Err(e) => Err(WalError::Sequence(e)),
    }
}

/// What is written to append a command, given what is stored as the next sequence number: nothing
/// where the sequence numbers are used up.
pub fn append_message(stored: Option<&[u8]>, message: DatabaseCommand) -> (r: Result<
    Option<WalAppend>,
    WalError,
>)
    ensures
        match (r, stored_sequence(stored_bytes(stored))) {
            (Ok(Some(entry)), Some(n)) => n < u64::MAX && appends(entry, n, message@),
            (Ok(None), Some(n)) => n == u64::MAX,
            (Err(e), None) => e is Sequence,
            _ => false,
        },
        match r {
            Ok(Some(entry)) => {
                &&& entry.operation.op_type@ == operation_name(message.op_type)
                &&& entry.operation.key == message.key
                &&& entry.operation.payload == message.payload
                &&& entry.operation.committed_to_redis == message.committed_to_redis
                &&& entry.sequence_key@ == utf8("RedisWal/NextOperationSequence"@)
                &&& match stored {
                    Some(bytes) => json_u64(bytes@) matches Some(n) && entry.operation_key@ == utf8(
                        "RedisWal/OperationSequence/"@ + decimal(n as nat),
                    ) && entry.sequence@ == utf8(decimal((n + 1) as nat)),
                    None => {
                        &&& entry.operation_key@ == utf8(
                            "RedisWal/OperationSequence/"@ + decimal(0),
                        )
                        &&& entry.sequence@ == utf8(decimal(1))
                    },
                }
            },
            Ok(None) => stored matches Some(bytes) && json_u64(bytes@) == Some(u64::MAX),
            Err(_) => stored matches Some(bytes) && json_u64(bytes@) is None,
        },
{
    match read_sequence(stored) {
        Ok(next_sequence) => {
            if next_sequence == u64::MAX {
                return Ok(None);
            }
            match write_to_wal_store(next_sequence, message) {
                Ok(entry) => Ok(Some(entry)),
                Err(e) => Err(e),
            }
        },
        Err(e) => Err(e),
    }
}

/// The text of the error where the transaction of an append could not be committed to the store;
/// `cause` is the text of the error that the store gave.
pub fn append_failure(cause: &str) -> (r: String)
    ensures
        r@ == "Failed to commit transaction: "@ + cause@,
{
    let mut text = "Failed to commit transaction: ".to_owned();
    text.append(cause);
    text
}

/// The text of the error where the transaction of a commit could not be committed to the store;
/// `cause` is the text of the error that the store gave.
pub fn commit_failure(sequence: u64, cause: &str) -> (r: String)
    ensures
        r@ == "Failed to commit operation with sequence "@ + decimal(sequence as nat) + ": "@
            + cause@,
{
    let mut text = concat3(
        "Failed to commit operation with sequence ",
        decimal_string(sequence).as_str(),
        ": ",
    );
    text.append(cause);
    text
}

/// The key of the operation that follows the one that was last committed.
pub fn next_operation_key(last_sequence: u64) -> (r: Vec<u8>)
    requires
        last_sequence < u64::MAX,
    ensures
        r@ == RedisWALKey::GetKeyForOperationSequence((last_sequence + 1) as u64).bytes(),
{
    RedisWALKey::GetKeyForOperationSequence(last_sequence + 1).as_bytes()
}

/// The sequence number that was last committed, given what is stored as it, and the key of the
/// operation that follows: nothing where the sequence numbers are used up.
pub fn locate_next_operation(stored: Option<&[u8]>) -> (r: Result<
    Option<(u64, Vec<u8>)>,
    WalError,
>)
    ensures
        match (r, stored_sequence(stored_bytes(stored))) {
            (Ok(Some((last, key))), Some(n)) => {
                &&& last == n < u64::MAX
                &&& key@ == RedisWALKey::GetKeyForOperationSequence((n + 1) as u64).bytes()
            },
            (Ok(None), Some(n)) => n == u64::MAX,
            (Err(e), None) => e is Sequence,
            _ => false,
        },
        match r {
            Ok(Some((last, key))) => {
                &&& key@ == utf8("RedisWal/OperationSequence/"@ + decimal((last + 1) as nat))
                &&& match stored {
                    Some(bytes) => json_u64(bytes@) == Some(last),
                    None => last == 0,
                }
            },
            Ok(None) => stored matches Some(bytes) && json_u64(bytes@) == Some(u64::MAX),
            Err(_) => stored matches Some(bytes) && json_u64(bytes@) is None,
        },
{
    match read_sequence(stored) {
        Ok(last_sequence) => {
            if last_sequence == u64::MAX {
                return Ok(None);
            }
            Ok(Some((last_sequence, next_operation_key(last_sequence))))
        },
        Err(e) => Err(e),
    }
}

/// The operation that is to be carried out next, with its sequence number: the one that follows
/// the one that was last committed, unless there is none or it is committed.
pub fn read_next_uncommitted_wal_operation(
    last_sequence: u64,
    stored: Option<SerializableDatabaseCommand>,
) -> (r: Result<Option<(u64, DatabaseCommand)>, WalError>)
    requires
        last_sequence < u64::MAX,
    ensures
        match stored {
            Some(entry) if !entry.committed_to_redis => match r {
                Ok(Some((sequence, message))) => {
                    &&& sequence == last_sequence + 1
                    &&& unlogged(entry@) == Some(message@)
                    &&& entry.op_type@ == operation_name(message.op_type)
                    &&& message.key == entry.key
                    &&& message.payload == entry.payload
                    &&& !message.committed_to_redis
                },
                Ok(None) => false,
                Err(e) => {
                    &&& unlogged(entry@) is None
                    &&& e is UnknownOperation
                    &&& e->text@ == "Unknown operation type: "@ + entry.op_type@
                },
            },
            _ => r == Ok::<Option<(u64, DatabaseCommand)>, WalError>(None),
        },
{
    match stored {
        Some(entry) => {
            if entry.committed_to_redis {
                Ok(None)
            } else {
                match DatabaseCommand::try_from(entry) {
                    Ok(message) => Ok(Some((last_sequence + 1, message))),
                    Err(text) => Err(WalError::UnknownOperation { text }),
                }
            }
        },
        None => Ok(None),
    }
}

/// A logged command that has been committed to Redis.
pub open spec fn committed(entry: LoggedCommandView) -> LoggedCommandView {
    LoggedCommandView { committed_to_redis: true, ..entry }
}

/// Whether `entry` is what is written to commit an operation: the operation, marked as committed,
/// and its sequence number as the one that was last committed.
pub open spec fn commits(entry: WalCommit, sequence: u64, operation: LoggedCommandView) -> bool {
    &&& entry.operation_key@ == RedisWALKey::GetKeyForOperationSequence(sequence).bytes()
    &&& entry.operation@ == committed(operation)
    &&& entry.sequence_key@ == RedisWALKey::LastCommittedOperationSequence.bytes()
    &&& entry.sequence@ == utf8(decimal(sequence as nat))
    &&& json_u64(entry.sequence@) == Some(sequence)
}

/// What is written to commit the operation with a sequence number, given what is stored as it.
pub fn commit_message(sequence: u64, stored: Option<SerializableDatabaseCommand>) -> (r: Result<
    WalCommit,
    WalError,
>)
    ensures
        match (r, stored) {
            (Ok(entry), Some(operation)) => {
                &&& !operation.committed_to_redis
                &&& commits(entry, sequence, operation@)
                &&& entry.operation.op_type == operation.op_type
                &&& entry.operation.key == operation.key
                &&& entry.operation.payload == operation.payload
                &&& entry.operation.committed_to_redis
                &&& entry.operation_key@ == utf8(
                    "RedisWal/OperationSequence/"@ + decimal(sequence as nat),
                )
                &&& entry.sequence_key@ == utf8("RedisWal/LastCommittedOperationSequence"@)
                &&& entry.sequence@ == utf8(decimal(sequence as nat))
            },
            (Ok(_), None) => false,
            (Err(e), Some(operation)) => {
                &&& operation.committed_to_redis
                &&& e == WalError::AlreadyCommitted { sequence }
            },
            (Err(e), None) => e == WalError::NotFound { sequence },
        },
{
    match stored {
        Some(operation) => {
            if operation.committed_to_redis {
                return Err(WalError::AlreadyCommitted { sequence });
            }
            match write_u64(sequence) {
                Ok(bytes) => Ok(
                    WalCommit {
                        operation_key: RedisWALKey::GetKeyForOperationSequence(
                            sequence,
                        ).as_bytes(),
                        operation: SerializableDatabaseCommand {
                            committed_to_redis: true,
                            ..operation
                        },
                        sequence_key: RedisWALKey::LastCommittedOperationSequence.as_bytes(),
                        sequence: bytes,
                    },
                ),
                Err(e) => Err(WalError::Sequence(e)),
            }
        },
        None => Err(WalError::NotFound { sequence }),
    }
}

} // verus!
