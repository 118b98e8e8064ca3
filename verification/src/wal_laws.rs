//! What the log promises: a store that follows it keeps every operation, and gives the operations
//! from the second on back one by one, in the order in which they were appended.
use vstd::prelude::*;

use crate::command::{
    law_logged_command_round_trip, logged, unlogged, CommandView, DatabaseOperation,
    LoggedCommandView,
};
use crate::json::json_u64;
use crate::text::{decimal, utf8};
use crate::wal::{
    appends, commits, committed, law_wal_keys_distinct, stored_bytes, stored_sequence, RedisWALKey,
    WalAppend, WalCommit, WalError,
};

verus! {

/// A value in the store: the bytes of a sequence number, or an operation.
pub enum Stored {
    Number(Seq<u8>),
    Operation(LoggedCommandView),
}

/// The log as the store holds it.
pub struct Wal {
    /// The sequence number that the next operation gets.
    pub next: u64,
    /// The sequence number that was last committed, zero where none was.
    pub last: u64,
    /// The operations by their sequence numbers.
    pub operations: Map<u64, LoggedCommandView>,
}

/// The sequence number under a key of the store: zero where nothing stands there.
pub open spec fn number_at(store: Map<Seq<u8>, Stored>, key: RedisWALKey) -> Option<u64> {
    if store.contains_key(key.bytes()) {
        match store[key.bytes()] {
            Stored::Number(bytes) => json_u64(bytes),
            Stored::Operation(_) => None,
        }
    } else {
        Some(0)
    }
}

/// The operation under a key of the store, if one stands there.
pub open spec fn operation_at(store: Map<Seq<u8>, Stored>, sequence: u64) -> Option<
    LoggedCommandView,
> {
    let key = RedisWALKey::GetKeyForOperationSequence(sequence).bytes();
    if store.contains_key(key) {
        match store[key] {
            Stored::Number(_) => None,
            Stored::Operation(operation) => Some(operation),
        }
    } else {
        None
    }
}

/// Whether the store holds the log.
pub open spec fn holds(store: Map<Seq<u8>, Stored>, wal: Wal) -> bool {
    &&& number_at(store, RedisWALKey::NextOperationSequence) == Some(wal.next)
    &&& number_at(store, RedisWALKey::LastCommittedOperationSequence) == Some(wal.last)
    &&& forall|n: u64| #[trigger]
        operation_at(store, n) == (if wal.operations.contains_key(n) {
            Some(wal.operations[n])
        } else {
            None
        })
}

/// The store after the writes of an append.
pub open spec fn after_append(store: Map<Seq<u8>, Stored>, entry: WalAppend) -> Map<
    Seq<u8>,
    Stored,
> {
    store.insert(entry.operation_key@, Stored::Operation(entry.operation@)).insert(
        entry.sequence_key@,
        Stored::Number(entry.sequence@),
    )
}

/// The store after the writes of a commit.
pub open spec fn after_commit(store: Map<Seq<u8>, Stored>, entry: WalCommit) -> Map<
    Seq<u8>,
    Stored,
> {
    store.insert(entry.operation_key@, Stored::Operation(entry.operation@)).insert(
        entry.sequence_key@,
        Stored::Number(entry.sequence@),
    )
}

impl Wal {
    /// The log before anything was appended.
    pub open spec fn fresh() -> Wal {
        Wal { next: 0, last: 0, operations: Map::empty() }
    }

    /// The log after an operation was appended.
    pub open spec fn append(self, operation: LoggedCommandView) -> Wal {
        Wal {
            next: (self.next + 1) as u64,
            last: self.last,
            operations: self.operations.insert(self.next, operation),
        }
    }

    /// The operation that is to be carried out next, with its sequence number.
    pub open spec fn next_uncommitted(self) -> Option<(u64, LoggedCommandView)> {
        let sequence = (self.last + 1) as u64;
        if self.operations.contains_key(sequence)
            && !self.operations[sequence].committed_to_redis {
            Some((sequence, self.operations[sequence]))
        } else {
            None
        }
    }

    /// The log after an operation was committed.
    pub open spec fn commit(self, sequence: u64) -> Wal {
        Wal {
            next: self.next,
            last: sequence,
            operations: self.operations.insert(sequence, committed(self.operations[sequence])),
        }
    }

    /// What every log is that was filled by appending and emptied by committing what is next: the
    /// operations stand under consecutive sequence numbers from zero on, and those from one to the
    /// last committed are the committed ones.
    pub open spec fn well_formed(self) -> bool {
        &&& forall|n: u64| #[trigger] self.operations.contains_key(n) <==> n < self.next
        &&& self.last == 0 || self.last < self.next
        &&& forall|n: u64|
            n < self.next ==> ((#[trigger] self.operations[n]).committed_to_redis <==> 1 <= n
                <= self.last)
    }

    /// How many operations are still to be carried out.
    pub open spec fn pending(self) -> nat {
        if self.next > self.last + 1 {
            (self.next - self.last - 1) as nat
        } else {
            0
        }
    }

    /// The operations that up to `rounds` rounds of reading what is next and committing it give,
    /// with their sequence numbers.
    pub open spec fn delivered(self, rounds: nat) -> Seq<(u64, LoggedCommandView)>
        decreases rounds,
    {
        match self.next_uncommitted() {
            Some((sequence, operation)) if rounds > 0 => seq![(sequence, operation)] + self.commit(
                sequence,
            ).delivered((rounds - 1) as nat),
            _ => Seq::empty(),
        }
    }

    /// The log after up to `rounds` rounds of reading what is next and committing it.
    pub open spec fn drained(self, rounds: nat) -> Wal
        decreases rounds,
    {
        match self.next_uncommitted() {
            Some((sequence, _)) if rounds > 0 => self.commit(sequence).drained((rounds - 1) as nat),
            _ => self,
        }
    }
}

/// An empty store holds the fresh log.
pub proof fn law_empty_store_holds_fresh_log()
    ensures
        holds(Map::empty(), Wal::fresh()),
        Wal::fresh().well_formed(),
{
}

/// Writing what an append gives takes the store from a log to the log with the operation appended:
/// nothing else that the store holds is touched.
pub proof fn law_append_is_stored(
    store: Map<Seq<u8>, Stored>,
    wal: Wal,
    entry: WalAppend,
    message: CommandView,
)
    requires
        holds(store, wal),
        wal.next < u64::MAX,
        appends(entry, wal.next, message),
    ensures
        holds(after_append(store, entry), wal.append(logged(message))),
{
    let new = after_append(store, entry);
    law_wal_keys_distinct(
        RedisWALKey::NextOperationSequence,
        RedisWALKey::LastCommittedOperationSequence,
    );
    law_wal_keys_distinct(
        RedisWALKey::LastCommittedOperationSequence,
        RedisWALKey::GetKeyForOperationSequence(wal.next),
    );
    assert forall|n: u64| #[trigger]
        operation_at(new, n) == (if wal.append(logged(message)).operations.contains_key(n) {
            Some(wal.append(logged(message)).operations[n])
        } else {
            None
        }) by {
        law_wal_keys_distinct(
            RedisWALKey::GetKeyForOperationSequence(n),
            RedisWALKey::GetKeyForOperationSequence(wal.next),
        );
        law_wal_keys_distinct(
            RedisWALKey::GetKeyForOperationSequence(n),
            RedisWALKey::NextOperationSequence,
        );
        assert(operation_at(store, n) == (if wal.operations.contains_key(n) {
            Some(wal.operations[n])
        } else {
            None
        }));
    }
}

/// Writing what a commit gives takes the store from a log to the log with the operation committed:
/// nothing else that the store holds is touched.
pub proof fn law_commit_is_stored(
    store: Map<Seq<u8>, Stored>,
    wal: Wal,
    entry: WalCommit,
    sequence: u64,
)
    requires
        holds(store, wal),
        wal.operations.contains_key(sequence),
        commits(entry, sequence, wal.operations[sequence]),
    ensures
        holds(after_commit(store, entry), wal.commit(sequence)),
{
    let new = after_commit(store, entry);
    law_wal_keys_distinct(
        RedisWALKey::NextOperationSequence,
        RedisWALKey::LastCommittedOperationSequence,
    );
    law_wal_keys_distinct(
        RedisWALKey::NextOperationSequence,
        RedisWALKey::GetKeyForOperationSequence(sequence),
    );
    assert forall|n: u64| #[trigger]
        operation_at(new, n) == (if wal.commit(sequence).operations.contains_key(n) {
            Some(wal.commit(sequence).operations[n])
        } else {
            None
        }) by {
        law_wal_keys_distinct(
            RedisWALKey::GetKeyForOperationSequence(n),
            RedisWALKey::GetKeyForOperationSequence(sequence),
        );
        law_wal_keys_distinct(
            RedisWALKey::GetKeyForOperationSequence(n),
            RedisWALKey::LastCommittedOperationSequence,
        );
        assert(operation_at(store, n) == (if wal.operations.contains_key(n) {
            Some(wal.operations[n])
        } else {
            None
        }));
    }
}

/// What stands in the store under the sequence number behind the last committed one decides what
/// is to be carried out next.
pub proof fn law_store_gives_next(store: Map<Seq<u8>, Stored>, wal: Wal)
    requires
        holds(store, wal),
        wal.last < u64::MAX,
    ensures
        wal.next_uncommitted() == (match operation_at(store, (wal.last + 1) as u64) {
            Some(operation) if !operation.committed_to_redis => Some(
                ((wal.last + 1) as u64, operation),
            ),
            _ => None,
        }),
{
}

/// Appending keeps a log well-formed and every operation in it, and gives the new operation the
/// next sequence number.
pub proof fn law_append_keeps_operations(wal: Wal, operation: LoggedCommandView)
    requires
        wal.well_formed(),
        wal.next < u64::MAX,
        !operation.committed_to_redis,
    ensures
        wal.append(operation).well_formed(),
        wal.append(operation).operations[wal.next] == operation,
        forall|n: u64|
            n < wal.next ==> #[trigger] wal.append(operation).operations[n] == wal.operations[n],
{
    let new = wal.append(operation);
    assert forall|n: u64| n < new.next implies ((#[trigger] new.operations[n]).committed_to_redis
        <==> 1 <= n <= new.last) by {
        if n < wal.next {
            assert(new.operations[n] == wal.operations[n]);
        }
    }
}

/// Committing what is next keeps a log well-formed; the operation cannot be committed again, and
/// what is next then is the operation with the following sequence number, if there is one.
pub proof fn law_commit_advances(wal: Wal)
    requires
        wal.well_formed(),
        wal.next_uncommitted() is Some,
    ensures
        ({
            let (sequence, _) = wal.next_uncommitted()->0;
            let new = wal.commit(sequence);
            &&& sequence == wal.last + 1
            &&& new.well_formed()
            &&& new.last == sequence
            &&& new.operations[sequence].committed_to_redis
            &&& new.pending() == wal.pending() - 1
            &&& new.next_uncommitted() is Some <==> sequence + 1 < wal.next
            &&& forall|n: u64|
                n < wal.next && n != sequence ==> #[trigger] new.operations[n]
                    == wal.operations[n]
        }),
{
    let (sequence, _) = wal.next_uncommitted()->0;
    let new = wal.commit(sequence);
    lemma_next_uncommitted(wal);
    assert forall|n: u64| n < new.next implies ((#[trigger] new.operations[n]).committed_to_redis
        <==> 1 <= n <= new.last) by {
        if n != sequence {
            assert(new.operations[n] == wal.operations[n]);
        }
    }
    lemma_next_uncommitted(new);
}

/// In a well-formed log an operation is next exactly where operations are pending.
proof fn lemma_next_uncommitted(wal: Wal)
    requires
        wal.well_formed(),
    ensures
        wal.next_uncommitted() is Some <==> wal.pending() > 0,
        wal.next_uncommitted() matches Some(found) ==> found == (
            (wal.last + 1) as u64,
            wal.operations[(wal.last + 1) as u64],
        ) && wal.last + 1 < wal.next,
{
    if wal.last + 1 < wal.next {
        let n = (wal.last + 1) as u64;
        assert(wal.operations.contains_key(n));
        assert(!wal.operations[n].committed_to_redis);
    } else if wal.last < u64::MAX {
        assert(!wal.operations.contains_key((wal.last + 1) as u64));
    }
}

/// Draining a log gives the operations behind the last committed one, each once, in the order in
/// which they were appended, and leaves nothing to be carried out.
pub proof fn law_delivery_in_order(wal: Wal, rounds: nat)
    requires
        wal.well_formed(),
        rounds >= wal.pending(),
    ensures
        wal.delivered(rounds) == Seq::new(
            wal.pending(),
            |i: int|
                ((wal.last + 1 + i) as u64, wal.operations[(wal.last + 1 + i) as u64]),
        ),
        wal.drained(rounds).well_formed(),
        wal.drained(rounds).next_uncommitted() is None,
        wal.drained(rounds).next == wal.next,
    decreases rounds,
{
    lemma_next_uncommitted(wal);
    let expected = Seq::new(
        wal.pending(),
        |i: int| ((wal.last + 1 + i) as u64, wal.operations[(wal.last + 1 + i) as u64]),
    );
    if wal.pending() > 0 {
        let (sequence, _) = wal.next_uncommitted()->0;
        let new = wal.commit(sequence);
        law_commit_advances(wal);
        law_delivery_in_order(new, (rounds - 1) as nat);
        let rest = new.delivered((rounds - 1) as nat);
        assert forall|i: int| 0 <= i < rest.len() implies rest[i] == expected[i + 1] by {
            let n = (new.last + 1 + i) as u64;
            assert(new.operations[n] == wal.operations[n]);
        }
        assert(wal.delivered(rounds) =~= seq![wal.next_uncommitted()->0] + rest);
        assert(wal.delivered(rounds) =~= expected);
    } else {
        assert(wal.delivered(rounds) =~= expected);
    }
}

/// The operation with the sequence number zero, the first of a log, is never given: draining
/// starts behind the last committed sequence number, which is zero where none was committed.
pub proof fn law_first_operation_is_not_delivered(wal: Wal, rounds: nat)
    requires
        wal.well_formed(),
        rounds >= wal.pending(),
    ensures
        forall|i: int|
            0 <= i < wal.delivered(rounds).len() ==> (#[trigger] wal.delivered(rounds)[i]).0 >= 1,
        wal.next > 0 ==> !wal.drained(rounds).operations[0].committed_to_redis,
{
    law_delivery_in_order(wal, rounds);
}

/// A command that is appended to a log behind its first operation is given unchanged when the log
/// is drained, behind everything that was appended before it.
pub proof fn law_appended_message_is_delivered(wal: Wal, message: CommandView, rounds: nat)
    requires
        wal.well_formed(),
        0 < wal.next < u64::MAX,
        !message.committed_to_redis,
        rounds >= wal.append(logged(message)).pending(),
    ensures
        ({
            let delivered = wal.append(logged(message)).delivered(rounds);
            &&& delivered.len() > 0
            &&& delivered.last() == (wal.next, logged(message))
            &&& unlogged(logged(message)) == Some(message)
        }),
{
    law_logged_command_round_trip(message, logged(message));
    law_append_keeps_operations(wal, logged(message));
    law_delivery_in_order(wal.append(logged(message)), rounds);
}

/// A command that is appended to a log with at least one operation, all of them but the first
/// carried out, is the one that is read next, unchanged.
pub proof fn law_read_after_write(wal: Wal, message: CommandView)
    requires
        wal.well_formed(),
        wal.next == wal.last + 1,
        wal.next < u64::MAX,
        !message.committed_to_redis,
    ensures
        ({
            let new = wal.append(logged(message));
            &&& new.next_uncommitted() == Some((wal.next, logged(message)))
            &&& unlogged(logged(message)) == Some(message)
        }),
{
    law_logged_command_round_trip(message, logged(message));
    law_append_keeps_operations(wal, logged(message));
    lemma_next_uncommitted(wal.append(logged(message)));
}

/// The keys of the log have these texts.
pub proof fn law_wal_key_texts(sequence: u64)
    ensures
        RedisWALKey::NextOperationSequence.bytes() == utf8("RedisWal/NextOperationSequence"@),
        RedisWALKey::LastCommittedOperationSequence.bytes() == utf8(
            "RedisWal/LastCommittedOperationSequence"@,
        ),
        RedisWALKey::GetKeyForOperationSequence(sequence).bytes() == utf8(
            "RedisWal/OperationSequence/"@ + decimal(sequence as nat),
        ),
{
}

/// The sequence number that is read from stored bytes is the number that the bytes stand for,
/// whatever number it is, and zero where nothing is stored.
pub proof fn law_sequence_is_the_number_stored(bytes: Seq<u8>, slice: &[u8])
    ensures
        stored_sequence(Some(bytes)) == json_u64(bytes),
        stored_sequence(None) == Some(0u64),
        stored_bytes(Some(slice)) == Some(slice@),
        stored_bytes(None) is None,
{
}

/// What stands in the store under a key as a sequence number, if anything does.
pub open spec fn bytes_at(store: Map<Seq<u8>, Stored>, key: RedisWALKey) -> Option<Seq<u8>> {
    if store.contains_key(key.bytes()) {
        match store[key.bytes()] {
            Stored::Number(bytes) => Some(bytes),
            Stored::Operation(_) => None,
        }
    } else {
        None
    }
}

/// From a store that holds a log, the next sequence number and the last committed one are read as
/// what they are in the log.
pub proof fn law_sequences_of_the_log_are_read(store: Map<Seq<u8>, Stored>, wal: Wal)
    requires
        holds(store, wal),
    ensures
        stored_sequence(bytes_at(store, RedisWALKey::NextOperationSequence)) == Some(wal.next),
        stored_sequence(bytes_at(store, RedisWALKey::LastCommittedOperationSequence)) == Some(
            wal.last,
        ),
{
}

/// What an append writes: the command, with the name of its operation type, its key, its payload
/// and its mark, under the sequence number that was next, and a next sequence number that is read
/// back as one more, so that no two appends in a row write the same operation.
pub proof fn law_append_writes_the_command(entry: WalAppend, n: u64, message: CommandView)
    requires
        n < u64::MAX,
        appends(entry, n, message),
    ensures
        entry.operation_key@ == utf8("RedisWal/OperationSequence/"@ + decimal(n as nat)),
        entry.operation@.op_type == (match message.op_type {
            DatabaseOperation::Insert => "Insert"@,
            DatabaseOperation::Update => "Update"@,
            DatabaseOperation::Delete => "Delete"@,
            DatabaseOperation::Close => "Close"@,
        }),
        entry.operation@.key == message.key,
        entry.operation@.payload == message.payload,
        entry.operation@.committed_to_redis == message.committed_to_redis,
        entry.sequence_key@ == utf8("RedisWal/NextOperationSequence"@),
        entry.sequence@ == utf8(decimal((n + 1) as nat)),
        stored_sequence(Some(entry.sequence@)) == Some((n + 1) as u64),
        RedisWALKey::GetKeyForOperationSequence((n + 1) as u64).bytes() != entry.operation_key@,
{
    law_wal_keys_distinct(
        RedisWALKey::GetKeyForOperationSequence((n + 1) as u64),
        RedisWALKey::GetKeyForOperationSequence(n),
    );
}

/// What a commit writes: the same operation but for the mark, which is set, under its own sequence
/// number, and that sequence number, which is read back as the last committed one.
pub proof fn law_commit_writes_the_mark(entry: WalCommit, n: u64, operation: LoggedCommandView)
    requires
        commits(entry, n, operation),
    ensures
        entry.operation_key@ == utf8("RedisWal/OperationSequence/"@ + decimal(n as nat)),
        entry.operation@.op_type == operation.op_type,
        entry.operation@.key == operation.key,
        entry.operation@.payload == operation.payload,
        entry.operation@.committed_to_redis,
        entry.sequence_key@ == utf8("RedisWal/LastCommittedOperationSequence"@),
        entry.sequence@ == utf8(decimal(n as nat)),
        stored_sequence(Some(entry.sequence@)) == Some(n),
{
}

/// The texts of the errors of the log.
pub proof fn law_wal_error_texts(error: WalError, cause: Seq<char>)
    ensures
        error.text(cause) == (match error {
            WalError::Sequence(_) => cause,
            WalError::UnknownOperation { text } => text@,
            WalError::AlreadyCommitted { sequence } => "Operation with sequence "@ + decimal(
                sequence as nat,
            ) + " is already committed to Redis. Aborting."@,
            WalError::NotFound { sequence } => "Operation with sequence "@ + decimal(
                sequence as nat,
            ) + " not found"@,
        }),
{
}

} // verus!
