use std::collections::HashMap;

use bytes::Bytes;
use redis_cache::command::{DatabaseCommand, DatabaseOperation, SerializableDatabaseCommand};
use redis_cache::wal::{
    append_failure, append_message, commit_failure, commit_message, locate_next_operation,
    next_operation_key, read_next_uncommitted_wal_operation, read_sequence, write_to_wal_store,
    RedisWALKey, WalError,
};

/// A store in memory: sequence numbers and operations by their keys.
struct MemoryStore {
    numbers: HashMap<Vec<u8>, Vec<u8>>,
    operations: HashMap<Vec<u8>, SerializableDatabaseCommand>,
}

impl MemoryStore {
    fn new() -> Self {
        MemoryStore { numbers: HashMap::new(), operations: HashMap::new() }
    }

    fn number(&self, key: RedisWALKey) -> Option<&[u8]> {
        self.numbers.get(&key.as_bytes()).map(|bytes| bytes.as_slice())
    }

    fn append(&mut self, message: DatabaseCommand) {
        let stored = self.number(RedisWALKey::NextOperationSequence).map(|bytes| bytes.to_vec());
        let entry = append_message(stored.as_deref(), message).unwrap().unwrap();
        self.operations.insert(entry.operation_key, entry.operation);
        self.numbers.insert(entry.sequence_key, entry.sequence);
    }

    fn next(&self) -> Option<(u64, DatabaseCommand)> {
        let stored = self.number(RedisWALKey::LastCommittedOperationSequence);
        let (last, key) = locate_next_operation(stored).unwrap().unwrap();
        read_next_uncommitted_wal_operation(last, self.operations.get(&key).cloned()).unwrap()
    }

    fn commit(&mut self, sequence: u64) -> Result<(), WalError> {
        let key = RedisWALKey::GetKeyForOperationSequence(sequence).as_bytes();
        let entry = commit_message(sequence, self.operations.get(&key).cloned())?;
        self.operations.insert(entry.operation_key, entry.operation);
        self.numbers.insert(entry.sequence_key, entry.sequence);
        Ok(())
    }
}

fn message(key: &str) -> DatabaseCommand {
    DatabaseCommand::new(
        DatabaseOperation::Insert,
        key.to_string(),
        Some(vec![Bytes::copy_from_slice(b"v")]),
    )
}

fn logged(op_type: &str, committed: bool) -> SerializableDatabaseCommand {
    SerializableDatabaseCommand {
        op_type: op_type.to_string(),
        key: Some("orders:a".to_string()),
        payload: None,
        committed_to_redis: committed,
    }
}

#[test]
fn wal_keys() {
    assert_eq!(
        RedisWALKey::NextOperationSequence.as_bytes(),
        b"RedisWal/NextOperationSequence".to_vec()
    );
    assert_eq!(
        RedisWALKey::LastCommittedOperationSequence.as_bytes(),
        b"RedisWal/LastCommittedOperationSequence".to_vec()
    );
    assert_eq!(
        RedisWALKey::GetKeyForOperationSequence(0).as_bytes(),
        b"RedisWal/OperationSequence/0".to_vec()
    );
    assert_eq!(
        RedisWALKey::GetKeyForOperationSequence(1203).as_bytes(),
        b"RedisWal/OperationSequence/1203".to_vec()
    );
    assert_eq!(
        RedisWALKey::GetKeyForOperationSequence(u64::MAX).as_bytes(),
        b"RedisWal/OperationSequence/18446744073709551615".to_vec()
    );
}

#[test]
fn wal_keys_are_distinct() {
    let keys = [
        RedisWALKey::NextOperationSequence,
        RedisWALKey::LastCommittedOperationSequence,
        RedisWALKey::GetKeyForOperationSequence(1),
        RedisWALKey::GetKeyForOperationSequence(10),
        RedisWALKey::GetKeyForOperationSequence(11),
    ];
    for (i, a) in keys.iter().enumerate() {
        for (j, b) in keys.iter().enumerate() {
            assert_eq!(a.as_bytes() == b.as_bytes(), i == j);
        }
    }
}

#[test]
fn sequence_numbers_are_read() {
    assert_eq!(read_sequence(None).unwrap(), 0);
    assert_eq!(read_sequence(Some(b"41")).unwrap(), 41);
    assert!(matches!(read_sequence(Some(b"x")), Err(WalError::Sequence(_))));
    assert!(matches!(read_sequence(Some(b"")), Err(WalError::Sequence(_))));
    assert!(matches!(read_sequence(Some(b"-1")), Err(WalError::Sequence(_))));
}

#[test]
fn an_append_writes_the_operation_and_the_next_sequence_number() {
    let entry = write_to_wal_store(9, message("orders:a")).unwrap();
    assert_eq!(entry.operation_key, b"RedisWal/OperationSequence/9".to_vec());
    assert_eq!(entry.operation.op_type, "Insert");
    assert_eq!(entry.operation.key.as_deref(), Some("orders:a"));
    assert_eq!(entry.operation.payload, Some(vec![Bytes::copy_from_slice(b"v")]));
    assert!(!entry.operation.committed_to_redis);
    assert_eq!(entry.sequence_key, b"RedisWal/NextOperationSequence".to_vec());
    assert_eq!(entry.sequence, b"10".to_vec());
}

#[test]
fn an_append_needs_a_sequence_number() {
    assert!(matches!(append_message(Some(b"no"), message("a:b")), Err(WalError::Sequence(_))));
    assert!(append_message(Some(b"18446744073709551615"), message("a:b")).unwrap().is_none());
    assert!(append_message(Some(b"18446744073709551614"), message("a:b")).unwrap().is_some());
}

#[test]
fn the_next_operation_stands_behind_the_last_committed() {
    assert_eq!(next_operation_key(0), b"RedisWal/OperationSequence/1".to_vec());
    assert_eq!(
        locate_next_operation(None).unwrap(),
        Some((0, b"RedisWal/OperationSequence/1".to_vec()))
    );
    assert_eq!(
        locate_next_operation(Some(b"41")).unwrap(),
        Some((41, b"RedisWal/OperationSequence/42".to_vec()))
    );
    assert_eq!(locate_next_operation(Some(b"18446744073709551615")).unwrap(), None);
    assert!(matches!(locate_next_operation(Some(b"{}")), Err(WalError::Sequence(_))));
}

#[test]
fn only_uncommitted_operations_are_given() {
    assert!(read_next_uncommitted_wal_operation(4, None).unwrap().is_none());
    assert!(read_next_uncommitted_wal_operation(4, Some(logged("Insert", true)))
        .unwrap()
        .is_none());
    let (sequence, found) =
        read_next_uncommitted_wal_operation(4, Some(logged("Delete", false))).unwrap().unwrap();
    assert_eq!(sequence, 5);
    assert_eq!(found.op_type, DatabaseOperation::Delete);
    assert_eq!(found.key.as_deref(), Some("orders:a"));
}

#[test]
fn unknown_operation_types_are_refused() {
    let stored = Some(logged("Upsert", false));
    let error = read_next_uncommitted_wal_operation(4, stored).err().unwrap();
    assert!(matches!(error, WalError::UnknownOperation { .. }));
    assert_eq!(error.message(""), "Unknown operation type: Upsert");
}

#[test]
fn a_commit_marks_the_operation_and_writes_its_sequence_number() {
    let entry = commit_message(7, Some(logged("Update", false))).unwrap();
    assert_eq!(entry.operation_key, b"RedisWal/OperationSequence/7".to_vec());
    assert_eq!(entry.operation.op_type, "Update");
    assert!(entry.operation.committed_to_redis);
    assert_eq!(entry.sequence_key, b"RedisWal/LastCommittedOperationSequence".to_vec());
    assert_eq!(entry.sequence, b"7".to_vec());
}

#[test]
fn a_commit_is_refused() {
    let error = commit_message(7, Some(logged("Update", true))).err().unwrap();
    assert!(matches!(error, WalError::AlreadyCommitted { sequence: 7 }));
    assert_eq!(
        error.message(""),
        "Operation with sequence 7 is already committed to Redis. Aborting."
    );
    let error = commit_message(8, None).err().unwrap();
    assert!(matches!(error, WalError::NotFound { sequence: 8 }));
    assert_eq!(error.message(""), "Operation with sequence 8 not found");
    let error = read_sequence(Some(b"x")).err().unwrap();
    assert_eq!(error.message("cause"), "cause");
}

#[test]
fn failed_transactions_have_a_text() {
    assert_eq!(append_failure("disk full"), "Failed to commit transaction: disk full");
    assert_eq!(
        commit_failure(120, "disk full"),
        "Failed to commit operation with sequence 120: disk full"
    );
}

#[test]
fn operations_are_delivered_in_order_from_the_second_on() {
    let mut store = MemoryStore::new();
    for key in ["orders:a", "orders:b", "orders:c", "orders:d"] {
        store.append(message(key));
    }
    let mut delivered = Vec::new();
    while let Some((sequence, found)) = store.next() {
        delivered.push((sequence, found.key.unwrap()));
        store.commit(sequence).unwrap();
    }
    assert_eq!(
        delivered,
        vec![
            (1, "orders:b".to_string()),
            (2, "orders:c".to_string()),
            (3, "orders:d".to_string()),
        ]
    );
    let first = RedisWALKey::GetKeyForOperationSequence(0).as_bytes();
    assert!(!store.operations[&first].committed_to_redis);
}

#[test]
fn a_read_gives_back_what_was_written() {
    let mut store = MemoryStore::new();
    store.append(message("orders:a"));
    assert!(store.next().is_none());
    store.append(message("orders:b"));
    let (sequence, found) = store.next().unwrap();
    assert_eq!(sequence, 1);
    assert_eq!(found.key.as_deref(), Some("orders:b"));
    assert_eq!(found.payload, Some(vec![Bytes::copy_from_slice(b"v")]));
    assert!(!found.committed_to_redis);
}

#[test]
fn an_operation_is_committed_once() {
    let mut store = MemoryStore::new();
    store.append(message("orders:a"));
    store.append(message("orders:b"));
    assert!(store.commit(1).is_ok());
    assert!(matches!(store.commit(1), Err(WalError::AlreadyCommitted { sequence: 1 })));
    assert!(matches!(store.commit(2), Err(WalError::NotFound { sequence: 2 })));
}
