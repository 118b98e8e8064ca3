use bytes::Bytes;
use redis_cache::command::{DatabaseCommand, DatabaseOperation, SerializableDatabaseCommand};

const OPERATIONS: [(DatabaseOperation, &str); 4] = [
    (DatabaseOperation::Insert, "Insert"),
    (DatabaseOperation::Update, "Update"),
    (DatabaseOperation::Delete, "Delete"),
    (DatabaseOperation::Close, "Close"),
];

#[test]
fn operations_have_names() {
    for (op, name) in OPERATIONS {
        assert_eq!(op.name(), name);
        assert_eq!(DatabaseOperation::parse(name), Some(op));
    }
    assert_eq!(DatabaseOperation::parse("insert"), None);
}

#[test]
fn new_commands_are_not_committed() {
    let payload = Some(vec![Bytes::copy_from_slice(b"v")]);
    let cmd = DatabaseCommand::new(DatabaseOperation::Update, "a:b".to_string(), payload.clone());
    assert_eq!(cmd.op_type, DatabaseOperation::Update);
    assert_eq!(cmd.key.as_deref(), Some("a:b"));
    assert_eq!(cmd.payload, payload);
    assert!(!cmd.committed_to_redis);
}

#[test]
fn the_close_command_has_nothing() {
    let cmd = DatabaseCommand::close();
    assert_eq!(cmd.op_type, DatabaseOperation::Close);
    assert_eq!(cmd.key, None);
    assert_eq!(cmd.payload, None);
    assert!(!cmd.committed_to_redis);
}

#[test]
fn commands_are_read_back_from_their_logged_form() {
    for (op, name) in OPERATIONS {
        let cmd = DatabaseCommand {
            op_type: op,
            key: Some("a:b".to_string()),
            payload: Some(vec![Bytes::copy_from_slice(b"v"), Bytes::new()]),
            committed_to_redis: true,
        };
        let logged = SerializableDatabaseCommand::from(cmd.clone());
        assert_eq!(logged.op_type, name);
        let back = DatabaseCommand::try_from(logged).unwrap();
        assert_eq!(back.op_type, cmd.op_type);
        assert_eq!(back.key, cmd.key);
        assert_eq!(back.payload, cmd.payload);
        assert_eq!(back.committed_to_redis, cmd.committed_to_redis);
    }
}

#[test]
fn unknown_logged_operations_are_refused() {
    let logged = SerializableDatabaseCommand {
        op_type: "Drop".to_string(),
        key: None,
        payload: None,
        committed_to_redis: false,
    };
    assert_eq!(
        DatabaseCommand::try_from(logged).err().unwrap(),
        "Unknown operation type: Drop".to_string()
    );
}
