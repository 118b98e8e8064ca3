use bytes::Bytes;
use redis_cache::command::{DatabaseCommand, DatabaseOperation};
use redis_cache::error::CacheError;
use redis_cache::pipeline::{
    delete, drain_single_message, insert, insert_index, is_drainable, query_failure, remove_index,
    update,
};

/// A command in the notation of the Redis protocol.
fn resp(args: &[&str]) -> Vec<u8> {
    let mut out = format!("*{}\r\n", args.len()).into_bytes();
    for arg in args {
        out.extend_from_slice(format!("${}\r\n{}\r\n", arg.len(), arg).as_bytes());
    }
    out
}

/// A transaction of one command, or of none.
fn transaction(command: Option<&[&str]>) -> Vec<u8> {
    let mut out = resp(&["MULTI"]);
    if let Some(args) = command {
        out.extend(resp(args));
    }
    out.extend(resp(&["EXEC"]));
    out
}

fn payload(items: &[&str]) -> Option<Vec<Bytes>> {
    Some(items.iter().map(|item| Bytes::copy_from_slice(item.as_bytes())).collect())
}

fn command(op: DatabaseOperation, key: &str, items: Option<Vec<Bytes>>) -> DatabaseCommand {
    DatabaseCommand::new(op, key.to_string(), items)
}

fn sent(op: DatabaseOperation, key: &str, items: Option<Vec<Bytes>>) -> Vec<u8> {
    let message = command(op, key, items);
    assert!(is_drainable("trader-t", &message));
    drain_single_message("trader-t", &message).ok().unwrap().get_packed_pipeline()
}

fn refused(op: DatabaseOperation, key: &str, items: Option<Vec<Bytes>>) -> CacheError {
    let message = command(op, key, items);
    assert!(is_drainable("trader-t", &message));
    drain_single_message("trader-t", &message).err().unwrap()
}

const INSERT: DatabaseOperation = DatabaseOperation::Insert;
const UPDATE: DatabaseOperation = DatabaseOperation::Update;
const DELETE: DatabaseOperation = DatabaseOperation::Delete;

#[test]
fn insert_sets_single_values() {
    for collection in
        ["general", "currencies", "instruments", "synthetics", "actors", "strategies", "health"]
    {
        let key = format!("{collection}:a");
        let target = format!("trader-t:{collection}:a");
        assert_eq!(
            sent(INSERT, &key, payload(&["v", "w"])),
            transaction(Some(&["SET", &target, "v"]))
        );
    }
}

#[test]
fn insert_pushes_to_lists() {
    for collection in ["accounts", "orders", "positions", "snapshots"] {
        let key = format!("{collection}:a");
        let target = format!("trader-t:{collection}:a");
        assert_eq!(
            sent(INSERT, &key, payload(&["v"])),
            transaction(Some(&["RPUSH", &target, "v"]))
        );
    }
}

#[test]
fn insert_adds_to_sets_of_indexes() {
    for index in [
        "index:order_ids",
        "index:orders",
        "index:orders_open",
        "index:orders_closed",
        "index:orders_emulated",
        "index:orders_inflight",
        "index:positions",
        "index:positions_open",
        "index:positions_closed",
    ] {
        let target = format!("trader-t:{index}");
        assert_eq!(
            sent(INSERT, index, payload(&["v"])),
            transaction(Some(&["SADD", &target, "v"]))
        );
    }
}

#[test]
fn insert_sets_fields_of_indexes() {
    for index in ["index:order_position", "index:order_client"] {
        let target = format!("trader-t:{index}");
        assert_eq!(
            sent(INSERT, index, payload(&["f", "v"])),
            transaction(Some(&["HSET", &target, "f", "v"]))
        );
    }
}

#[test]
fn insert_is_refused() {
    assert_eq!(
        refused(INSERT, "other:a", payload(&["v"])),
        CacheError::UnsupportedInsert { collection: "other".to_string() }
    );
    assert_eq!(
        refused(INSERT, "index:other", payload(&["v"])),
        CacheError::UnknownIndexOnInsert { index_key: "index:other".to_string() }
    );
    assert_eq!(refused(INSERT, "orders:a", payload(&[])), CacheError::EmptyValue);
    assert_eq!(
        refused(INSERT, "orders", payload(&["v"])),
        CacheError::MissingDelimiter { key: "orders".to_string() }
    );
}

#[test]
fn update_pushes_to_lists_that_exist() {
    for collection in ["accounts", "orders", "positions"] {
        let key = format!("{collection}:a");
        let target = format!("trader-t:{collection}:a");
        assert_eq!(
            sent(UPDATE, &key, payload(&["v"])),
            transaction(Some(&["RPUSHX", &target, "v"]))
        );
    }
}

#[test]
fn update_is_refused() {
    for collection in ["snapshots", "general", "index", "other"] {
        assert_eq!(
            refused(UPDATE, &format!("{collection}:a"), payload(&["v"])),
            CacheError::UnsupportedUpdate { collection: collection.to_string() }
        );
    }
    assert_eq!(refused(UPDATE, "orders:a", payload(&[])), CacheError::EmptyValue);
}

#[test]
fn delete_drops_keys() {
    for collection in ["actors", "strategies"] {
        let key = format!("{collection}:a");
        let target = format!("trader-t:{collection}:a");
        assert_eq!(sent(DELETE, &key, None), transaction(Some(&["DEL", &target])));
        assert_eq!(
            sent(DELETE, &key, payload(&["v"])),
            transaction(Some(&["DEL", &target]))
        );
    }
}

#[test]
fn delete_removes_members_of_indexes() {
    for index in [
        "index:orders_open",
        "index:orders_closed",
        "index:orders_emulated",
        "index:orders_inflight",
        "index:positions_open",
        "index:positions_closed",
    ] {
        let target = format!("trader-t:{index}");
        assert_eq!(
            sent(DELETE, index, payload(&["v"])),
            transaction(Some(&["SREM", &target, "v"]))
        );
    }
}

#[test]
fn delete_is_refused() {
    assert_eq!(
        refused(DELETE, "orders:a", None),
        CacheError::UnsupportedDelete { collection: "orders".to_string() }
    );
    assert_eq!(
        refused(DELETE, "index:orders_open", None),
        CacheError::MissingPayload { key: "trader-t:index:orders_open".to_string() }
    );
    assert_eq!(
        refused(DELETE, "index:orders", payload(&["v"])),
        CacheError::UnsupportedIndexRemove { index_key: "index:orders".to_string() }
    );
    assert_eq!(
        refused(DELETE, "index:orders", payload(&[])),
        CacheError::UnsupportedIndexRemove { index_key: "index:orders".to_string() }
    );
}

#[test]
fn commands_without_work_send_nothing() {
    assert_eq!(sent(INSERT, "orders:a", None), transaction(None));
    assert_eq!(sent(UPDATE, "orders:a", None), transaction(None));
    assert_eq!(sent(DatabaseOperation::Close, "orders:a", None), transaction(None));
}

#[test]
fn commands_that_cannot_be_drained() {
    assert!(!is_drainable("trader-t", &DatabaseCommand::close()));
    assert!(!is_drainable("t", &command(INSERT, "index:order_client", payload(&["f"]))));
    assert!(!is_drainable("t", &command(DELETE, "index:orders_open", payload(&[]))));
    assert!(is_drainable("t", &command(INSERT, "index:order_client", payload(&[]))));
    assert!(is_drainable("t", &command(INSERT, "index:order_client", payload(&["f", "v"]))));
}

#[test]
fn an_instance_id_in_the_trader_key_refuses_indexes() {
    let trader_key = "trader-t:0a";
    let message = command(INSERT, "index:orders", payload(&["v"]));
    assert!(is_drainable(trader_key, &message));
    assert_eq!(
        drain_single_message(trader_key, &message).err().unwrap(),
        CacheError::UnknownIndexOnInsert { index_key: "0a:index:orders".to_string() }
    );
    let message = command(DELETE, "index:orders_open", payload(&["v"]));
    assert_eq!(
        drain_single_message(trader_key, &message).err().unwrap(),
        CacheError::UnsupportedIndexRemove { index_key: "0a:index:orders_open".to_string() }
    );
    let message = command(INSERT, "orders:a", payload(&["v"]));
    assert_eq!(
        drain_single_message(trader_key, &message).ok().unwrap().get_packed_pipeline(),
        transaction(Some(&["RPUSH", "trader-t:0a:orders:a", "v"]))
    );
}

#[test]
fn pipelines_keep_what_they_hold() {
    let value = payload(&["f", "v"]).unwrap();
    let mut pipe = redis::pipe();
    assert!(insert(&mut pipe, "general", "k:a", &value).is_ok());
    assert!(update(&mut pipe, "orders", "k:b", &value).is_ok());
    assert!(insert_index(&mut pipe, "k:index:order_client", &value).is_ok());
    assert!(update(&mut pipe, "general", "k:c", &value).is_err());
    assert!(delete(&mut pipe, "actors", "k:d", &None).is_ok());
    assert!(remove_index(&mut pipe, "k:index:orders_open", &Some(value)).is_ok());
    assert_eq!(
        remove_index(&mut pipe, "nothing", &payload(&["v"])),
        Err(CacheError::MissingDelimiter { key: "nothing".to_string() })
    );
    let mut expected = resp(&["SET", "k:a", "f"]);
    expected.extend(resp(&["RPUSHX", "k:b", "f"]));
    expected.extend(resp(&["HSET", "k:index:order_client", "f", "v"]));
    expected.extend(resp(&["DEL", "k:d"]));
    expected.extend(resp(&["SREM", "k:index:orders_open", "f"]));
    assert_eq!(pipe.get_packed_pipeline(), expected);
}

#[test]
fn an_insert_into_no_index_reads_no_item() {
    let mut pipe = redis::pipe();
    assert_eq!(
        insert_index(&mut pipe, "no_delimiter", &Vec::new()),
        Err(CacheError::MissingDelimiter { key: "no_delimiter".to_string() })
    );
    assert_eq!(
        insert_index(&mut pipe, "t:index:other", &Vec::new()),
        Err(CacheError::UnknownIndexOnInsert { index_key: "index:other".to_string() })
    );
    assert_eq!(pipe.get_packed_pipeline(), Vec::<u8>::new());
}

#[test]
fn a_failed_query_has_a_text() {
    assert_eq!(query_failure("broken pipe"), "Redis pipeline query failed: broken pipe");
}

#[test]
fn payloads_need_not_be_text() {
    let message = DatabaseCommand::new(
        INSERT,
        "general:a".to_string(),
        Some(vec![Bytes::from(vec![0u8, 255, 13, 10])]),
    );
    let mut expected = resp(&["MULTI"]);
    expected.extend_from_slice(b"*3\r\n$3\r\nSET\r\n$18\r\ntrader-t:general:a\r\n$4\r\n");
    expected.extend_from_slice(&[0u8, 255, 13, 10]);
    expected.extend_from_slice(b"\r\n");
    expected.extend(resp(&["EXEC"]));
    assert_eq!(
        drain_single_message("trader-t", &message).ok().unwrap().get_packed_pipeline(),
        expected
    );
}
