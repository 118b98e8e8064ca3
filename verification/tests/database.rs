use std::collections::HashMap;

use bytes::Bytes;
use redis_cache::command::DatabaseOperation;
use redis_cache::config::{CacheConfig, DatabaseConfig, TraderId, UUID4};
use redis_cache::database::{
    is_redis_connection_alive, ping, send_failure, ReadStep, RedisCacheDatabase,
};
use redis_cache::dirty::DirtyFlag;
use redis_cache::error::CacheError;
use redis_cache::pipeline::Storage;
use redis_cache::read::{decode_reply, read_index, ReadReply};
use redis_cache::scan::{scan_keys, ScanStep, REDIS_SCAN_BATCH_SIZE};

const CLEAN: DirtyFlag = DirtyFlag { dirty: false };
const DIRTY: DirtyFlag = DirtyFlag { dirty: true };

fn resp(args: &[&str]) -> Vec<u8> {
    let mut out = format!("*{}\r\n", args.len()).into_bytes();
    for arg in args {
        out.extend_from_slice(format!("${}\r\n{}\r\n", arg.len(), arg).as_bytes());
    }
    out
}

fn config(use_instance_id: bool) -> CacheConfig {
    CacheConfig {
        database: Some(DatabaseConfig { url: "redis://localhost".to_string() }),
        use_instance_id,
        ..CacheConfig::default()
    }
}

fn database(use_instance_id: bool) -> RedisCacheDatabase {
    RedisCacheDatabase::new(
        TraderId { value: "t".to_string() },
        UUID4 { value: "0a".to_string() },
        &config(use_instance_id),
    )
    .unwrap()
}

fn asked(key: &str) -> (Storage, Vec<u8>) {
    match database(false).read(&CLEAN, false, key) {
        ReadStep::Fetch(request) => (request.storage, request.command.get_packed_command()),
        _ => panic!("expected a request"),
    }
}

fn refusal(use_instance_id: bool, key: &str) -> CacheError {
    match database(use_instance_id).read(&CLEAN, false, key) {
        ReadStep::Refuse(error) => error,
        _ => panic!("expected a refusal"),
    }
}

#[test]
fn a_database_has_the_key_of_its_trader() {
    assert_eq!(database(false).trader_id.value, "t");
    assert_eq!(database(false).trader_key, "trader-t");
    assert_eq!(database(true).trader_key, "trader-t:0a");
}

#[test]
fn a_database_needs_a_configuration() {
    let result = RedisCacheDatabase::new(
        TraderId { value: "t".to_string() },
        UUID4 { value: "0a".to_string() },
        &CacheConfig::default(),
    );
    assert_eq!(result.err(), Some(CacheError::NoDatabaseConfig));
}

#[test]
fn a_database_gives_commands() {
    let payload = Some(vec![Bytes::copy_from_slice(b"v")]);
    let db = database(false);
    let cases = [
        (DatabaseOperation::Insert, db.insert("a:b".to_string(), payload.clone())),
        (DatabaseOperation::Update, db.update("a:b".to_string(), payload.clone())),
        (DatabaseOperation::Delete, db.delete("a:b".to_string(), payload.clone())),
    ];
    for (op, cmd) in cases {
        assert_eq!(cmd.op_type, op);
        assert_eq!(cmd.key.as_deref(), Some("a:b"));
        assert_eq!(cmd.payload, payload);
        assert!(!cmd.committed_to_redis);
    }
    assert_eq!(db.close().op_type, DatabaseOperation::Close);
    assert_eq!(db.close().key, None);
    assert_eq!(db.flushdb().get_packed_command(), resp(&["FLUSHDB"]));
    assert_eq!(
        send_failure("channel closed"),
        "Failed to process command: Failed to send command: channel closed"
    );
}

#[test]
fn a_connection_is_alive_where_it_answers() {
    assert_eq!(ping().get_packed_command(), resp(&["PING"]));
    assert!(is_redis_connection_alive(Some("PONG")));
    assert!(!is_redis_connection_alive(Some("pong")));
    assert!(!is_redis_connection_alive(Some("")));
    assert!(!is_redis_connection_alive(None));
}

#[test]
fn a_read_drains_where_the_flag_is_set() {
    let db = database(false);
    assert!(matches!(db.read(&DIRTY, false, "orders:a"), ReadStep::Drain));
    assert!(matches!(db.read(&DIRTY, true, "orders:a"), ReadStep::Fetch(_)));
    assert!(matches!(db.read(&CLEAN, false, "orders:a"), ReadStep::Fetch(_)));
    assert!(matches!(db.read(&DIRTY, false, "none"), ReadStep::Drain));
    assert!(matches!(db.read(&DIRTY, true, "none"), ReadStep::Refuse(_)));
}

#[test]
fn single_values_are_read() {
    for collection in
        ["general", "currencies", "instruments", "synthetics", "actors", "strategies"]
    {
        let target = format!("trader-t:{collection}:a");
        assert_eq!(
            asked(&format!("{collection}:a")),
            (Storage::Single, resp(&["GET", &target]))
        );
    }
}

#[test]
fn lists_are_read() {
    for collection in ["accounts", "orders", "positions"] {
        let target = format!("trader-t:{collection}:a");
        assert_eq!(
            asked(&format!("{collection}:a")),
            (Storage::List, resp(&["LRANGE", &target, "0", "-1"]))
        );
    }
}

#[test]
fn indexes_are_read() {
    for index in [
        "index:order_ids",
        "index:orders",
        "index:orders_open",
        "index:orders_closed",
        "index:orders_emulated",
        "index:orders_inflight",
        "index:positions",
        "index:positions_open",
        "index:positions_closed",
    ] {
        let target = format!("trader-t:{index}");
        assert_eq!(asked(index), (Storage::Members, resp(&["SMEMBERS", &target])));
    }
    for index in ["index:order_position", "index:order_client"] {
        let target = format!("trader-t:{index}");
        assert_eq!(asked(index), (Storage::Fields, resp(&["HGETALL", &target])));
    }
}

#[test]
fn reads_are_refused() {
    for collection in ["snapshots", "health", "other"] {
        assert_eq!(
            refusal(false, &format!("{collection}:a")),
            CacheError::UnsupportedRead { collection: collection.to_string() }
        );
    }
    assert_eq!(
        refusal(false, "orders"),
        CacheError::MissingDelimiter { key: "orders".to_string() }
    );
    assert_eq!(
        refusal(false, "index:other"),
        CacheError::UnknownIndexOnRead { index_key: "index:other".to_string() }
    );
    assert_eq!(
        refusal(true, "index:orders"),
        CacheError::UnknownIndexOnRead { index_key: "0a:index:orders".to_string() }
    );
    assert_eq!(
        read_index("none").err().unwrap(),
        CacheError::MissingDelimiter { key: "none".to_string() }
    );
}

#[test]
fn replies_become_values() {
    assert_eq!(decode_reply(ReadReply::Single(Vec::new())).unwrap(), Vec::<Bytes>::new());
    assert_eq!(
        decode_reply(ReadReply::Single(b"v".to_vec())).unwrap(),
        vec![Bytes::copy_from_slice(b"v")]
    );
    let items = vec![Bytes::copy_from_slice(b"v"), Bytes::new()];
    assert_eq!(decode_reply(ReadReply::Values(items.clone())).unwrap(), items);
}

#[test]
fn fields_become_one_object() {
    let mut fields = HashMap::new();
    assert_eq!(
        decode_reply(ReadReply::Fields(fields.clone())).unwrap(),
        vec![Bytes::copy_from_slice(b"{}")]
    );
    fields.insert("O-1".to_string(), "P-\"1\"".to_string());
    assert_eq!(
        decode_reply(ReadReply::Fields(fields.clone())).unwrap(),
        vec![Bytes::copy_from_slice(b"{\"O-1\":\"P-\\\"1\\\"\"}")]
    );
    fields.insert("O-2".to_string(), "P-2".to_string());
    let values = decode_reply(ReadReply::Fields(fields.clone())).unwrap();
    assert_eq!(values.len(), 1);
    let back: HashMap<String, String> = serde_json::from_slice(values[0].as_ref()).unwrap();
    assert_eq!(back, fields);
}

#[test]
fn keys_are_scanned_under_the_trader_key() {
    assert!(matches!(database(false).keys(false, "orders*"), ScanStep::Drain));
    for (use_instance_id, expected) in [(false, "trader-t:orders*"), (true, "trader-t:0a:orders*")]
    {
        match database(use_instance_id).keys(true, "orders*") {
            ScanStep::Scan(scan) => assert_eq!(scan.pattern, expected),
            ScanStep::Drain => panic!("expected a scan"),
        }
    }
}

#[test]
fn a_scan_asks_from_its_cursor() {
    assert_eq!(REDIS_SCAN_BATCH_SIZE, 100);
    let mut scan = scan_keys("p*".to_string());
    assert!(!scan.done);
    assert_eq!(
        scan.command().get_packed_command(),
        resp(&["SCAN", "0", "MATCH", "p*", "COUNT", "100"])
    );
    scan.absorb(17592186044416, vec!["p1".to_string(), "p2".to_string()]);
    assert!(!scan.done);
    assert_eq!(
        scan.command().get_packed_command(),
        resp(&["SCAN", "17592186044416", "MATCH", "p*", "COUNT", "100"])
    );
    scan.absorb(3, Vec::new());
    assert!(!scan.done);
    scan.absorb(0, vec!["p1".to_string()]);
    assert!(scan.done);
    assert_eq!(scan.keys, vec!["p1".to_string(), "p2".to_string(), "p1".to_string()]);
}
