use redis_cache::adapter::{
    collect_loaded, identifier_of, Loaded, RedisCacheDatabaseAdapter, SerializationEncoding,
};
use redis_cache::command::DatabaseOperation;
use redis_cache::config::{CacheConfig, DatabaseConfig, TraderId, UUID4};
use redis_cache::database::RedisCacheDatabase;
use redis_cache::error::CacheError;
use redis_cache::scan::ScanStep;

fn adapter() -> RedisCacheDatabaseAdapter {
    let config = CacheConfig {
        database: Some(DatabaseConfig { url: "redis://localhost".to_string() }),
        ..CacheConfig::default()
    };
    let database = RedisCacheDatabase::new(
        TraderId { value: "t".to_string() },
        UUID4 { value: "0a".to_string() },
        &config,
    )
    .unwrap();
    RedisCacheDatabaseAdapter { encoding: SerializationEncoding::MsgPack, database }
}

#[test]
fn the_adapter_closes_and_flushes() {
    assert_eq!(adapter().close().op_type, DatabaseOperation::Close);
    assert_eq!(adapter().flush().get_packed_command(), b"*1\r\n$7\r\nFLUSHDB\r\n".to_vec());
    assert!(adapter().load().is_empty());
    assert_eq!(adapter().encoding, SerializationEncoding::MsgPack);
}

#[test]
fn the_adapter_scans_collections() {
    assert_eq!(adapter().load_currencies().pattern, "currencies*");
    assert_eq!(adapter().load_instruments().pattern, "instruments*");
    assert_eq!(adapter().load_synthetics().pattern, "synthetics*");
    assert_eq!(adapter().load_accounts().pattern, "accounts*");
    assert_eq!(adapter().load_orders().pattern, "orders*");
    assert!(matches!(adapter().load_positions(false), ScanStep::Drain));
    match adapter().load_positions(true) {
        ScanStep::Scan(scan) => assert_eq!(scan.pattern, "positions*"),
        ScanStep::Drain => panic!("expected a scan"),
    }
    assert_eq!(adapter().load_orders().cursor, 0);
    assert!(adapter().load_orders().keys.is_empty());
}

#[test]
fn identifiers_stand_behind_the_last_delimiter() {
    assert_eq!(identifier_of("currencies:USD"), "USD");
    assert_eq!(identifier_of("trader-t:orders:O-1"), "O-1");
    assert_eq!(identifier_of("orders:"), "");
    assert_eq!(identifier_of("orders"), "orders");
    assert_eq!(identifier_of("währung:€:¥"), "¥");
}

#[test]
fn loaded_values_are_kept_by_identifier() {
    let mut loaded: Loaded<u32> = Loaded::new();
    assert_eq!(loaded.len(), 0);
    loaded.record("USD".to_string(), Some(1));
    loaded.record("EUR".to_string(), Some(2));
    loaded.record("XXX".to_string(), None);
    loaded.record("USD".to_string(), Some(3));
    assert_eq!(loaded.len(), 2);
    assert_eq!(loaded.get("USD"), Some(&3));
    assert_eq!(loaded.get("EUR"), Some(&2));
    assert_eq!(loaded.get("XXX"), None);
    assert_eq!(loaded.missing(), &vec!["XXX".to_string()]);
}

#[test]
fn values_are_collected_by_the_identifiers_of_their_keys() {
    let keys: Vec<String> = ["a:currencies:USD", "currencies:EUR", "currencies:XXX", "b:USD"]
        .iter()
        .map(|key| key.to_string())
        .collect();
    let loaded = collect_loaded(&keys, vec![Some(1), Some(2), None, Some(3)]);
    assert_eq!(loaded.len(), 2);
    assert_eq!(loaded.get("USD"), Some(&3));
    assert_eq!(loaded.get("EUR"), Some(&2));
    assert_eq!(loaded.get("XXX"), None);
    assert_eq!(loaded.missing(), &vec!["XXX".to_string()]);
}

#[test]
fn market_data_signals_and_custom_data_are_refused() {
    let a = adapter();
    assert_eq!(a.add_order_book(&1), Err(CacheError::SaveMarketData));
    assert_eq!(a.add_quote(&1), Err(CacheError::SaveMarketData));
    assert_eq!(a.add_trade(&1), Err(CacheError::SaveMarketData));
    assert_eq!(a.add_bar(&1), Err(CacheError::SaveMarketData));
    assert_eq!(a.load_quotes::<u32>("I"), Err(CacheError::LoadQuotes));
    assert_eq!(a.load_trades::<u32>("I"), Err(CacheError::LoadMarketData));
    assert_eq!(a.load_bars::<u32>("I"), Err(CacheError::LoadMarketData));
    assert_eq!(a.add_signal(&1), Err(CacheError::SaveSignals));
    assert_eq!(a.load_signals::<u32>("s"), Err(CacheError::LoadSignals));
    assert_eq!(a.add_custom_data(&1), Err(CacheError::SaveCustomData));
    assert_eq!(a.load_custom_data::<u32>("d"), Err(CacheError::LoadCustomData));
}
