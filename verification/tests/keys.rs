use redis_cache::config::{get_trader_key, CacheConfig, TraderId, UUID4};
use redis_cache::error::CacheError;
use redis_cache::keys::{get_collection_key, get_index_key, Collection, IndexKey};

fn trader(value: &str) -> TraderId {
    TraderId { value: value.to_string() }
}

fn instance(value: &str) -> UUID4 {
    UUID4 { value: value.to_string() }
}

#[test]
fn test_get_trader_key_with_prefix_and_instance_id() {
    let trader_id = trader("tester-123");
    let instance_id = instance("2d89666b-1a1e-4a75-b193-4eb3b454c757");
    let mut config = CacheConfig::default();
    config.use_instance_id = true;

    let key = get_trader_key(&trader_id, &instance_id, &config);
    assert!(key.starts_with("trader-tester-123:"));
    assert!(key.ends_with(&instance_id.value));
    assert_eq!(key, "trader-tester-123:2d89666b-1a1e-4a75-b193-4eb3b454c757");
}

#[test]
fn trader_key_without_prefix_and_instance_id() {
    let mut config = CacheConfig::default();
    assert_eq!(get_trader_key(&trader("t-1"), &instance("i"), &config), "trader-t-1");
    config.use_trader_prefix = false;
    assert_eq!(get_trader_key(&trader("t-1"), &instance("i"), &config), "t-1");
    config.use_instance_id = true;
    assert_eq!(get_trader_key(&trader("t-1"), &instance("i"), &config), "t-1:i");
}

#[test]
fn test_get_collection_key_valid() {
    let key = "collection:123";
    assert_eq!(get_collection_key(key).unwrap(), "collection");
}

#[test]
fn test_get_collection_key_invalid() {
    let key = "no_delimiter";
    assert!(get_collection_key(key).is_err());
    assert_eq!(
        get_collection_key(key),
        Err(CacheError::MissingDelimiter { key: "no_delimiter".to_string() })
    );
}

#[test]
fn test_get_index_key_valid() {
    let key = "index:123";
    assert_eq!(get_index_key(key).unwrap(), "123");
}

#[test]
fn test_get_index_key_invalid() {
    let key = "no_delimiter";
    assert!(get_index_key(key).is_err());
}

#[test]
fn keys_are_cut_at_the_first_delimiter() {
    assert_eq!(get_collection_key("index:orders:a").unwrap(), "index");
    assert_eq!(get_index_key("index:orders:a").unwrap(), "orders:a");
    assert_eq!(get_collection_key(":").unwrap(), "");
    assert_eq!(get_index_key(":").unwrap(), "");
    assert!(get_collection_key("").is_err());
}

#[test]
fn keys_outside_ascii_are_cut_between_characters() {
    let key = "größe:日本:x";
    assert_eq!(get_collection_key(key).unwrap(), "größe");
    assert_eq!(get_index_key(key).unwrap(), "日本:x");
}

#[test]
fn a_key_is_its_parts() {
    for key in ["orders:1", "index:orders_open", "a::b", "日:"] {
        let whole = format!("{}:{}", get_collection_key(key).unwrap(), get_index_key(key).unwrap());
        assert_eq!(whole, key);
    }
}

#[test]
fn a_trader_key_is_cut_off() {
    let key = "trader-t:index:orders";
    assert_eq!(get_collection_key(key).unwrap(), "trader-t");
    assert_eq!(get_index_key(key).unwrap(), "index:orders");
}

#[test]
fn collections_are_known_by_name() {
    assert_eq!(Collection::parse("index"), Some(Collection::Index));
    assert_eq!(Collection::parse("general"), Some(Collection::General));
    assert_eq!(Collection::parse("currencies"), Some(Collection::Currencies));
    assert_eq!(Collection::parse("instruments"), Some(Collection::Instruments));
    assert_eq!(Collection::parse("synthetics"), Some(Collection::Synthetics));
    assert_eq!(Collection::parse("accounts"), Some(Collection::Accounts));
    assert_eq!(Collection::parse("orders"), Some(Collection::Orders));
    assert_eq!(Collection::parse("positions"), Some(Collection::Positions));
    assert_eq!(Collection::parse("actors"), Some(Collection::Actors));
    assert_eq!(Collection::parse("strategies"), Some(Collection::Strategies));
    assert_eq!(Collection::parse("snapshots"), Some(Collection::Snapshots));
    assert_eq!(Collection::parse("health"), Some(Collection::Health));
    assert_eq!(Collection::parse("Orders"), None);
    assert_eq!(Collection::parse(""), None);
}

#[test]
fn indexes_are_known_by_name() {
    assert_eq!(IndexKey::parse("index:order_ids"), Some(IndexKey::OrderIds));
    assert_eq!(IndexKey::parse("index:order_position"), Some(IndexKey::OrderPosition));
    assert_eq!(IndexKey::parse("index:order_client"), Some(IndexKey::OrderClient));
    assert_eq!(IndexKey::parse("index:orders"), Some(IndexKey::Orders));
    assert_eq!(IndexKey::parse("index:orders_open"), Some(IndexKey::OrdersOpen));
    assert_eq!(IndexKey::parse("index:orders_closed"), Some(IndexKey::OrdersClosed));
    assert_eq!(IndexKey::parse("index:orders_emulated"), Some(IndexKey::OrdersEmulated));
    assert_eq!(IndexKey::parse("index:orders_inflight"), Some(IndexKey::OrdersInflight));
    assert_eq!(IndexKey::parse("index:positions"), Some(IndexKey::Positions));
    assert_eq!(IndexKey::parse("index:positions_open"), Some(IndexKey::PositionsOpen));
    assert_eq!(IndexKey::parse("index:positions_closed"), Some(IndexKey::PositionsClosed));
    assert_eq!(IndexKey::parse("orders"), None);
}
