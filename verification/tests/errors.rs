use redis_cache::error::CacheError;

fn s(text: &str) -> String {
    text.to_string()
}

#[test]
fn error_texts_with_a_part() {
    assert_eq!(
        CacheError::MissingDelimiter { key: s("k") }.message(),
        "Invalid `key`, missing a ':' delimiter, was k"
    );
    assert_eq!(
        CacheError::UnsupportedRead { collection: s("health") }.message(),
        "Unsupported operation: `read` for collection 'health'"
    );
    assert_eq!(
        CacheError::UnsupportedInsert { collection: s("x") }.message(),
        "Unsupported operation: `insert` for collection 'x'"
    );
    assert_eq!(
        CacheError::UnsupportedUpdate { collection: s("x") }.message(),
        "Unsupported operation: `update` for collection 'x'"
    );
    assert_eq!(
        CacheError::UnsupportedDelete { collection: s("x") }.message(),
        "Unsupported operation: `delete` for collection 'x'"
    );
    assert_eq!(
        CacheError::UnknownIndexOnRead { index_key: s("i") }.message(),
        "Index unknown 'i' on read"
    );
    assert_eq!(
        CacheError::UnknownIndexOnInsert { index_key: s("i") }.message(),
        "Index unknown 'i' on insert"
    );
    assert_eq!(
        CacheError::UnsupportedIndexRemove { index_key: s("i") }.message(),
        "Unsupported index operation: remove from 'i'"
    );
    assert_eq!(
        CacheError::MissingPayload { key: s("k") }.message(),
        "Empty `payload` for `delete` 'k'"
    );
}

#[test]
fn error_texts_without_a_part() {
    assert_eq!(CacheError::EmptyValue.message(), "the 'value' slice was empty");
    assert_eq!(CacheError::NoDatabaseConfig.message(), "No database config");
    assert_eq!(CacheError::GlobalConfigUnset.message(), "Global db_config is not set");
    assert_eq!(
        CacheError::SaveMarketData.message(),
        "Saving market data for Redis cache adapter not supported"
    );
    assert_eq!(
        CacheError::LoadQuotes.message(),
        "Loading quote data for Redis cache adapter not supported"
    );
    assert_eq!(
        CacheError::LoadMarketData.message(),
        "Loading market data for Redis cache adapter not supported"
    );
    assert_eq!(
        CacheError::SaveSignals.message(),
        "Saving signals for Redis cache adapter not supported"
    );
    assert_eq!(
        CacheError::LoadSignals.message(),
        "Loading signals from Redis cache adapter not supported"
    );
    assert_eq!(
        CacheError::SaveCustomData.message(),
        "Saving custom data for Redis cache adapter not supported"
    );
    assert_eq!(
        CacheError::LoadCustomData.message(),
        "Loading custom data from Redis cache adapter not supported"
    );
}
