//! Errors of the cache database and their texts.
use vstd::prelude::*;

use crate::text::concat3;

verus! {

/// What the cache database refuses.
#[derive(Debug, PartialEq, Eq)]
pub enum CacheError {
    /// A key without a delimiter.
    MissingDelimiter { key: String },
    /// A collection that cannot be read.
    UnsupportedRead { collection: String },
    /// A collection that takes no insert.
    UnsupportedInsert { collection: String },
    /// A collection that takes no update.
    UnsupportedUpdate { collection: String },
    /// A collection that takes no delete.
    UnsupportedDelete { collection: String },
    /// An index that cannot be read.
    UnknownIndexOnRead { index_key: String },
    /// An index that takes no insert.
    UnknownIndexOnInsert { index_key: String },
    /// An index that nothing can be removed from.
    UnsupportedIndexRemove { index_key: String },
    /// A removal from an index without a payload.
    MissingPayload { key: String },
    /// A payload without an item. The text of this error is the library's own wording.
    EmptyValue,
    /// A configuration without a database.
    NoDatabaseConfig,
    /// No database was configured before a drain.
    GlobalConfigUnset,
    /// Market data is not saved.
    SaveMarketData,
    /// Quotes are not loaded.
    LoadQuotes,
    /// Market data is not loaded.
    LoadMarketData,
    /// Signals are not saved.
    SaveSignals,
    /// Signals are not loaded.
    LoadSignals,
    /// Custom data is not saved.
    SaveCustomData,
    /// Custom data is not loaded.
    LoadCustomData,
}

/// A [`CacheError`] with its texts as sequences of characters.
pub enum CacheErrorView {
    MissingDelimiter { key: Seq<char> },
    UnsupportedRead { collection: Seq<char> },
    UnsupportedInsert { collection: Seq<char> },
    UnsupportedUpdate { collection: Seq<char> },
    UnsupportedDelete { collection: Seq<char> },
    UnknownIndexOnRead { index_key: Seq<char> },
    UnknownIndexOnInsert { index_key: Seq<char> },
    UnsupportedIndexRemove { index_key: Seq<char> },
    MissingPayload { key: Seq<char> },
    EmptyValue,
    NoDatabaseConfig,
    GlobalConfigUnset,
    SaveMarketData,
    LoadQuotes,
    LoadMarketData,
    SaveSignals,
    LoadSignals,
    SaveCustomData,
    LoadCustomData,
}

impl View for CacheError {
    type V = CacheErrorView;

    open spec fn view(&self) -> CacheErrorView {
        match self {
            CacheError::MissingDelimiter { key } => CacheErrorView::MissingDelimiter { key: key@ },
            CacheError::UnsupportedRead { collection } => CacheErrorView::UnsupportedRead {
                collection: collection@,
            },
            CacheError::UnsupportedInsert { collection } => CacheErrorView::UnsupportedInsert {
                collection: collection@,
            },
            CacheError::UnsupportedUpdate { collection } => CacheErrorView::UnsupportedUpdate {
                collection: collection@,
            },
            CacheError::UnsupportedDelete { collection } => CacheErrorView::UnsupportedDelete {
                collection: collection@,
            },
            CacheError::UnknownIndexOnRead { index_key } => CacheErrorView::UnknownIndexOnRead {
                index_key: index_key@,
            },
            CacheError::UnknownIndexOnInsert { index_key } => CacheErrorView::UnknownIndexOnInsert {
                index_key: index_key@,
            },
            CacheError::UnsupportedIndexRemove { index_key } =>
                CacheErrorView::UnsupportedIndexRemove { index_key: index_key@ },
            CacheError::MissingPayload { key } => CacheErrorView::MissingPayload { key: key@ },
            CacheError::EmptyValue => CacheErrorView::EmptyValue,
            CacheError::NoDatabaseConfig => CacheErrorView::NoDatabaseConfig,
            CacheError::GlobalConfigUnset => CacheErrorView::GlobalConfigUnset,
            CacheError::SaveMarketData => CacheErrorView::SaveMarketData,
            CacheError::LoadQuotes => CacheErrorView::LoadQuotes,
            CacheError::LoadMarketData => CacheErrorView::LoadMarketData,
            CacheError::SaveSignals => CacheErrorView::SaveSignals,
            CacheError::LoadSignals => CacheErrorView::LoadSignals,
            CacheError::SaveCustomData => CacheErrorView::SaveCustomData,
            CacheError::LoadCustomData => CacheErrorView::LoadCustomData,
        }
    }
}

impl CacheErrorView {
    /// The text that tells a reader what was refused.
    pub open spec fn text(self) -> Seq<char> {
        match self {
            CacheErrorView::MissingDelimiter { key } =>
                "Invalid `key`, missing a ':' delimiter, was "@ + key,
            CacheErrorView::UnsupportedRead { collection } =>
                "Unsupported operation: `read` for collection '"@ + collection + "'"@,
            CacheErrorView::UnsupportedInsert { collection } =>
                "Unsupported operation: `insert` for collection '"@ + collection + "'"@,
            CacheErrorView::UnsupportedUpdate { collection } =>
                "Unsupported operation: `update` for collection '"@ + collection + "'"@,
            CacheErrorView::UnsupportedDelete { collection } =>
                "Unsupported operation: `delete` for collection '"@ + collection + "'"@,
            CacheErrorView::UnknownIndexOnRead { index_key } =>
                "Index unknown '"@ + index_key + "' on read"@,
            CacheErrorView::UnknownIndexOnInsert { index_key } =>
                "Index unknown '"@ + index_key + "' on insert"@,
            CacheErrorView::UnsupportedIndexRemove { index_key } =>
                "Unsupported index operation: remove from '"@ + index_key + "'"@,
            CacheErrorView::MissingPayload { key } =>
                "Empty `payload` for `delete` '"@ + key + "'"@,
            CacheErrorView::EmptyValue => "the 'value' slice was empty"@,
            CacheErrorView::NoDatabaseConfig => "No database config"@,
            CacheErrorView::GlobalConfigUnset => "Global db_config is not set"@,
            CacheErrorView::SaveMarketData =>
                "Saving market data for Redis cache adapter not supported"@,
            CacheErrorView::LoadQuotes =>
                "Loading quote data for Redis cache adapter not supported"@,
            CacheErrorView::LoadMarketData =>
                "Loading market data for Redis cache adapter not supported"@,
            CacheErrorView::SaveSignals => "Saving signals for Redis cache adapter not supported"@,
            CacheErrorView::LoadSignals =>
                "Loading signals from Redis cache adapter not supported"@,
            CacheErrorView::SaveCustomData =>
                "Saving custom data for Redis cache adapter not supported"@,
            CacheErrorView::LoadCustomData =>
                "Loading custom data from Redis cache adapter not supported"@,
        }
    }
}

impl CacheError {
    /// The text that tells a reader what was refused.
    pub fn message(&self) -> (r: String)
        ensures
            r@ == self@.text(),
    {
        match self {
            CacheError::MissingDelimiter { key } => {
                let mut text = "Invalid `key`, missing a ':' delimiter, was ".to_owned();
                text.append(key.as_str());
                text
            },
            CacheError::UnsupportedRead { collection } => concat3(
                "Unsupported operation: `read` for collection '",
                collection.as_str(),
                "'",
            ),
            CacheError::UnsupportedInsert { collection } => concat3(
                "Unsupported operation: `insert` for collection '",
                collection.as_str(),
                "'",
            ),
            CacheError::UnsupportedUpdate { collection } => concat3(
                "Unsupported operation: `update` for collection '",
                collection.as_str(),
                "'",
            ),
            CacheError::UnsupportedDelete { collection } => concat3(
                "Unsupported operation: `delete` for collection '",
                collection.as_str(),
                "'",
            ),
            CacheError::UnknownIndexOnRead { index_key } => concat3(
                "Index unknown '",
                index_key.as_str(),
                "' on read",
            ),
            CacheError::UnknownIndexOnInsert { index_key } => concat3(
                "Index unknown '",
                index_key.as_str(),
                "' on insert",
            ),
            CacheError::UnsupportedIndexRemove { index_key } => concat3(
                "Unsupported index operation: remove from '",
                index_key.as_str(),
                "'",
            ),
            CacheError::MissingPayload { key } => concat3(
                "Empty `payload` for `delete` '",
                key.as_str(),
                "'",
            ),
            CacheError::EmptyValue => "the 'value' slice was empty".to_owned(),
            CacheError::NoDatabaseConfig => "No database config".to_owned(),
            CacheError::GlobalConfigUnset => "Global db_config is not set".to_owned(),
            CacheError::SaveMarketData =>
                "Saving market data for Redis cache adapter not supported".to_owned(),
            CacheError::LoadQuotes =>
                "Loading quote data for Redis cache adapter not supported".to_owned(),
            CacheError::LoadMarketData =>
                "Loading market data for Redis cache adapter not supported".to_owned(),
            CacheError::SaveSignals =>
                "Saving signals for Redis cache adapter not supported".to_owned(),
            CacheError::LoadSignals =>
                "Loading signals from Redis cache adapter not supported".to_owned(),
            CacheError::SaveCustomData =>
                "Saving custom data for Redis cache adapter not supported".to_owned(),
            CacheError::LoadCustomData =>
                "Loading custom data from Redis cache adapter not supported".to_owned(),
        }
    }
}

/// The text of each error names what was refused as it is.
pub proof fn law_error_texts(error: CacheError)
    ensures
        error@.text() == (match error {
            CacheError::MissingDelimiter { key } =>
                "Invalid `key`, missing a ':' delimiter, was "@ + key@,
            CacheError::UnsupportedRead { collection } =>
                "Unsupported operation: `read` for collection '"@ + collection@ + "'"@,
            CacheError::UnsupportedInsert { collection } =>
                "Unsupported operation: `insert` for collection '"@ + collection@ + "'"@,
            CacheError::UnsupportedUpdate { collection } =>
                "Unsupported operation: `update` for collection '"@ + collection@ + "'"@,
            CacheError::UnsupportedDelete { collection } =>
                "Unsupported operation: `delete` for collection '"@ + collection@ + "'"@,
            CacheError::UnknownIndexOnRead { index_key } => "Index unknown '"@ + index_key@
                + "' on read"@,
            CacheError::UnknownIndexOnInsert { index_key } => "Index unknown '"@ + index_key@
                + "' on insert"@,
            CacheError::UnsupportedIndexRemove { index_key } =>
                "Unsupported index operation: remove from '"@ + index_key@ + "'"@,
            CacheError::MissingPayload { key } => "Empty `payload` for `delete` '"@ + key@ + "'"@,
            CacheError::EmptyValue => "the 'value' slice was empty"@,
            CacheError::NoDatabaseConfig => "No database config"@,
            CacheError::GlobalConfigUnset => "Global db_config is not set"@,
            CacheError::SaveMarketData =>
                "Saving market data for Redis cache adapter not supported"@,
            CacheError::LoadQuotes => "Loading quote data for Redis cache adapter not supported"@,
            CacheError::LoadMarketData =>
                "Loading market data for Redis cache adapter not supported"@,
            CacheError::SaveSignals => "Saving signals for Redis cache adapter not supported"@,
            CacheError::LoadSignals => "Loading signals from Redis cache adapter not supported"@,
            CacheError::SaveCustomData =>
                "Saving custom data for Redis cache adapter not supported"@,
            CacheError::LoadCustomData =>
                "Loading custom data from Redis cache adapter not supported"@,
        }),
{
}

/// What an error says is what it holds.
pub proof fn law_error_says_what_it_holds(error: CacheError)
    ensures
        match error {
            CacheError::MissingDelimiter { key } => error@ == (CacheErrorView::MissingDelimiter {
                key: key@,
            }),
            CacheError::UnsupportedRead { collection } => error@ == (
            CacheErrorView::UnsupportedRead { collection: collection@ }),
            CacheError::UnsupportedInsert { collection } => error@ == (
            CacheErrorView::UnsupportedInsert { collection: collection@ }),
            CacheError::UnsupportedUpdate { collection } => error@ == (
            CacheErrorView::UnsupportedUpdate { collection: collection@ }),
            CacheError::UnsupportedDelete { collection } => error@ == (
            CacheErrorView::UnsupportedDelete { collection: collection@ }),
            CacheError::UnknownIndexOnRead { index_key } => error@ == (
            CacheErrorView::UnknownIndexOnRead { index_key: index_key@ }),
            CacheError::UnknownIndexOnInsert { index_key } => error@ == (
            CacheErrorView::UnknownIndexOnInsert { index_key: index_key@ }),
            CacheError::UnsupportedIndexRemove { index_key } => error@ == (
            CacheErrorView::UnsupportedIndexRemove { index_key: index_key@ }),
            CacheError::MissingPayload { key } => error@ == (CacheErrorView::MissingPayload {
                key: key@,
            }),
            CacheError::EmptyValue => error@ == CacheErrorView::EmptyValue,
            CacheError::NoDatabaseConfig => error@ == CacheErrorView::NoDatabaseConfig,
            CacheError::GlobalConfigUnset => error@ == CacheErrorView::GlobalConfigUnset,
            CacheError::SaveMarketData => error@ == CacheErrorView::SaveMarketData,
            CacheError::LoadQuotes => error@ == CacheErrorView::LoadQuotes,
            CacheError::LoadMarketData => error@ == CacheErrorView::LoadMarketData,
            CacheError::SaveSignals => error@ == CacheErrorView::SaveSignals,
            CacheError::LoadSignals => error@ == CacheErrorView::LoadSignals,
            CacheError::SaveCustomData => error@ == CacheErrorView::SaveCustomData,
            CacheError::LoadCustomData => error@ == CacheErrorView::LoadCustomData,
        },
{
}

} // verus!
