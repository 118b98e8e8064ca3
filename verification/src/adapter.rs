//! The interface of the cache to its database.
use std::collections::HashMap;

use bytes::Bytes;
use redis::Cmd;
use vstd::prelude::*;

use crate::command::{DatabaseCommand, DatabaseOperation};
use crate::database::RedisCacheDatabase;
use crate::error::CacheError;
use crate::keys::Collection;
use crate::scan::{progress, scan_keys, scan_started, scans, KeyScan, ScanStep};
use crate::text::{
    find_last_delimiter, has_delimiter, last_delimiter_at, law_delimiter_is_the_colon, str_eq, utf8,
    REDIS_DELIMITER,
};
use crate::wire::command_args;

verus! {

/// The encoding of what the database holds.
#[derive(Clone, Copy, Debug, PartialEq, Eq, Structural)]
pub enum SerializationEncoding {
    MsgPack,
    Json,
}

/// The interface of the cache to its database.
pub struct RedisCacheDatabaseAdapter {
    pub encoding: SerializationEncoding,
    pub database: RedisCacheDatabase,
}

/// The part of a key that identifies what stands under it: what stands behind the last delimiter,
/// or the whole key where it has none.
pub open spec fn identifier(key: Seq<char>) -> Seq<char> {
    if has_delimiter(key) {
        key.skip((choose|i: int| last_delimiter_at(key, i)) + 1)
    } else {
        key
    }
}

/// The last delimiter of a text stands in one place only, and the identifier is what stands behind
/// it.
pub proof fn lemma_identifier(key: Seq<char>, i: int)
    requires
        last_delimiter_at(key, i),
    ensures
        has_delimiter(key),
        identifier(key) == key.skip(i + 1),
{
    let j = choose|j: int| last_delimiter_at(key, j);
    if i < j {
        assert(key.skip(i + 1)[j - i - 1] == REDIS_DELIMITER);
    } else if j < i {
        assert(key.skip(j + 1)[i - j - 1] == REDIS_DELIMITER);
    }
}

/// The part of a key that identifies what stands under it.
pub fn identifier_of(key: &str) -> (r: &str)
    ensures
        r@ == identifier(key@),
{
    match find_last_delimiter(key) {
        Some(i) => {
            let n = key.unicode_len();
            proof {
                lemma_identifier(key@, i as int);
                assert(key@.subrange(i + 1, n as int) =~= key@.skip(i + 1));
            }
            key.substring_char(i + 1, n)
        },
        None => key,
    }
}

/// What was loaded from the database: the values by their identifiers, and the identifiers for
/// which there was none.
#[derive(Debug)]
pub struct Loaded<V> {
    entries: Vec<(String, V)>,
    missing: Vec<String>,
}

impl<V> Loaded<V> {
    /// The values by their identifiers.
    pub closed spec fn values(self) -> Map<Seq<char>, V> {
        entry_map(self.entries@)
    }

    /// The identifiers for which there was no value.
    pub closed spec fn absent(self) -> Seq<Seq<char>> {
        self.missing@.map_values(|identifier: String| identifier@)
    }

    /// No identifier stands twice among the values.
    #[verifier::type_invariant]
    spec fn well_formed(self) -> bool {
        distinct(self.entries@)
    }

    /// Nothing yet.
    pub fn new() -> (r: Self)
        ensures
            r.values() == Map::<Seq<char>, V>::empty(),
            r.absent() == Seq::<Seq<char>>::empty(),
    {
        let r = Loaded { entries: Vec::new(), missing: Vec::new() };
        assert(r.absent() =~= Seq::<Seq<char>>::empty());
        assert(r.values() =~= Map::<Seq<char>, V>::empty());
        r
    }

    /// The value under an identifier, if there is one.
    pub fn get(&self, identifier: &str) -> (r: Option<&V>)
        ensures
            match r {
                Some(v) => self.values().contains_key(identifier@) && self.values()[identifier@]
                    == *v,
                None => !self.values().contains_key(identifier@),
            },
    {
        match self.position(identifier) {
            Some(i) => {
                proof {
                    use_type_invariant(self);
                    lemma_entry_map(self.entries@, i as int);
                }
                Some(&self.entries[i].1)
            },
            None => None,
        }
    }

    /// The identifiers for which there was no value.
    pub fn missing(&self) -> (r: &Vec<String>)
        ensures
            r@.map_values(|identifier: String| identifier@) == self.absent(),
    {
        &self.missing
    }

    /// How many values there are.
    pub fn len(&self) -> (r: usize)
        ensures
            r == self.values().dom().len(),
    {
        proof {
            use_type_invariant(self);
            lemma_entry_map_len(self.entries@);
        }
        self.entries.len()
    }

    /// Where an identifier stands among the values.
    fn position(&self, identifier: &str) -> (r: Option<usize>)
        ensures
            match r {
                Some(i) => i < self.entries@.len() && self.entries@[i as int].0@ == identifier@,
                None => forall|i: int|
                    0 <= i < self.entries@.len() ==> (#[trigger] self.entries@[i]).0@
                        != identifier@,
            },
    {
        let mut i: usize = 0;
        while i < self.entries.len()
            invariant
                0 <= i <= self.entries@.len(),
                forall|k: int|
                    0 <= k < i ==> (#[trigger] self.entries@[k]).0@ != identifier@,
            decreases self.entries@.len() - i,
        {
            if str_eq(self.entries[i].0.as_str(), identifier) {
                return Some(i);
            }
            i += 1;
        }
        None
    }

    /// Takes what was loaded for an identifier: a value replaces the one that was there, and where
    /// there is none the identifier is noted.
    pub fn record(&mut self, identifier: String, value: Option<V>)
        ensures
            match value {
                Some(v) => {
                    &&& final(self).values() == old(self).values().insert(identifier@, v)
                    &&& final(self).absent() == old(self).absent()
                },
                None => {
                    &&& final(self).values() == old(self).values()
                    &&& final(self).absent() == old(self).absent().push(identifier@)
                },
            },
    {
        match value {
            Some(v) => {
                proof {
                    use_type_invariant(&*self);
                }
                let found = self.position(identifier.as_str());
                let ghost before = self.entries@;
                let mut entries = Vec::new();
                std::mem::swap(&mut entries, &mut self.entries);
                match found {
                    Some(i) => {
                        entries.set(i, (identifier, v));
                        proof {
                            lemma_entry_map_update(before, i as int, (identifier, v));
                        }
                    },
                    None => {
                        entries.push((identifier, v));
                        proof {
                            lemma_entry_map_push(before, (identifier, v));
                        }
                    },
                }
                self.entries = entries;
            },
            None => {
                proof {
                    use_type_invariant(&*self);
                }
                let mut missing = Vec::new();
                std::mem::swap(&mut missing, &mut self.missing);
                missing.push(identifier);
                self.missing = missing;
                assert(self.absent() =~= old(self).absent().push(identifier@));
            },
        }
    }
}

/// The values of the first keys of a collection by their identifiers: of two keys with the same
/// identifier the later one counts.
pub open spec fn loaded_values<V>(keys: Seq<String>, values: Seq<Option<V>>) -> Map<Seq<char>, V>
    decreases keys.len(),
{
    if keys.len() == 0 {
        Map::empty()
    } else {
        let before = loaded_values(keys.drop_last(), values.drop_last());
        match values.last() {
            Some(value) => before.insert(identifier(keys.last()@), value),
            None => before,
        }
    }
}

/// The identifiers of the keys of a collection for which there was no value, in their order.
pub open spec fn loaded_absent<V>(keys: Seq<String>, values: Seq<Option<V>>) -> Seq<Seq<char>>
    decreases keys.len(),
{
    if keys.len() == 0 {
        Seq::empty()
    } else {
        let before = loaded_absent(keys.drop_last(), values.drop_last());
        match values.last() {
            Some(_) => before,
            None => before.push(identifier(keys.last()@)),
        }
    }
}

/// What was loaded for the keys of a collection, given what was found for each of them.
pub fn collect_loaded<V>(keys: &Vec<String>, values: Vec<Option<V>>) -> (r: Loaded<V>)
    requires
        keys@.len() == values@.len(),
    ensures
        r.values() == loaded_values(keys@, values@),
        r.absent() == loaded_absent(keys@, values@),
{
    let mut loaded = Loaded::new();
    let n = keys.len();
    let mut i: usize = 0;
    let ghost all = values@;
    for value in it: values
        invariant
            it.seq() == all,
            i == it.index(),
            n == keys@.len() == all.len(),
            loaded.values() == loaded_values(keys@.take(i as int), all.take(i as int)),
            loaded.absent() == loaded_absent(keys@.take(i as int), all.take(i as int)),
    {
        loaded.record(identifier_of(keys[i].as_str()).to_owned(), value);
        proof {
            assert(keys@.take(i + 1).drop_last() =~= keys@.take(i as int));
            assert(all.take(i + 1).drop_last() =~= all.take(i as int));
        }
        i += 1;
    }
    proof {
        assert(keys@.take(i as int) =~= keys@);
        assert(all.take(i as int) =~= all);
    }
    loaded
}

/// The values of entries by their identifiers.
spec fn entry_map<V>(entries: Seq<(String, V)>) -> Map<Seq<char>, V> {
    Map::new(
        |k: Seq<char>| exists|i: int| 0 <= i < entries.len() && (#[trigger] entries[i]).0@ == k,
        |k: Seq<char>|
            entries[choose|i: int| 0 <= i < entries.len() && (#[trigger] entries[i]).0@ == k].1,
    )
}

/// Whether no identifier stands twice.
spec fn distinct<V>(entries: Seq<(String, V)>) -> bool {
    forall|i: int, j: int|
        0 <= i < entries.len() && 0 <= j < entries.len() && (#[trigger] entries[i]).0@ == (
        #[trigger] entries[j]).0@ ==> i == j
}

/// An entry is found under its identifier.
proof fn lemma_entry_map<V>(entries: Seq<(String, V)>, i: int)
    requires
        distinct(entries),
        0 <= i < entries.len(),
    ensures
        entry_map(entries).contains_key(entries[i].0@),
        entry_map(entries)[entries[i].0@] == entries[i].1,
{
}

/// There are as many identifiers as entries.
proof fn lemma_entry_map_len<V>(entries: Seq<(String, V)>)
    requires
        distinct(entries),
    ensures
        entry_map(entries).dom().finite(),
        entry_map(entries).dom().len() == entries.len(),
    decreases entries.len(),
{
    if entries.len() == 0 {
        assert(entry_map(entries).dom() =~= Set::<Seq<char>>::empty());
    } else {
        let rest = entries.drop_last();
        lemma_entry_map_len(rest);
        lemma_entry_map_push(rest, entries.last());
        assert(rest.push(entries.last()) =~= entries);
        assert(!entry_map(rest).contains_key(entries.last().0@));
        assert(entry_map(entries).dom() =~= entry_map(rest).dom().insert(entries.last().0@));
    }
}

/// A new entry adds its value under its identifier.
proof fn lemma_entry_map_push<V>(entries: Seq<(String, V)>, entry: (String, V))
    requires
        distinct(entries),
        forall|i: int| 0 <= i < entries.len() ==> (#[trigger] entries[i]).0@ != entry.0@,
    ensures
        distinct(entries.push(entry)),
        entry_map(entries.push(entry)) == entry_map(entries).insert(entry.0@, entry.1),
{
    let new = entries.push(entry);
    assert(distinct(new));
    assert forall|k: Seq<char>| #[trigger] entry_map(new).contains_key(k) <==> entry_map(
        entries,
    ).insert(entry.0@, entry.1).contains_key(k) by {
        if entry_map(entries).contains_key(k) {
            let i = choose|i: int| 0 <= i < entries.len() && (#[trigger] entries[i]).0@ == k;
            assert(new[i].0@ == k);
        }
        if k == entry.0@ {
            assert(new[entries.len() as int].0@ == k);
        }
    }
    assert forall|k: Seq<char>| #[trigger] entry_map(new).contains_key(k) implies entry_map(new)[k]
        == entry_map(entries).insert(entry.0@, entry.1)[k] by {
        let i = choose|i: int| 0 <= i < new.len() && (#[trigger] new[i]).0@ == k;
        lemma_entry_map(new, i);
        if i < entries.len() {
            assert(entries[i] == new[i]);
            lemma_entry_map(entries, i);
        }
    }
    assert(entry_map(new) =~= entry_map(entries).insert(entry.0@, entry.1));
}

/// An entry in the place of one with the same identifier replaces its value.
proof fn lemma_entry_map_update<V>(entries: Seq<(String, V)>, at: int, entry: (String, V))
    requires
        distinct(entries),
        0 <= at < entries.len(),
        entries[at].0@ == entry.0@,
    ensures
        distinct(entries.update(at, entry)),
        entry_map(entries.update(at, entry)) == entry_map(entries).insert(entry.0@, entry.1),
{
    let new = entries.update(at, entry);
    assert forall|i: int| 0 <= i < new.len() implies (#[trigger] new[i]).0@ == entries[i].0@ by {
    }
    assert(distinct(new)) by {
        assert forall|i: int, j: int|
            0 <= i < new.len() && 0 <= j < new.len() && (#[trigger] new[i]).0@ == (
            #[trigger] new[j]).0@ implies i == j by {
            assert(entries[i].0@ == entries[j].0@);
        }
    }
    assert forall|k: Seq<char>| #[trigger] entry_map(new).contains_key(k) <==> entry_map(
        entries,
    ).insert(entry.0@, entry.1).contains_key(k) by {
        if entry_map(entries).contains_key(k) {
            let i = choose|i: int| 0 <= i < entries.len() && (#[trigger] entries[i]).0@ == k;
            assert(new[i].0@ == k);
        }
        if entry_map(new).contains_key(k) {
            let i = choose|i: int| 0 <= i < new.len() && (#[trigger] new[i]).0@ == k;
            assert(entries[i].0@ == k);
        }
        if k == entry.0@ {
            assert(new[at].0@ == k);
        }
    }
    assert forall|k: Seq<char>| #[trigger] entry_map(new).contains_key(k) implies entry_map(new)[k]
        == entry_map(entries).insert(entry.0@, entry.1)[k] by {
        let i = choose|i: int| 0 <= i < new.len() && (#[trigger] new[i]).0@ == k;
        lemma_entry_map(new, i);
        lemma_entry_map(entries, i);
        if i != at {
            assert(k != entry.0@) by {
                if k == entry.0@ {
                    assert(entries[i].0@ == entries[at].0@);
                }
            }
        }
    }
    assert(entry_map(new) =~= entry_map(entries).insert(entry.0@, entry.1));
}

/// The pattern that the keys of a collection match.
pub open spec fn collection_pattern(collection: Collection) -> Seq<char> {
    collection.name() + "*"@
}

/// The scan for the keys of a collection.
fn scan_collection(collection: Collection, name: &str) -> (r: KeyScan)
    requires
        name@ == collection.name(),
    ensures
        progress(r) == scan_started(collection_pattern(collection)),
{
    let mut pattern = name.to_owned();
    pattern.append("*");
    scan_keys(pattern)
}

impl RedisCacheDatabaseAdapter {
    /// The command that closes the database.
    pub fn close(&self) -> (r: DatabaseCommand)
        ensures
            r.op_type == DatabaseOperation::Close,
            r.key is None,
            r.payload is None,
            !r.committed_to_redis,
    {
        self.database.close()
    }

    /// The command that makes Redis drop everything that it holds.
    pub fn flush(&self) -> (r: Cmd)
        ensures
            command_args(r) == seq![utf8("FLUSHDB"@)],
    {
        self.database.flushdb()
    }

    /// Nothing is loaded.
    pub fn load(&self) -> (r: HashMap<String, Bytes>)
        ensures
            r@ == Map::<String, Bytes>::empty(),
    {
        HashMap::new()
    }

    /// The scan for the currencies.
    pub fn load_currencies(&self) -> (r: KeyScan)
        ensures
            progress(r) == scan_started(collection_pattern(Collection::Currencies)),
            r.pattern@ == "currencies"@ + "*"@,
            r.cursor == 0 && r.keys@.len() == 0 && !r.done,
    {
        scan_collection(Collection::Currencies, "currencies")
    }

    /// The scan for the instruments.
    pub fn load_instruments(&self) -> (r: KeyScan)
        ensures
            progress(r) == scan_started(collection_pattern(Collection::Instruments)),
            r.pattern@ == "instruments"@ + "*"@,
            r.cursor == 0 && r.keys@.len() == 0 && !r.done,
    {
        scan_collection(Collection::Instruments, "instruments")
    }

    /// The scan for the synthetic instruments.
    pub fn load_synthetics(&self) -> (r: KeyScan)
        ensures
            progress(r) == scan_started(collection_pattern(Collection::Synthetics)),
            r.pattern@ == "synthetics"@ + "*"@,
            r.cursor == 0 && r.keys@.len() == 0 && !r.done,
    {
        scan_collection(Collection::Synthetics, "synthetics")
    }

    /// The scan for the accounts.
    pub fn load_accounts(&self) -> (r: KeyScan)
        ensures
            progress(r) == scan_started(collection_pattern(Collection::Accounts)),
            r.pattern@ == "accounts"@ + "*"@,
            r.cursor == 0 && r.keys@.len() == 0 && !r.done,
    {
        scan_collection(Collection::Accounts, "accounts")
    }

    /// The scan for the orders.
    pub fn load_orders(&self) -> (r: KeyScan)
        ensures
            progress(r) == scan_started(collection_pattern(Collection::Orders)),
            r.pattern@ == "orders"@ + "*"@,
            r.cursor == 0 && r.keys@.len() == 0 && !r.done,
    {
        scan_collection(Collection::Orders, "orders")
    }

    /// How the search for the positions goes on, where `drained` says whether what waits in the log
    /// has been carried out for it.
    pub fn load_positions(&self, drained: bool) -> (r: ScanStep)
        ensures
            scans(r, drained, collection_pattern(Collection::Positions)),
            match r {
                ScanStep::Drain => !drained,
                ScanStep::Scan(scan) => {
                    &&& drained
                    &&& scan.pattern@ == "positions"@ + "*"@
                    &&& scan.cursor == 0 && scan.keys@.len() == 0 && !scan.done
                },
            },
    {
        if drained {
            ScanStep::Scan(scan_collection(Collection::Positions, "positions"))
        } else {
            ScanStep::Drain
        }
    }

    /// Order books are not saved.
    pub fn add_order_book<T>(&self, order_book: &T) -> (r: Result<(), CacheError>)
        ensures
            r == Err::<(), _>(CacheError::SaveMarketData),
    {
        Err(CacheError::SaveMarketData)
    }

    /// Quotes are not saved.
    pub fn add_quote<T>(&self, quote: &T) -> (r: Result<(), CacheError>)
        ensures
            r == Err::<(), _>(CacheError::SaveMarketData),
    {
        Err(CacheError::SaveMarketData)
    }

    /// Quotes are not loaded.
    pub fn load_quotes<T>(&self, instrument_id: &str) -> (r: Result<Vec<T>, CacheError>)
        ensures
            r == Err::<Vec<T>, _>(CacheError::LoadQuotes),
    {
        Err(CacheError::LoadQuotes)
    }

    /// Trades are not saved.
    pub fn add_trade<T>(&self, trade: &T) -> (r: Result<(), CacheError>)
        ensures
            r == Err::<(), _>(CacheError::SaveMarketData),
    {
        Err(CacheError::SaveMarketData)
    }

    /// Trades are not loaded.
    pub fn load_trades<T>(&self, instrument_id: &str) -> (r: Result<Vec<T>, CacheError>)
        ensures
            r == Err::<Vec<T>, _>(CacheError::LoadMarketData),
    {
        Err(CacheError::LoadMarketData)
    }

    /// Bars are not saved.
    pub fn add_bar<T>(&self, bar: &T) -> (r: Result<(), CacheError>)
        ensures
            r == Err::<(), _>(CacheError::SaveMarketData),
    {
        Err(CacheError::SaveMarketData)
    }

    /// Bars are not loaded.
    pub fn load_bars<T>(&self, instrument_id: &str) -> (r: Result<Vec<T>, CacheError>)
        ensures
            r == Err::<Vec<T>, _>(CacheError::LoadMarketData),
    {
        Err(CacheError::LoadMarketData)
    }

    /// Signals are not saved.
    pub fn add_signal<T>(&self, signal: &T) -> (r: Result<(), CacheError>)
        ensures
            r == Err::<(), _>(CacheError::SaveSignals),
    {
        Err(CacheError::SaveSignals)
    }

    /// Signals are not loaded.
    pub fn load_signals<T>(&self, name: &str) -> (r: Result<Vec<T>, CacheError>)
        ensures
            r == Err::<Vec<T>, _>(CacheError::LoadSignals),
    {
        Err(CacheError::LoadSignals)
    }

    /// Custom data is not saved.
    pub fn add_custom_data<T>(&self, data: &T) -> (r: Result<(), CacheError>)
        ensures
            r == Err::<(), _>(CacheError::SaveCustomData),
    {
        Err(CacheError::SaveCustomData)
    }

    /// Custom data is not loaded.
    pub fn load_custom_data<T>(&self, data_type: &str) -> (r: Result<Vec<T>, CacheError>)
        ensures
            r == Err::<Vec<T>, _>(CacheError::LoadCustomData),
    {
        Err(CacheError::LoadCustomData)
    }
}

/// The identifier of a key is what stands behind its last colon, and the whole key where it has
/// none.
pub proof fn law_identifier_stands_behind_the_last_colon(front: Seq<char>, back: Seq<char>)
    requires
        !back.contains(':'),
    ensures
        identifier(front + ":"@ + back) == back,
        identifier(back) == back,
{
    reveal_strlit(":");
    let key = front + ":"@ + back;
    let i = front.len() as int;
    law_delimiter_is_the_colon(key, i);
    assert(forall|j: int| i < j < key.len() ==> key[j] == back[j - i - 1]);
    lemma_identifier(key, i);
    assert(key.skip(i + 1) =~= back);
    assert(!has_delimiter(back));
}

/// Of the keys with one identifier that have a value, the last one counts: its value is the one
/// that was loaded under the identifier.
pub proof fn law_last_value_counts<V>(keys: Seq<String>, values: Seq<Option<V>>, i: int, value: V)
    requires
        keys.len() == values.len(),
        0 <= i < keys.len(),
        values[i] == Some(value),
        forall|j: int|
            i < j < keys.len() && identifier((#[trigger] keys[j])@) == identifier(keys[i]@)
                ==> values[j] is None,
    ensures
        loaded_values(keys, values).contains_key(identifier(keys[i]@)),
        loaded_values(keys, values)[identifier(keys[i]@)] == value,
    decreases keys.len(),
{
    let n = keys.len() - 1;
    if i < n {
        let front = keys.drop_last();
        let known = values.drop_last();
        assert forall|j: int|
            i < j < front.len() && identifier((#[trigger] front[j])@) == identifier(
                front[i]@,
            ) implies known[j] is None by {
            assert(keys[j] == front[j] && values[j] == known[j]);
        }
        law_last_value_counts(front, known, i, value);
        assert(keys[n] == keys.last() && values[n] == values.last());
    }
}

/// A value that was loaded under an identifier is that of a key with the identifier.
pub proof fn law_loaded_value_has_a_key<V>(
    keys: Seq<String>,
    values: Seq<Option<V>>,
    id: Seq<char>,
) -> (i: int)
    requires
        keys.len() == values.len(),
        loaded_values(keys, values).contains_key(id),
    ensures
        0 <= i < keys.len(),
        identifier(keys[i]@) == id,
        values[i] == Some(loaded_values(keys, values)[id]),
    decreases keys.len(),
{
    let n = keys.len() - 1;
    if values.last() is Some && identifier(keys.last()@) == id {
        n
    } else {
        law_loaded_value_has_a_key(keys.drop_last(), values.drop_last(), id)
    }
}

/// A key without a value is noted by its identifier and a key with one is not, and what is noted of
/// keys behind others is noted behind what is noted of those.
pub proof fn law_missing_values_are_noted<V>(
    keys: Seq<String>,
    values: Seq<Option<V>>,
    more_keys: Seq<String>,
    more_values: Seq<Option<V>>,
    key: String,
    value: V,
)
    requires
        keys.len() == values.len(),
        more_keys.len() == more_values.len(),
    ensures
        loaded_absent(seq![key], seq![None::<V>]) == seq![identifier(key@)],
        loaded_absent(seq![key], seq![Some(value)]) == Seq::<Seq<char>>::empty(),
        loaded_absent(keys + more_keys, values + more_values) == loaded_absent(keys, values)
            + loaded_absent(more_keys, more_values),
    decreases more_keys.len(),
{
    reveal_with_fuel(loaded_absent, 2);
    assert(loaded_absent(seq![key], seq![None::<V>]) =~= seq![identifier(key@)]);
    if more_keys.len() == 0 {
        assert(keys + more_keys =~= keys);
        assert(values + more_values =~= values);
        assert(loaded_absent(keys, values) + loaded_absent(more_keys, more_values)
            =~= loaded_absent(keys, values));
    } else {
        let k = more_keys.drop_last();
        let v = more_values.drop_last();
        law_missing_values_are_noted(keys, values, k, v, key, value);
        assert((keys + more_keys).drop_last() =~= keys + k);
        assert((values + more_values).drop_last() =~= values + v);
        assert(loaded_absent(keys + more_keys, values + more_values) =~= loaded_absent(
            keys,
            values,
        ) + loaded_absent(more_keys, more_values));
    }
}

/// The patterns of the collections.
pub proof fn law_collection_patterns()
    ensures
        collection_pattern(Collection::Currencies) == "currencies"@ + "*"@,
        collection_pattern(Collection::Instruments) == "instruments"@ + "*"@,
        collection_pattern(Collection::Synthetics) == "synthetics"@ + "*"@,
        collection_pattern(Collection::Accounts) == "accounts"@ + "*"@,
        collection_pattern(Collection::Orders) == "orders"@ + "*"@,
        collection_pattern(Collection::Positions) == "positions"@ + "*"@,
{
}

} // verus!
