use vstd::prelude::*;
use std::collections::BTreeMap;
use crate::chain_data::candles::{is_candles_record, numbers_candles, store_survives_record};
use crate::exchange::{Candle, Exchange};
use crate::pair::Pair;
use crate::remote_exchanges::coinbase::Coinbase;
use crate::remote_exchanges::okx::Okx;
use crate::storage::{bytes_record, storable, table_entries, Record, StableTable};
use crate::utf16::utf16;

pub mod candles;

pub use candles::CandlesStore;

verus! {

pub type Timestamp = u64;

/// A sample that carries the instant it belongs to.
pub trait Timestamped: Copy {
    spec fn spec_timestamp(&self) -> Timestamp;

    fn timestamp(&self) -> (instant: Timestamp)
        ensures
            instant == self.spec_timestamp(),
    ;
}

/// Whether every sample of a series is filed under its own timestamp.
pub open spec fn keyed_by_timestamp<T: Timestamped>(series: Map<Timestamp, T>) -> bool {
    forall|key: Timestamp| #[trigger]
        series.contains_key(key) ==> series[key].spec_timestamp() == key
}

/// The samples of a series whose timestamps lie in the window that starts at
/// `start` and ends before `end`, in the order of their timestamps.
pub open spec fn between<T>(series: Map<Timestamp, T>, start: int, end: int) -> Seq<T>
    decreases end - start,
{
    if end <= start {
        Seq::<T>::empty()
    } else if series.contains_key((end - 1) as u64) {
        between(series, start, end - 1).push(series[(end - 1) as u64])
    } else {
        between(series, start, end - 1)
    }
}

/// A series after samples have been written into it one after the other,
/// each under its own timestamp: a sample takes the place of an earlier one
/// with the same timestamp.
pub open spec fn merged<T: Timestamped>(series: Map<Timestamp, T>, samples: Seq<T>) -> Map<
    Timestamp,
    T,
>
    decreases samples.len(),
{
    if samples.len() == 0 {
        series
    } else {
        merged(series, samples.drop_last()).insert(samples.last().spec_timestamp(), samples.last())
    }
}

/// Whether `key` is the latest timestamp of a series.
pub open spec fn is_last<T>(series: Map<Timestamp, T>, key: Timestamp) -> bool {
    &&& series.contains_key(key)
    &&& forall|other: Timestamp| #[trigger] series.contains_key(other) ==> other <= key
}

/// Calls `BTreeMap::last_key_value` and keeps the key: the greatest key of
/// the map, or nothing where the map is empty.
#[verifier::external_body]
pub(crate) fn last_key<T>(map: &BTreeMap<Timestamp, T>) -> (key: Option<Timestamp>)
    ensures
        match key {
            Some(k) => is_last(map@, k),
            None => forall|other: Timestamp| !map@.contains_key(other),
        },
{
    map.last_key_value().map(|entry| *entry.0)
}

/// Calls `BTreeMap::range` on the window from `start` up to, and without,
/// `end`, and collects the values it yields: those of the keys in the window,
/// in the order of the keys.
#[verifier::external_body]
pub(crate) fn values_between<T: Copy>(
    map: &BTreeMap<Timestamp, T>,
    start: Timestamp,
    end: Timestamp,
) -> (values: Vec<T>)
    requires
        start <= end,
    ensures
        values@ == between(map@, start as int, end as int),
{
    map.range(start..end).map(|entry| *entry.1).collect()
}

/// A series of samples that can be asked for its latest timestamp and for
/// the samples of a window.
pub trait TimestampBased {
    type Item;

    /// The samples of the series, by timestamp.
    spec fn samples(&self) -> Map<Timestamp, Self::Item>;

    /// The latest timestamp of the series, or nothing where it is empty.
    fn last_timestamp(&self) -> (last: Option<Timestamp>)
        ensures
            match last {
                Some(key) => is_last(self.samples(), key),
                None => forall|other: Timestamp| !self.samples().contains_key(other),
            },
    ;

    /// The samples of a window, in the order of their timestamps. A window
    /// that ends before it starts holds none.
    fn get_between(&self, range: std::ops::Range<Timestamp>) -> (found: Vec<Self::Item>)
        ensures
            found@ == between(self.samples(), range.start as int, range.end as int),
    ;
}

/// What is stored for one pair at one exchange.
pub struct ExchangeData {
    pub candles: CandlesStore,
}

impl Default for ExchangeData {
    fn default() -> (data: ExchangeData)
        ensures
            data.candles@ == Map::<Timestamp, crate::exchange::Candle>::empty(),
    {
        ExchangeData { candles: CandlesStore::default() }
    }
}

/// Writing the same sample twice leaves a series as writing it once does.
pub proof fn merge_is_idempotent<T: Timestamped>(series: Map<Timestamp, T>, sample: T)
    ensures
        merged(series, seq![sample, sample]) == merged(series, seq![sample]),
        merged(series, seq![sample]).contains_key(sample.spec_timestamp()),
        merged(series, seq![sample])[sample.spec_timestamp()] == sample,
{
    let once = seq![sample];
    let twice = seq![sample, sample];
    assert(twice.drop_last() =~= once);
    assert(once.drop_last() =~= Seq::<T>::empty());
    assert(merged(series, once.drop_last()) == series);
    assert(merged(series, twice) =~= merged(series, once));
}

/// Of two samples with one timestamp the one written last stays, and it is
/// the only sample under that timestamp.
pub proof fn last_write_wins<T: Timestamped>(series: Map<Timestamp, T>, first: T, second: T)
    requires
        first.spec_timestamp() == second.spec_timestamp(),
    ensures
        merged(series, seq![first, second]) == merged(series, seq![second]),
        merged(series, seq![first, second])[second.spec_timestamp()] == second,
{
    let both = seq![first, second];
    let one = seq![second];
    assert(both.drop_last() =~= seq![first]);
    assert(seq![first].drop_last() =~= Seq::<T>::empty());
    assert(one.drop_last() =~= Seq::<T>::empty());
    assert(merged(series, seq![first].drop_last()) == series);
    assert(merged(series, one.drop_last()) == series);
    assert(merged(series, seq![first]) == series.insert(first.spec_timestamp(), first));
    assert(merged(series, one) == series.insert(second.spec_timestamp(), second));
    assert(merged(series, both) == merged(series, seq![first]).insert(
        second.spec_timestamp(),
        second,
    ));
    assert(merged(series, both) =~= merged(series, one));
}

/// Writing samples under their own timestamps keeps a series keyed by
/// timestamp.
pub proof fn merged_keeps_keys<T: Timestamped>(series: Map<Timestamp, T>, samples: Seq<T>)
    requires
        keyed_by_timestamp(series),
    ensures
        keyed_by_timestamp(merged(series, samples)),
    decreases samples.len(),
{
    if samples.len() > 0 {
        merged_keeps_keys(series, samples.drop_last());
    }
}

/// Every sample of a series, in the order of the timestamps.
pub open spec fn all_samples<T>(series: Map<Timestamp, T>) -> Seq<T> {
    between(series, 0, 0x1_0000_0000_0000_0000)
}

/// The part of a series that lies before an instant.
pub open spec fn before<T>(series: Map<Timestamp, T>, end: int) -> Map<Timestamp, T> {
    Map::new(|key: Timestamp| series.contains_key(key) && key < end, |key: Timestamp| series[key])
}

/// Writing the samples of a series that lie before an instant into an empty
/// series gives the part of the series that lies before the instant.
pub proof fn samples_rebuild_series<T: Timestamped>(series: Map<Timestamp, T>, end: int)
    requires
        keyed_by_timestamp(series),
        0 <= end <= 0x1_0000_0000_0000_0000,
    ensures
        merged(Map::<Timestamp, T>::empty(), between(series, 0, end)) == before(series, end),
    decreases end,
{
    let empty = Map::<Timestamp, T>::empty();
    if end == 0 {
        assert(before(series, 0) =~= empty);
    } else {
        samples_rebuild_series(series, end - 1);
        let last = (end - 1) as u64;
        if series.contains_key(last) {
            let samples = between(series, 0, end);
            assert(samples.drop_last() =~= between(series, 0, end - 1));
            assert(samples.last() == series[last]);
            assert(merged(empty, samples) =~= before(series, end));
        } else {
            assert(before(series, end) =~= before(series, end - 1));
        }
    }
}

/// Writing every sample of a series into an empty series gives the series
/// again.
pub proof fn all_samples_rebuild_series<T: Timestamped>(series: Map<Timestamp, T>)
    requires
        keyed_by_timestamp(series),
    ensures
        merged(Map::<Timestamp, T>::empty(), all_samples(series)) == series,
{
    samples_rebuild_series(series, 0x1_0000_0000_0000_0000);
    assert(before(series, 0x1_0000_0000_0000_0000) =~= series);
}

/// The key under which the series of a pair at an exchange is stored: the
/// exchange's byte, then the bytes of the pair.
pub open spec fn series_key(exchange: Exchange, pair: Pair) -> Seq<u8> {
    seq![exchange.code()] + pair.bytes()
}

/// Whether both symbols of a pair fit their places in a key.
pub open spec fn fits_key(pair: Pair) -> bool {
    utf16(pair.base@).len() <= 12 && utf16(pair.quote@).len() <= 12
}

/// Writes the key of the series of a pair at an exchange.
pub fn make_series_key(exchange: Exchange, pair: &Pair) -> (key: Vec<u8>)
    requires
        fits_key(*pair),
    ensures
        key@ == series_key(exchange, *pair),
        key@.len() == 49,
{
    let mut key: Vec<u8> = Vec::new();
    key.push(exchange.to_u8());
    let mut bytes = pair.to_bytes();
    let ghost tail = bytes@;
    key.append(&mut bytes);
    assert(key@ =~= seq![exchange.code()] + tail);
    key
}

/// The candles that a table holds for a pair at an exchange.
pub open spec fn stored_candles(table: Map<Seq<u8>, Seq<u8>>, exchange: Exchange, pair: Pair) -> Option<
    Map<Timestamp, Candle>,
> {
    let key = series_key(exchange, pair);
    if table.contains_key(key) {
        match bytes_record(table[key]) {
            Some(record) => if is_candles_record(record) {
                Some(merged(Map::<Timestamp, Candle>::empty(), numbers_candles(record.0)))
            } else {
                None
            },
            None => None,
        }
    } else {
        None
    }
}

/// Reads what is stored for a pair at an exchange. There is nothing for a
/// pair that was never written, and nothing for one whose symbols do not fit
/// a key.
pub fn read_data(table: &StableTable, exchange: Exchange, pair: &Pair) -> (found: Option<
    ExchangeData,
>)
    ensures
        match found {
            Some(data) => {
                &&& fits_key(*pair)
                &&& stored_candles(table_entries(*table), exchange, *pair) == Some(data.candles@)
                &&& data.candles.wf()
            },
            None => !fits_key(*pair) || stored_candles(table_entries(*table), exchange, *pair)
                is None,
        },
{
    if !pair.fits() {
        return None;
    }
    match table.read(&make_series_key(exchange, pair)) {
        Some(record) => match CandlesStore::from_record(&record) {
            Some(candles) => Some(ExchangeData { candles }),
            None => None,
        },
        None => None,
    }
}

/// Whether the data of a pair can be stored: the symbols of the pair fit a
/// key, and the record of the data is not too long.
pub open spec fn can_store(pair: Pair, data: ExchangeData) -> bool {
    fits_key(pair) && storable(
        (candles::candles_numbers(all_samples(data.candles@)), Seq::<Seq<char>>::empty()),
    )
}

/// Stores the data of a pair at an exchange, in place of what was stored
/// for it before. Nothing is stored for a pair whose symbols do not fit a
/// key, nor data whose record is too long.
pub fn write_data(table: &mut StableTable, exchange: Exchange, pair: &Pair, data: &ExchangeData) -> (saved:
    bool)
    ensures
        saved <==> can_store(*pair, *data),
        saved ==> {
            &&& data.candles.wf() ==> stored_candles(table_entries(*final(table)), exchange, *pair)
                == Some(data.candles@)
            &&& table_entries(*final(table)).remove(series_key(exchange, *pair)) == table_entries(
                *old(table),
            ).remove(series_key(exchange, *pair))
        },
        !saved ==> table_entries(*final(table)) == table_entries(*old(table)),
{
    if !pair.fits() {
        return false;
    }
    proof {
        if data.candles.wf() {
            store_survives_record(data.candles@);
        }
    }
    table.write(make_series_key(exchange, pair), &data.candles.to_record())
}

/// An adapter under whose exchange series are stored.
pub trait ChainData {
    /// The exchange under which the adapter's series are stored.
    spec fn exchange_key(&self) -> Exchange;

    fn key(&self) -> (exchange: Exchange)
        ensures
            exchange == self.exchange_key(),
    ;

    /// What is stored for a pair at the adapter's exchange.
    fn get_data(&self, table: &StableTable, pair: &Pair) -> (found: Option<ExchangeData>)
        ensures
            match found {
                Some(data) => {
                    &&& fits_key(*pair)
                    &&& stored_candles(table_entries(*table), self.exchange_key(), *pair) == Some(
                        data.candles@,
                    )
                    &&& data.candles.wf()
                },
                None => !fits_key(*pair) || stored_candles(
                    table_entries(*table),
                    self.exchange_key(),
                    *pair,
                ) is None,
            },
    ;

    /// Stores the data of a pair at the adapter's exchange.
    fn set_data(&self, table: &mut StableTable, pair: &Pair, data: &ExchangeData) -> (saved: bool)
        ensures
            saved <==> can_store(*pair, *data),
            saved && data.candles.wf() ==> stored_candles(
                table_entries(*final(table)),
                self.exchange_key(),
                *pair,
            ) == Some(data.candles@),
            saved ==> table_entries(*final(table)).remove(series_key(self.exchange_key(), *pair))
                == table_entries(*old(table)).remove(series_key(self.exchange_key(), *pair)),
            !saved ==> table_entries(*final(table)) == table_entries(*old(table)),
    ;
}

impl ChainData for Okx {
    open spec fn exchange_key(&self) -> Exchange {
        Exchange::Okx
    }

    fn key(&self) -> (exchange: Exchange) {
        Exchange::Okx
    }

    fn get_data(&self, table: &StableTable, pair: &Pair) -> (found: Option<ExchangeData>) {
        read_data(table, Exchange::Okx, pair)
    }

    fn set_data(&self, table: &mut StableTable, pair: &Pair, data: &ExchangeData) -> (saved: bool) {
        write_data(table, Exchange::Okx, pair, data)
    }
}

impl ChainData for Coinbase {
    open spec fn exchange_key(&self) -> Exchange {
        Exchange::Coinbase
    }

    fn key(&self) -> (exchange: Exchange) {
        Exchange::Coinbase
    }

    fn get_data(&self, table: &StableTable, pair: &Pair) -> (found: Option<ExchangeData>) {
        read_data(table, Exchange::Coinbase, pair)
    }

    fn set_data(&self, table: &mut StableTable, pair: &Pair, data: &ExchangeData) -> (saved: bool) {
        write_data(table, Exchange::Coinbase, pair, data)
    }
}

} // verus!
