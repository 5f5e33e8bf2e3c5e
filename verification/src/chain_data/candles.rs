use vstd::prelude::*;
use std::collections::BTreeMap;
use crate::chain_data::{
    between, is_last, keyed_by_timestamp, last_key, merged, values_between, Timestamp,
    TimestampBased, Timestamped,
};
use crate::chain_data::all_samples;
use crate::exchange::{Candle, Quantity};
use crate::storage::Record;

verus! {

broadcast use {vstd::laws_cmp::group_laws_cmp, vstd::std_specs::btree::group_btree_axioms};

impl Timestamped for Candle {
    open spec fn spec_timestamp(&self) -> Timestamp {
        self.timestamp
    }

    fn timestamp(&self) -> (instant: Timestamp) {
        self.timestamp
    }
}

/// The candles of one pair at one exchange, one for each timestamp.
pub struct CandlesStore {
    candles: BTreeMap<Timestamp, Candle>,
}

impl View for CandlesStore {
    type V = Map<Timestamp, Candle>;

    closed spec fn view(&self) -> Map<Timestamp, Candle> {
        self.candles@
    }
}

impl Default for CandlesStore {
    /// A store without candles.
    fn default() -> (store: CandlesStore)
        ensures
            store@ == Map::<Timestamp, Candle>::empty(),
            store.wf(),
    {
        CandlesStore { candles: BTreeMap::new() }
    }
}

impl CandlesStore {
    /// Whether every candle is filed under its own timestamp. A new store is,
    /// and every way of writing to a store keeps it so.
    pub open spec fn wf(&self) -> bool {
        keyed_by_timestamp(self@)
    }

    /// Writes one candle under its timestamp, in place of the candle that
    /// was there, if any.
    pub fn insert(&mut self, candle: Candle)
        ensures
            final(self)@ == old(self)@.insert(candle.timestamp, candle),
            old(self).wf() ==> final(self).wf(),
    {
        self.candles.insert(candle.timestamp, candle);
    }

    /// Writes candles one after the other, each under its timestamp.
    pub fn insert_many(&mut self, candles: Vec<Candle>)
        ensures
            final(self)@ == merged(old(self)@, candles@),
            old(self).wf() ==> final(self).wf(),
    {
        let mut i: usize = 0;
        while i < candles.len()
            invariant
                i <= candles.len(),
                self@ == merged(old(self)@, candles@.take(i as int)),
                old(self).wf() ==> self.wf(),
            decreases candles.len() - i,
        {
            proof {
                assert(candles@.take(i + 1).drop_last() =~= candles@.take(i as int));
            }
            self.insert(candles[i]);
            i = i + 1;
        }
        assert(candles@.take(candles.len() as int) =~= candles@);
    }
}

/// The number that stands at a place of a candle's six: the timestamp, then
/// the prices at the open, the high, the low and the close, then the volume.
pub open spec fn candle_field(candle: Candle, place: int) -> u64 {
    if place == 0 {
        candle.timestamp
    } else if place == 1 {
        candle.open_price.bits
    } else if place == 2 {
        candle.highest_price.bits
    } else if place == 3 {
        candle.lowest_price.bits
    } else if place == 4 {
        candle.close_price.bits
    } else {
        candle.volume.bits
    }
}

/// The numbers that candles are stored as: six for each candle.
pub open spec fn candles_numbers(candles: Seq<Candle>) -> Seq<u64> {
    Seq::new(6 * candles.len(), |j: int| candle_field(candles[j / 6], j % 6))
}

/// The candles that numbers spell, six numbers for each candle.
pub open spec fn numbers_candles(numbers: Seq<u64>) -> Seq<Candle> {
    Seq::new(
        numbers.len() / 6,
        |i: int|
            Candle {
                timestamp: numbers[6 * i],
                open_price: Quantity { bits: numbers[6 * i + 1] },
                highest_price: Quantity { bits: numbers[6 * i + 2] },
                lowest_price: Quantity { bits: numbers[6 * i + 3] },
                close_price: Quantity { bits: numbers[6 * i + 4] },
                volume: Quantity { bits: numbers[6 * i + 5] },
            },
    )
}

/// Whether a record is that of a series of candles.
pub open spec fn is_candles_record(record: (Seq<u64>, Seq<Seq<char>>)) -> bool {
    record.0.len() % 6 == 0 && record.1.len() == 0
}

/// The numbers that candles are stored as spell those candles.
pub proof fn candles_survive_numbers(candles: Seq<Candle>)
    ensures
        numbers_candles(candles_numbers(candles)) == candles,
        candles_numbers(candles).len() % 6 == 0,
{
    let numbers = candles_numbers(candles);
    assert(numbers.len() / 6 == candles.len());
    assert forall|i: int| 0 <= i < candles.len() implies numbers_candles(numbers)[i]
        == candles[i] by {
        assert(numbers[6 * i] == candle_field(candles[(6 * i) / 6], (6 * i) % 6));
        assert(numbers[6 * i + 1] == candle_field(candles[(6 * i + 1) / 6], (6 * i + 1) % 6));
        assert(numbers[6 * i + 2] == candle_field(candles[(6 * i + 2) / 6], (6 * i + 2) % 6));
        assert(numbers[6 * i + 3] == candle_field(candles[(6 * i + 3) / 6], (6 * i + 3) % 6));
        assert(numbers[6 * i + 4] == candle_field(candles[(6 * i + 4) / 6], (6 * i + 4) % 6));
        assert(numbers[6 * i + 5] == candle_field(candles[(6 * i + 5) / 6], (6 * i + 5) % 6));
    }
    assert(numbers_candles(numbers) =~= candles);
}

impl CandlesStore {
    /// Every candle of the store, in the order of the timestamps.
    pub fn to_vec(&self) -> (all: Vec<Candle>)
        ensures
            all@ == all_samples(self@),
    {
        let mut all = values_between(&self.candles, 0, u64::MAX);
        match self.candles.get(&u64::MAX) {
            Some(candle) => {
                all.push(*candle);
            },
            None => {},
        }
        all
    }

    /// Writes the store as a record: the numbers of every candle, in the
    /// order of the timestamps.
    pub fn to_record(&self) -> (record: Record)
        ensures
            record@ == (candles_numbers(all_samples(self@)), Seq::<Seq<char>>::empty()),
            is_candles_record(record@),
    {
        let all = self.to_vec();
        let mut record = Record::new();
        let mut i: usize = 0;
        while i < all.len()
            invariant
                i <= all.len(),
                record@ == (candles_numbers(all@.take(i as int)), Seq::<Seq<char>>::empty()),
            decreases all.len() - i,
        {
            let ghost before = candles_numbers(all@.take(i as int));
            let ghost after = candles_numbers(all@.take(i + 1));
            record.push_number(all[i].timestamp);
            record.push_number(all[i].open_price.bits);
            record.push_number(all[i].highest_price.bits);
            record.push_number(all[i].lowest_price.bits);
            record.push_number(all[i].close_price.bits);
            record.push_number(all[i].volume.bits);
            assert(record@.0 =~= after) by {
                assert forall|j: int| 0 <= j < 6 * (i + 1) implies record@.0[j] == after[j] by {
                    if j < 6 * i {
                        assert(record@.0[j] == before[j]);
                        assert(j / 6 < i);
                    } else {
                        assert(j / 6 == i);
                    }
                }
            }
            i = i + 1;
        }
        assert(all@.take(all.len() as int) =~= all@);
        record
    }

    /// Reads a store from a record: the candles that the numbers spell,
    /// each written under its timestamp. A record that has not the shape of
    /// a series of candles gives nothing.
    pub fn from_record(record: &Record) -> (read: Option<CandlesStore>)
        ensures
            read is Some <==> is_candles_record(record@),
            read is Some ==> {
                &&& read->0@ == merged(
                    Map::<Timestamp, Candle>::empty(),
                    numbers_candles(record@.0),
                )
                &&& read->0.wf()
            },
    {
        if record.numbers.len() % 6 != 0 || record.texts.len() != 0 {
            return None;
        }
        let count = record.numbers.len() / 6;
        let mut candles: Vec<Candle> = Vec::new();
        let mut i: usize = 0;
        while i < count
            invariant
                i <= count,
                count == record.numbers.len() / 6,
                record.numbers.len() % 6 == 0,
                candles@ == numbers_candles(record@.0).take(i as int),
            decreases count - i,
        {
            candles.push(
                Candle {
                    timestamp: record.numbers[6 * i],
                    open_price: Quantity { bits: record.numbers[6 * i + 1] },
                    highest_price: Quantity { bits: record.numbers[6 * i + 2] },
                    lowest_price: Quantity { bits: record.numbers[6 * i + 3] },
                    close_price: Quantity { bits: record.numbers[6 * i + 4] },
                    volume: Quantity { bits: record.numbers[6 * i + 5] },
                },
            );
            assert(candles@ =~= numbers_candles(record@.0).take(i + 1));
            i = i + 1;
        }
        assert(candles@ =~= numbers_candles(record@.0));
        let mut store = CandlesStore::default();
        store.insert_many(candles);
        Some(store)
    }
}

/// A store that is written as a record and read back holds what it held.
pub proof fn store_survives_record(series: Map<Timestamp, Candle>)
    requires
        keyed_by_timestamp(series),
    ensures
        merged(
            Map::<Timestamp, Candle>::empty(),
            numbers_candles(candles_numbers(all_samples(series))),
        ) == series,
{
    candles_survive_numbers(all_samples(series));
    crate::chain_data::all_samples_rebuild_series(series);
}

impl TimestampBased for CandlesStore {
    type Item = Candle;

    open spec fn samples(&self) -> Map<Timestamp, Candle> {
        self@
    }

    fn last_timestamp(&self) -> (last: Option<Timestamp>) {
        last_key(&self.candles)
    }

    fn get_between(&self, range: std::ops::Range<Timestamp>) -> (found: Vec<Candle>) {
        if range.start <= range.end {
            values_between(&self.candles, range.start, range.end)
        } else {
            Vec::new()
        }
    }
}

} // verus!
