use vstd::prelude::*;
use std::collections::BTreeMap;
use crate::chain_data::{
    between, is_last, keyed_by_timestamp, last_key, merged, values_between, Timestamp,
    TimestampBased, Timestamped,
};
use crate::chain_data::all_samples;
use crate::exchange::{Quantity, TimeVolume};
use crate::chain_data::{fits_key, make_series_key, series_key};
use crate::exchange::Exchange;
use crate::pair::Pair;
use crate::storage::{bytes_record, storable, table_entries, Record, StableTable};

verus! {

broadcast use {vstd::laws_cmp::group_laws_cmp, vstd::std_specs::btree::group_btree_axioms};

impl Timestamped for TimeVolume {
    open spec fn spec_timestamp(&self) -> Timestamp {
        self.timestamp
    }

    fn timestamp(&self) -> (instant: Timestamp) {
        self.timestamp
    }
}

/// The traded volumes of one pair at one exchange, one for each timestamp.
pub struct VolumesStore {
    volumes: BTreeMap<Timestamp, TimeVolume>,
}

impl View for VolumesStore {
    type V = Map<Timestamp, TimeVolume>;

    closed spec fn view(&self) -> Map<Timestamp, TimeVolume> {
        self.volumes@
    }
}

impl Default for VolumesStore {
    /// A store without volumes.
    fn default() -> (store: VolumesStore)
        ensures
            store@ == Map::<Timestamp, TimeVolume>::empty(),
            store.wf(),
    {
        VolumesStore { volumes: BTreeMap::new() }
    }
}

impl VolumesStore {
    /// Whether every volume is filed under its own timestamp. A new store is,
    /// and every way of writing to a store keeps it so.
    pub open spec fn wf(&self) -> bool {
        keyed_by_timestamp(self@)
    }

    /// Writes one volume under its timestamp, in place of the volume that
    /// was there, if any.
    pub fn insert(&mut self, volume: TimeVolume)
        ensures
            final(self)@ == old(self)@.insert(volume.timestamp, volume),
            old(self).wf() ==> final(self).wf(),
    {
        self.volumes.insert(volume.timestamp, volume);
    }

    /// Writes volumes one after the other, each under its timestamp.
    pub fn insert_many(&mut self, volumes: Vec<TimeVolume>)
        ensures
            final(self)@ == merged(old(self)@, volumes@),
            old(self).wf() ==> final(self).wf(),
    {
        let mut i: usize = 0;
        while i < volumes.len()
            invariant
                i <= volumes.len(),
                self@ == merged(old(self)@, volumes@.take(i as int)),
                old(self).wf() ==> self.wf(),
            decreases volumes.len() - i,
        {
            proof {
                assert(volumes@.take(i + 1).drop_last() =~= volumes@.take(i as int));
            }
            self.insert(volumes[i]);
            i = i + 1;
        }
        assert(volumes@.take(volumes.len() as int) =~= volumes@);
    }
}

/// The number that stands at a place of a volume's two: the timestamp, then
/// the volume.
pub open spec fn volume_field(volume: TimeVolume, place: int) -> u64 {
    if place == 0 {
        volume.timestamp
    } else {
        volume.volume.bits
    }
}

/// The numbers that volumes are stored as: two for each volume.
pub open spec fn volumes_numbers(volumes: Seq<TimeVolume>) -> Seq<u64> {
    Seq::new(2 * volumes.len(), |j: int| volume_field(volumes[j / 2], j % 2))
}

/// The volumes that numbers spell, two numbers for each volume.
pub open spec fn numbers_volumes(numbers: Seq<u64>) -> Seq<TimeVolume> {
    Seq::new(
        numbers.len() / 2,
        |i: int|
            TimeVolume {
                timestamp: numbers[2 * i],
                volume: Quantity { bits: numbers[2 * i + 1] },
            },
    )
}

/// Whether a record is that of a series of volumes.
pub open spec fn is_volumes_record(record: (Seq<u64>, Seq<Seq<char>>)) -> bool {
    record.0.len() % 2 == 0 && record.1.len() == 0
}

/// The numbers that volumes are stored as spell those volumes.
pub proof fn volumes_survive_numbers(volumes: Seq<TimeVolume>)
    ensures
        numbers_volumes(volumes_numbers(volumes)) == volumes,
        volumes_numbers(volumes).len() % 2 == 0,
{
    let numbers = volumes_numbers(volumes);
    assert(numbers.len() / 2 == volumes.len());
    assert forall|i: int| 0 <= i < volumes.len() implies numbers_volumes(numbers)[i]
        == volumes[i] by {
        assert(numbers[2 * i] == volume_field(volumes[(2 * i) / 2], (2 * i) % 2));
        assert(numbers[2 * i + 1] == volume_field(volumes[(2 * i + 1) / 2], (2 * i + 1) % 2));
    }
    assert(numbers_volumes(numbers) =~= volumes);
}

impl VolumesStore {
    /// Every volume of the store, in the order of the timestamps.
    pub fn to_vec(&self) -> (all: Vec<TimeVolume>)
        ensures
            all@ == all_samples(self@),
    {
        let mut all = values_between(&self.volumes, 0, u64::MAX);
        match self.volumes.get(&u64::MAX) {
            Some(volume) => {
                all.push(*volume);
            },
            None => {},
        }
        all
    }

    /// Writes the store as a record: the numbers of every volume, in the
    /// order of the timestamps.
    pub fn to_record(&self) -> (record: Record)
        ensures
            record@ == (volumes_numbers(all_samples(self@)), Seq::<Seq<char>>::empty()),
            is_volumes_record(record@),
    {
        let all = self.to_vec();
        let mut record = Record::new();
        let mut i: usize = 0;
        while i < all.len()
            invariant
                i <= all.len(),
                record@ == (volumes_numbers(all@.take(i as int)), Seq::<Seq<char>>::empty()),
            decreases all.len() - i,
        {
            let ghost before = volumes_numbers(all@.take(i as int));
            let ghost after = volumes_numbers(all@.take(i + 1));
            record.push_number(all[i].timestamp);
            record.push_number(all[i].volume.bits);
            assert(record@.0 =~= after) by {
                assert forall|j: int| 0 <= j < 2 * (i + 1) implies record@.0[j] == after[j] by {
                    if j < 2 * i {
                        assert(record@.0[j] == before[j]);
                        assert(j / 2 < i);
                    } else {
                        assert(j / 2 == i);
                    }
                }
            }
            i = i + 1;
        }
        assert(all@.take(all.len() as int) =~= all@);
        record
    }

    /// Reads a store from a record: the volumes that the numbers spell,
    /// each written under its timestamp. A record that has not the shape of
    /// a series of volumes gives nothing.
    pub fn from_record(record: &Record) -> (read: Option<VolumesStore>)
        ensures
            read is Some <==> is_volumes_record(record@),
            read is Some ==> {
                &&& read->0@ == merged(
                    Map::<Timestamp, TimeVolume>::empty(),
                    numbers_volumes(record@.0),
                )
                &&& read->0.wf()
            },
    {
        if record.numbers.len() % 2 != 0 || record.texts.len() != 0 {
            return None;
        }
        let count = record.numbers.len() / 2;
        let mut volumes: Vec<TimeVolume> = Vec::new();
        let mut i: usize = 0;
        while i < count
            invariant
                i <= count,
                count == record.numbers.len() / 2,
                record.numbers.len() % 2 == 0,
                volumes@ == numbers_volumes(record@.0).take(i as int),
            decreases count - i,
        {
            volumes.push(
                TimeVolume {
                    timestamp: record.numbers[2 * i],
                    volume: Quantity { bits: record.numbers[2 * i + 1] },
                },
            );
            assert(volumes@ =~= numbers_volumes(record@.0).take(i + 1));
            i = i + 1;
        }
        assert(volumes@ =~= numbers_volumes(record@.0));
        let mut store = VolumesStore::default();
        store.insert_many(volumes);
        Some(store)
    }
}

/// A store that is written as a record and read back holds what it held.
pub proof fn store_survives_record(series: Map<Timestamp, TimeVolume>)
    requires
        keyed_by_timestamp(series),
    ensures
        merged(
            Map::<Timestamp, TimeVolume>::empty(),
            numbers_volumes(volumes_numbers(all_samples(series))),
        ) == series,
{
    volumes_survive_numbers(all_samples(series));
    crate::chain_data::all_samples_rebuild_series(series);
}

impl TimestampBased for VolumesStore {
    type Item = TimeVolume;

    open spec fn samples(&self) -> Map<Timestamp, TimeVolume> {
        self@
    }

    fn last_timestamp(&self) -> (last: Option<Timestamp>) {
        last_key(&self.volumes)
    }

    fn get_between(&self, range: std::ops::Range<Timestamp>) -> (found: Vec<TimeVolume>) {
        if range.start <= range.end {
            values_between(&self.volumes, range.start, range.end)
        } else {
            Vec::new()
        }
    }
}

/// The volumes that a table holds for a pair at an exchange.
pub open spec fn stored_volumes(
    table: Map<Seq<u8>, Seq<u8>>,
    exchange: Exchange,
    pair: Pair,
) -> Option<Map<Timestamp, TimeVolume>> {
    let key = series_key(exchange, pair);
    if table.contains_key(key) {
        match bytes_record(table[key]) {
            Some(record) => if is_volumes_record(record) {
                Some(merged(Map::<Timestamp, TimeVolume>::empty(), numbers_volumes(record.0)))
            } else {
                None
            },
            None => None,
        }
    } else {
        None
    }
}

/// Reads the volumes that are stored for a pair at an exchange. There are
/// none for a pair that was never written, and none for one whose symbols do
/// not fit a key.
pub fn read_volumes(table: &StableTable, exchange: Exchange, pair: &Pair) -> (found: Option<
    VolumesStore,
>)
    ensures
        match found {
            Some(store) => {
                &&& fits_key(*pair)
                &&& stored_volumes(table_entries(*table), exchange, *pair) == Some(store@)
                &&& store.wf()
            },
            None => !fits_key(*pair) || stored_volumes(table_entries(*table), exchange, *pair)
                is None,
        },
{
    if !pair.fits() {
        return None;
    }
    match table.read(&make_series_key(exchange, pair)) {
        Some(record) => VolumesStore::from_record(&record),
        None => None,
    }
}

/// Stores the volumes of a pair at an exchange, in place of those that were
/// stored for it before. Nothing is stored for a pair whose symbols do not
/// fit a key, nor a series whose record is too long.
pub fn write_volumes(table: &mut StableTable, exchange: Exchange, pair: &Pair, store: &VolumesStore) -> (saved:
    bool)
    ensures
        saved <==> fits_key(*pair) && storable(
            (volumes_numbers(all_samples(store@)), Seq::<Seq<char>>::empty()),
        ),
        saved ==> {
            &&& store.wf() ==> stored_volumes(table_entries(*final(table)), exchange, *pair)
                == Some(store@)
            &&& table_entries(*final(table)).remove(series_key(exchange, *pair)) == table_entries(
                *old(table),
            ).remove(series_key(exchange, *pair))
        },
        !saved ==> table_entries(*final(table)) == table_entries(*old(table)),
{
    if !pair.fits() {
        return false;
    }
    proof {
        if store.wf() {
            store_survives_record(store@);
        }
    }
    table.write(make_series_key(exchange, pair), &store.to_record())
}

} // verus!
