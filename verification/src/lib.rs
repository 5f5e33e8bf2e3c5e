//! Market data and trading instructions for a canister that speaks to
//! cryptocurrency exchanges.
//!
//! The library keeps series of candles and volumes in step with the
//! exchanges, fetching only what a series does not hold yet; it turns
//! instructions into the requests of each exchange and into the text that an
//! outside signer signs for them; it keeps transactions and credentials in
//! durable tables; and it carries the instructions of a transaction out one
//! after the other. It issues no call itself: it hands the calls to its
//! caller and takes the answers back.

use vstd::prelude::*;
use crate::chain_data::candles::candles_numbers;
use crate::chain_data::{
    all_samples, between, fits_key, is_last, merged, series_key, stored_candles, write_data,
    CandlesStore, ExchangeData, Timestamp, TimestampBased,
};
use crate::exchange::{Candle, Exchange, Quantity, TimeVolume};
use crate::pair::Pair;
use crate::remote_exchanges::ExchangeErrors;
use crate::storage::{storable, table_entries, StableTable};
use crate::volume_store::VolumesStore;

pub mod api_client;
pub mod api_store;
pub mod chain_data;
pub mod exchange;
pub mod execution;
pub mod instruments;
pub mod memory;
pub mod pair;
pub mod remote_exchanges;
pub mod request_store;
pub mod storage;
pub mod text;
pub mod utf16;
pub mod volume_store;

verus! {

/// The window that still has to be fetched from an exchange when a series
/// already holds everything up to `current` and the caller asks for data up to
/// `stop`: nothing when the series already reaches `stop`, otherwise the
/// half-open window that starts where the series ends.
pub open spec fn range_to_fetch(stop: u64, current: u64) -> Option<(u64, u64)> {
    if stop > current {
        Some((current, stop))
    } else {
        None
    }
}

/// The window to fetch so that a series that ends at `current` reaches
/// `stop`, or nothing where it already does.
pub fn get_range_to_fetch(stop: u64, current: u64) -> (window: Option<std::ops::Range<u64>>)
    ensures
        window is None <==> stop <= current,
        match window {
            Some(r) => range_to_fetch(stop, current) == Some((r.start, r.end)),
            None => range_to_fetch(stop, current) is None,
        },
{
    if stop > current {
        Some(current..stop)
    } else {
        None
    }
}

/// A window of time: its start, and the instant before which it ends.
pub open spec fn window_of(range: Option<std::ops::Range<u64>>) -> Option<(u64, u64)> {
    match range {
        Some(r) => Some((r.start, r.end)),
        None => None,
    }
}

/// The window to fetch from the exchange when `[start, end)` is asked for and
/// the series ends at `last`. An empty series counts as ending at `start`.
pub open spec fn fetch_window(start: u64, end: u64, last: Option<u64>) -> Option<(u64, u64)> {
    range_to_fetch(
        end,
        match last {
            Some(l) => l,
            None => start,
        },
    )
}

/// The window to read from the series when `[start, end)` is asked for and
/// the series ends at `last`: the whole of it where nothing is fetched, the
/// part before `last` where the rest is fetched, and nothing where the series
/// ends before the window starts.
pub open spec fn stored_window(start: u64, end: u64, last: Option<u64>) -> Option<(u64, u64)> {
    let last = match last {
        Some(l) => l,
        None => start,
    };
    if end <= last {
        Some((start, end))
    } else if start <= last {
        Some((start, last))
    } else {
        None
    }
}

/// The samples that a window selects from a series; none where there is no
/// window.
pub open spec fn stored_part<T>(series: Map<Timestamp, T>, window: Option<(u64, u64)>) -> Seq<T> {
    match window {
        Some((start, end)) => between(series, start as int, end as int),
        None => Seq::empty(),
    }
}

/// What one synchronization of a window needs from the exchange and from the
/// series.
#[derive(Debug, PartialEq, Eq)]
pub struct SyncPlan {
    /// The window to fetch from the exchange, if any.
    pub fetch: Option<std::ops::Range<u64>>,
    /// The window to read from the series, if any.
    pub stored: Option<std::ops::Range<u64>>,
}

/// Plans the synchronization of `[start, end)` for a series whose latest
/// timestamp is `last`. Only what the series does not reach is fetched. A
/// window that does not start before its end is refused.
pub fn plan_pull_candles(start: u64, end: u64, last: Option<u64>) -> (plan: Result<
    SyncPlan,
    ExchangeErrors,
>)
    ensures
        match plan {
            Ok(p) => {
                &&& start < end
                &&& window_of(p.fetch) == fetch_window(start, end, last)
                &&& window_of(p.stored) == stored_window(start, end, last)
            },
            Err(e) => e is InvalidTimestamps && start >= end,
        },
{
    if start >= end {
        return Err(ExchangeErrors::InvalidTimestamps);
    }
    let last_timestamp = match last {
        Some(l) => l,
        None => start,
    };
    let fetch = get_range_to_fetch(end, last_timestamp);
    let stored = match fetch {
        Some(_) => if start <= last_timestamp {
            Some(start..last_timestamp)
        } else {
            None
        },
        None => Some(start..end),
    };
    Ok(SyncPlan { fetch, stored })
}

/// Completes a synchronization with what the exchange returned for the
/// plan's fetch window: the fetched candles are written into the series, and
/// the caller gets them followed by the candles that the series held in the
/// plan's stored window before.
pub fn finish_pull_candles(store: &mut CandlesStore, plan: &SyncPlan, fetched: Vec<Candle>) -> (all:
    Vec<Candle>)
    ensures
        all@ == fetched@ + stored_part(old(store)@, window_of(plan.stored)),
        final(store)@ == merged(old(store)@, fetched@),
        old(store).wf() ==> final(store).wf(),
{
    let mut stored = match &plan.stored {
        Some(range) => store.get_between(range.start..range.end),
        None => Vec::new(),
    };
    let mut all = fetched.clone();
    store.insert_many(fetched);
    all.append(&mut stored);
    all
}

/// The latest timestamp of a series of candles.
pub fn get_last_timestamp(store: &CandlesStore) -> (last: Option<u64>)
    ensures
        match last {
            Some(key) => is_last(store@, key),
            None => forall|other: Timestamp| !store@.contains_key(other),
        },
{
    assert(store.samples() == store@);
    store.last_timestamp()
}

/// Plans the synchronization of a series of volumes up to `end`. A series
/// without a first sample has no instant to continue from and is refused.
pub fn plan_pull_volumes(end: u64, last: Option<u64>) -> (window: Result<
    Option<std::ops::Range<u64>>,
    ExchangeErrors,
>)
    ensures
        match window {
            Ok(w) => last is Some && window_of(w) == range_to_fetch(end, last->0),
            Err(e) => e is MissingTimestamp && last is None,
        },
{
    match last {
        Some(timestamp) => Ok(get_range_to_fetch(end, timestamp)),
        None => Err(ExchangeErrors::MissingTimestamp),
    }
}

/// Completes a synchronization of volumes: the fetched samples are written
/// into the series and handed back.
pub fn finish_pull_volumes(store: &mut VolumesStore, fetched: Vec<TimeVolume>) -> (all: Vec<
    TimeVolume,
>)
    ensures
        all@ == fetched@,
        final(store)@ == merged(old(store)@, fetched@),
        old(store).wf() ==> final(store).wf(),
{
    let all = fetched.clone();
    store.insert_many(fetched);
    all
}

/// The volumes of a series from `start` on.
pub fn get_volumes(store: &VolumesStore, start: u64) -> (found: Vec<TimeVolume>)
    ensures
        found@ == between(store@, start as int, u64::MAX as int),
{
    store.get_between(start..u64::MAX)
}

/// Gives a series of volumes its first instant: a sample without volume, from
/// which synchronization continues.
pub fn initialize_volume_store(store: &mut VolumesStore, timestamp: u64)
    ensures
        final(store)@ == old(store)@.insert(
            timestamp,
            TimeVolume { timestamp, volume: Quantity { bits: 0 } },
        ),
        old(store).wf() ==> final(store).wf(),
{
    store.insert(TimeVolume { timestamp, volume: Quantity::zero() });
}

/// Gives a pair at an exchange its series: an empty one, in place of
/// whatever was stored for the pair before.
pub fn initialize_pair(table: &mut StableTable, exchange: Exchange, pair: &Pair) -> (saved: bool)
    ensures
        saved <==> fits_key(*pair) && storable(
            (
                candles_numbers(all_samples(Map::<Timestamp, Candle>::empty())),
                Seq::<Seq<char>>::empty(),
            ),
        ),
        saved ==> {
            &&& stored_candles(table_entries(*final(table)), exchange, *pair) == Some(
                Map::<Timestamp, Candle>::empty(),
            )
            &&& table_entries(*final(table)).remove(series_key(exchange, *pair)) == table_entries(
                *old(table),
            ).remove(series_key(exchange, *pair))
        },
        !saved ==> table_entries(*final(table)) == table_entries(*old(table)),
{
    write_data(table, exchange, pair, &ExchangeData::default())
}

/// Where a series ends inside the window asked for, only the part after its
/// end is fetched, and the part before it is read from the series: nothing
/// that is stored is asked for again.
pub proof fn sync_fetches_only_what_is_missing(start: u64, end: u64, last: u64)
    requires
        start < last <= end,
    ensures
        last < end ==> fetch_window(start, end, Some(last)) == Some((last, end)),
        last == end ==> fetch_window(start, end, Some(last)) is None,
        stored_window(start, end, Some(last)) == Some((start, last)),
{
}

/// Where a series reaches the end of the window asked for, nothing is
/// fetched and the caller gets exactly what the series holds in the window.
pub proof fn sync_within_stored_data_fetches_nothing<T>(
    series: Map<Timestamp, T>,
    start: u64,
    end: u64,
    last: u64,
)
    requires
        end <= last,
    ensures
        fetch_window(start, end, Some(last)) is None,
        Seq::<T>::empty() + stored_part(series, stored_window(start, end, Some(last))) == between(
            series,
            start as int,
            end as int,
        ),
{
    assert(Seq::<T>::empty() + between(series, start as int, end as int) =~= between(
        series,
        start as int,
        end as int,
    ));
}

} // verus!
