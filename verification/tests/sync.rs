use trendlens_backend::chain_data::candles::CandlesStore;
use trendlens_backend::chain_data::TimestampBased;
use trendlens_backend::exchange::{Candle, Quantity, TimeVolume};
use trendlens_backend::remote_exchanges::coinbase::Coinbase;
use trendlens_backend::remote_exchanges::okx::open::candle_volumes;
use trendlens_backend::remote_exchanges::okx::response::{CandleStick, IndexCandleStick};
use trendlens_backend::remote_exchanges::okx::Okx;
use trendlens_backend::remote_exchanges::{ApiRequest, ChunkedFetch, ExchangeErrors};
use trendlens_backend::pair::Pair;
use trendlens_backend::volume_store::VolumesStore;
use trendlens_backend::{
    finish_pull_candles, finish_pull_volumes, get_last_timestamp, get_range_to_fetch, get_volumes,
    initialize_volume_store, plan_pull_candles, plan_pull_volumes, SyncPlan,
};

fn quantity(value: f64) -> Quantity {
    Quantity {
        bits: value.to_bits(),
    }
}

fn candle(timestamp: u64, price: f64) -> Candle {
    Candle {
        timestamp,
        open_price: quantity(price),
        highest_price: quantity(price),
        lowest_price: quantity(price),
        close_price: quantity(price),
        volume: quantity(1.0),
    }
}

fn store(candles: Vec<Candle>) -> CandlesStore {
    let mut store = CandlesStore::default();
    store.insert_many(candles);
    store
}

#[test]
fn test_first_timestamp_to_fetch() {
    let stop = 10;
    let current = 5;

    assert_eq!(get_range_to_fetch(stop, current), Some(5..10));
}

#[test]
fn test_first_timestamp_to_fetch_no_fetch() {
    let stop = 10;
    let current = 15;

    assert_eq!(get_range_to_fetch(stop, current), None);
}

#[test]
fn nothing_is_fetched_up_to_the_current_instant() {
    assert_eq!(get_range_to_fetch(10, 10), None);
    assert_eq!(get_range_to_fetch(0, 0), None);
    assert_eq!(get_range_to_fetch(u64::MAX, 0), Some(0..u64::MAX));
}

#[test]
fn window_must_start_before_its_end() {
    assert!(matches!(
        plan_pull_candles(10, 10, Some(5)),
        Err(ExchangeErrors::InvalidTimestamps)
    ));
    assert!(matches!(
        plan_pull_candles(11, 10, None),
        Err(ExchangeErrors::InvalidTimestamps)
    ));
}

#[test]
fn only_the_missing_part_is_fetched() {
    // the series ends inside the window
    assert_eq!(
        plan_pull_candles(0, 100, Some(40)).unwrap(),
        SyncPlan {
            fetch: Some(40..100),
            stored: Some(0..40)
        }
    );
    // the series ends where the window ends
    assert_eq!(
        plan_pull_candles(0, 100, Some(100)).unwrap(),
        SyncPlan {
            fetch: None,
            stored: Some(0..100)
        }
    );
    // the series reaches beyond the window
    assert_eq!(
        plan_pull_candles(10, 20, Some(500)).unwrap(),
        SyncPlan {
            fetch: None,
            stored: Some(10..20)
        }
    );
    // the series ends before the window starts
    assert_eq!(
        plan_pull_candles(50, 100, Some(40)).unwrap(),
        SyncPlan {
            fetch: Some(40..100),
            stored: None
        }
    );
    // an empty series counts as ending where the window starts
    assert_eq!(
        plan_pull_candles(50, 100, None).unwrap(),
        SyncPlan {
            fetch: Some(50..100),
            stored: Some(50..50)
        }
    );
}

#[test]
fn fetched_candles_come_first_and_are_stored() {
    let mut series = store(vec![candle(10, 1.0), candle(20, 2.0), candle(30, 3.0)]);
    let last = get_last_timestamp(&series);
    assert_eq!(last, Some(30));
    let plan = plan_pull_candles(15, 50, last).unwrap();
    assert_eq!(plan.fetch, Some(30..50));
    assert_eq!(plan.stored, Some(15..30));

    let fetched = vec![candle(40, 4.0), candle(30, 3.5)];
    let all = finish_pull_candles(&mut series, &plan, fetched);
    // what was fetched, then what was stored in the window
    assert_eq!(all, vec![candle(40, 4.0), candle(30, 3.5), candle(20, 2.0)]);
    // the fetched candle took the place of the stored one with its timestamp
    assert_eq!(
        series.to_vec(),
        vec![candle(10, 1.0), candle(20, 2.0), candle(30, 3.5), candle(40, 4.0)]
    );
}

#[test]
fn stored_window_is_returned_without_a_fetch() {
    let mut series = store(vec![candle(10, 1.0), candle(20, 2.0), candle(30, 3.0)]);
    let plan = plan_pull_candles(10, 30, get_last_timestamp(&series)).unwrap();
    assert_eq!(plan.fetch, None);
    let all = finish_pull_candles(&mut series, &plan, vec![]);
    assert_eq!(all, vec![candle(10, 1.0), candle(20, 2.0)]);
    assert_eq!(series.to_vec().len(), 3);
}

#[test]
fn same_sample_twice_is_one_entry() {
    let mut series = CandlesStore::default();
    series.insert(candle(10, 1.0));
    series.insert(candle(10, 1.0));
    assert_eq!(series.to_vec(), vec![candle(10, 1.0)]);
    series.insert_many(vec![candle(10, 2.0), candle(10, 3.0)]);
    assert_eq!(series.to_vec(), vec![candle(10, 3.0)]);
    assert_eq!(series.get_between(0..10), vec![]);
    assert_eq!(series.get_between(10..11), vec![candle(10, 3.0)]);
    assert_eq!(series.get_between(11..10), vec![]);
    assert_eq!(CandlesStore::default().last_timestamp(), None);
}

#[test]
fn volumes_continue_from_the_last_sample() {
    let mut series = VolumesStore::default();
    assert!(matches!(
        plan_pull_volumes(100, series.last_timestamp()),
        Err(ExchangeErrors::MissingTimestamp)
    ));
    initialize_volume_store(&mut series, 40);
    assert_eq!(
        series.to_vec(),
        vec![TimeVolume {
            timestamp: 40,
            volume: Quantity { bits: 0 }
        }]
    );
    assert_eq!(
        plan_pull_volumes(100, series.last_timestamp()).unwrap(),
        Some(40..100)
    );
    assert_eq!(plan_pull_volumes(40, series.last_timestamp()).unwrap(), None);

    let fetched = vec![
        TimeVolume {
            timestamp: 50,
            volume: quantity(5.0),
        },
        TimeVolume {
            timestamp: 60,
            volume: quantity(6.0),
        },
    ];
    assert_eq!(finish_pull_volumes(&mut series, fetched.clone()), fetched);
    assert_eq!(get_volumes(&series, 45), fetched);
    assert_eq!(get_volumes(&series, 0).len(), 3);
    assert_eq!(candle_volumes(&vec![candle(7, 1.0)])[0].timestamp, 7);
    assert_eq!(candle_volumes(&vec![candle(7, 1.0)])[0].volume, quantity(1.0));
}

#[test]
fn chunks_follow_one_another() {
    let mut fetch = ChunkedFetch::new(0..1000, 1, false);
    assert_eq!(fetch.next_chunk(), Some((0, 300)));
    assert_eq!(fetch.next_chunk(), Some((301, 601)));
    assert_eq!(fetch.next_chunk(), Some((602, 902)));
    assert_eq!(fetch.next_chunk(), Some((903, 1000)));
    assert_eq!(fetch.next_chunk(), None);
    assert_eq!(fetch.next_chunk(), None);

    // the end of the window is itself fetched where the exchange counts it in
    let mut fetch = ChunkedFetch::new(0..300, 1, true);
    assert_eq!(fetch.next_chunk(), Some((0, 300)));
    assert_eq!(fetch.next_chunk(), None);
    let mut fetch = ChunkedFetch::new(0..301, 1, true);
    assert_eq!(fetch.next_chunk(), Some((0, 300)));
    assert_eq!(fetch.next_chunk(), Some((301, 301)));
    assert_eq!(fetch.next_chunk(), None);

    let mut fetch = ChunkedFetch::new(5..5, 1, false);
    assert_eq!(fetch.next_chunk(), None);
    let mut fetch = ChunkedFetch::new(u64::MAX - 1..u64::MAX, u32::MAX, true);
    assert_eq!(fetch.next_chunk(), Some((u64::MAX - 1, u64::MAX)));
    assert_eq!(fetch.next_chunk(), None);
}

#[test]
fn candle_requests_speak_the_exchange_clock() {
    let pair = Pair {
        base: "btc".to_string(),
        quote: "usd".to_string(),
    };
    let request = Okx::candles_request(&pair, 10, 310, 1).unwrap();
    assert_eq!(
        request.to_wire().url(),
        "https://www.okx.com/api/v5/market/history-candles?instId=BTC-USD&after=310000&before=10000&bar=1m&limit=300"
    );
    assert!(matches!(
        Okx::candles_request(&pair, 10, u64::MAX, 1),
        Err(ExchangeErrors::InvalidTimestamps)
    ));
    let request = Okx::fetch_index_candles(&pair, 7..9, 1).unwrap();
    assert_eq!(
        request.to_wire().url(),
        "https://www.okx.com/api/v5/market/index-candles?instId=BTC-USD&before=7000&bar=1m"
    );
    let request = Okx::orderbook_request(&pair, 50).unwrap();
    assert_eq!(
        request.to_wire().url(),
        "https://www.okx.com/api/v5/market/books?instId=BTC-USD&sz=50"
    );

    let upper = Pair {
        base: "BTC".to_string(),
        quote: "USD".to_string(),
    };
    let request = Coinbase::candles_request(&upper, 10, 310, 300);
    assert_eq!(
        request.to_wire().url(),
        "https://api.exchange.coinbase.com/products/BTC-USD/candles?granularity=300&start=10&end=310"
    );
    let request = Coinbase::orderbook_request(&upper);
    assert_eq!(
        request.to_wire().url(),
        "https://api-public.sandbox.exchange.coinbase.com/products/BTC-USD/book?level=1"
    );
    assert_eq!(Coinbase::interval_string(60), "60");
    assert_eq!(Coinbase::interval_string(61), "300");
}

#[test]
fn exchange_candles_are_read_in_seconds() {
    let stick = CandleStick {
        timestamp: 1620000000999,
        open_price: quantity(1.0),
        highest_price: quantity(2.0),
        lowest_price: quantity(0.5),
        close_price: quantity(1.5),
        volume: quantity(9.0),
        volume_currency: "9".to_string(),
        volume_currency_quote: "9".to_string(),
        confirm: "1".to_string(),
    };
    let general = Okx::candles_response(&vec![stick]);
    assert_eq!(general.len(), 1);
    assert_eq!(general[0].timestamp, 1620000000);
    assert_eq!(general[0].volume, quantity(9.0));
    assert_eq!(general[0].highest_price, quantity(2.0));

    let index = IndexCandleStick {
        timestamp: 1620000000000,
        open_price: quantity(1.0),
        highest_price: quantity(1.0),
        lowest_price: quantity(1.0),
        close_price: quantity(1.0),
        confirm: 1,
    };
    let general = Okx::index_candles_response(&vec![index]);
    assert_eq!(general[0].timestamp, 1620000000);
    assert_eq!(general[0].volume, Quantity { bits: 0 });
}
