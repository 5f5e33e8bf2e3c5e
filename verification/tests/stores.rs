use candid::Principal;
use trendlens_backend::api_store::{ApiData, ApiStore};
use trendlens_backend::chain_data::candles::CandlesStore;
use trendlens_backend::chain_data::{read_data, write_data, ChainData, ExchangeData, TimestampBased};
use trendlens_backend::exchange::{Candle, Exchange, ExchangeImpl, Quantity, TimeVolume};
use trendlens_backend::instruments::{get_instruments, save_instruments};
use trendlens_backend::memory::MemoryLocation;
use trendlens_backend::pair::Pair;
use trendlens_backend::remote_exchanges::okx::api::InstrumentType;
use trendlens_backend::remote_exchanges::okx::Okx;
use trendlens_backend::remote_exchanges::response::Instrument;
use trendlens_backend::request_store::MyPrincipal;
use trendlens_backend::storage::{id_key, key_id, Memories, Record};
use trendlens_backend::volume_store::{read_volumes, write_volumes, VolumesStore};

fn quantity(value: f64) -> Quantity {
    Quantity {
        bits: value.to_bits(),
    }
}

fn candle(timestamp: u64, price: f64) -> Candle {
    Candle {
        timestamp,
        open_price: quantity(price),
        highest_price: quantity(price + 1.0),
        lowest_price: quantity(price - 1.0),
        close_price: quantity(price + 0.5),
        volume: quantity(10.0),
    }
}

fn pair(base: &str, quote: &str) -> Pair {
    Pair {
        base: base.to_string(),
        quote: quote.to_string(),
    }
}

#[test]
fn test_register_key() {
    let mut memories = Memories::new();
    let mut store = ApiStore::new(&mut memories).unwrap();
    let principal = MyPrincipal(Principal::from_text("aaaaa-aa").unwrap().as_slice().to_vec());

    let data = ApiData {
        exchange: Exchange::Okx,
        api_key: "api_key".to_string(),
        passphrase: Some("passphrase".to_string()),
    };

    store.register_key(&principal, data.clone());

    assert_eq!(store.get_by_api(&principal, &data.api_key).unwrap(), data);

    assert!(store.get_id(&data.api_key).is_some());
    assert_eq!(store.get_id(&data.api_key), Some(1));
}

#[test]
fn credentials_belong_to_their_caller() {
    let mut memories = Memories::new();
    let mut store = ApiStore::new(&mut memories).unwrap();
    let first = MyPrincipal(vec![1]);
    let second = MyPrincipal(vec![2, 2]);
    let one = ApiData {
        exchange: Exchange::Okx,
        api_key: "one".to_string(),
        passphrase: None,
    };
    let two = ApiData {
        exchange: Exchange::Coinbase,
        api_key: "two".to_string(),
        passphrase: Some("p".to_string()),
    };
    assert_eq!(store.register_key(&first, one.clone()), Some(1));
    assert_eq!(store.register_key(&second, two.clone()), Some(2));
    assert_eq!(store.register_key(&first, two.clone()), Some(3));

    assert_eq!(store.get_by_api(&first, &"one".to_string()), Some(one.clone()));
    assert_eq!(store.get_by_api(&second, &"one".to_string()), None);
    assert_eq!(store.get_by_api(&first, &"two".to_string()), Some(two.clone()));
    assert_eq!(store.get_by_api(&first, &"three".to_string()), None);
    assert_eq!(store.get_id(&"three".to_string()), None);

    assert_eq!(store.remove_key(&first, &"one".to_string()), Some(one));
    assert_eq!(store.get_by_api(&first, &"one".to_string()), None);
    assert_eq!(store.remove_key(&first, &"one".to_string()), None);
    // the api key keeps its identifier
    assert_eq!(store.get_id(&"one".to_string()), Some(1));
}

#[test]
fn test_serialize() {
    let record = Record {
        numbers: vec![42, 1234567890],
        texts: vec!["owner".to_string()],
    };
    let bytes = record.to_bytes();
    let read = Record::from_bytes(&bytes).unwrap();
    assert_eq!(read.numbers, record.numbers);
    assert_eq!(read.texts, record.texts);
    assert_ne!(bytes, Record { numbers: vec![42], texts: vec![] }.to_bytes());
}

#[test]
fn identifiers_are_written_most_significant_byte_first() {
    assert_eq!(id_key(0), vec![0, 0, 0, 0]);
    assert_eq!(id_key(1), vec![0, 0, 0, 1]);
    assert_eq!(id_key(0x0102_0304), vec![1, 2, 3, 4]);
    assert_eq!(id_key(u32::MAX), vec![255, 255, 255, 255]);
    assert_eq!(key_id(&vec![1, 2, 3, 4]), Some(0x0102_0304));
    assert_eq!(key_id(&vec![255, 255, 255, 255, 9]), Some(u32::MAX));
    assert_eq!(key_id(&vec![1, 2, 3]), None);
    assert!(id_key(255) < id_key(256));
}

#[test]
fn memory_locations_are_distinct() {
    let all = [
        MemoryLocation::Exchanges,
        MemoryLocation::UserKeys,
        MemoryLocation::ApiKeys,
        MemoryLocation::Instructions,
        MemoryLocation::Transactions,
        MemoryLocation::UserTransactions,
        MemoryLocation::ExchangeInstruments,
        MemoryLocation::Volumes,
    ];
    let ids: Vec<u8> = all.iter().map(|l| l.memory_id()).collect();
    assert_eq!(ids, vec![1, 2, 3, 4, 5, 6, 7, 8]);
}

#[test]
fn pair_survives_its_bytes() {
    for (base, quote) in [("BTC", "USD"), ("", "X"), ("ETHEREUMCLSC", "€uro"), ("a😀b", "USDT")] {
        let written = pair(base, quote);
        assert!(written.fits());
        let bytes = written.to_bytes();
        assert_eq!(bytes.len(), 48);
        assert_eq!(Pair::from_bytes(&bytes), Some(written));
    }
    let bytes = pair("BTC", "USD").to_bytes();
    assert_eq!(&bytes[0..8], &[66, 0, 84, 0, 67, 0, 0, 0]);
    assert_eq!(&bytes[24..32], &[85, 0, 83, 0, 68, 0, 0, 0]);
    assert_eq!(Pair::from_bytes(&bytes[0..47]), None);
    assert!(!pair("THIRTEENCHARS", "USD").fits());
    assert!(!pair("😀😀😀😀😀😀😀", "USD").fits());
}

#[test]
fn symbol_units_stop_at_the_first_zero() {
    assert_eq!(Pair::encode_u16("AB"), [65, 66, 0, 0, 0, 0, 0, 0, 0, 0, 0, 0]);
    assert_eq!(
        Pair::encode_u16("😀"),
        [0xD83D, 0xDE00, 0, 0, 0, 0, 0, 0, 0, 0, 0, 0]
    );
    assert_eq!(Pair::decode_string(&[65, 66, 0, 67]), "AB");
    assert_eq!(Pair::decode_string(&[0xD83D, 0xDE00]), "😀");
    // half a pair stands for no character
    assert_eq!(Pair::decode_string(&[0xD83D, 65]), "\u{FFFD}A");
    assert_eq!(Pair::decode_string(&[0xDE00]), "\u{FFFD}");
    assert_eq!(Pair::decode_string(&[]), "");
}

#[test]
fn instrument_type_survives_its_bytes() {
    for kind in [
        InstrumentType::Spot,
        InstrumentType::Futures,
        InstrumentType::Swap,
        InstrumentType::Option,
        InstrumentType::Margin,
    ] {
        assert_eq!(InstrumentType::from_bytes(&kind.to_bytes()), Some(kind));
        assert_eq!(InstrumentType::from_str(&kind.to_string()), Ok(kind));
    }
    assert_eq!(InstrumentType::Swap.to_bytes(), vec![2]);
    assert_eq!(InstrumentType::from_bytes(&[5]), None);
    assert_eq!(InstrumentType::from_bytes(&[]), None);
    assert_eq!(
        InstrumentType::from_str("spot"),
        Err("Unknown instrument type: spot".to_string())
    );
    for exchange in [Exchange::Okx, Exchange::Coinbase] {
        assert_eq!(Exchange::from_bytes(&exchange.to_bytes()), Some(exchange));
    }
    assert_eq!(Exchange::from_u8(2), None);
}

#[test]
fn instruments_are_stored_by_exchange_and_kind() {
    let mut memories = Memories::new();
    let mut table = memories.table_at(MemoryLocation::ExchangeInstruments).unwrap();
    let listed = vec![
        Instrument {
            instrument_id: pair("BTC", "USD"),
            instrument_type: InstrumentType::Spot,
        },
        Instrument {
            instrument_id: pair("ETH", "EUR"),
            instrument_type: InstrumentType::Spot,
        },
    ];
    assert!(get_instruments(&table, Exchange::Okx, InstrumentType::Spot).is_none());
    assert!(save_instruments(
        &mut table,
        Exchange::Okx,
        InstrumentType::Spot,
        listed
    ));
    let found = get_instruments(&table, Exchange::Okx, InstrumentType::Spot).unwrap();
    assert_eq!(found.len(), 2);
    assert_eq!(found[1].instrument_id, pair("ETH", "EUR"));
    assert_eq!(found[1].instrument_type, InstrumentType::Spot);
    assert!(get_instruments(&table, Exchange::Coinbase, InstrumentType::Spot).is_none());
    assert!(get_instruments(&table, Exchange::Okx, InstrumentType::Swap).is_none());

    let pairs = ExchangeImpl::new(Exchange::Okx).get_pairs(&table, InstrumentType::Spot);
    assert_eq!(pairs, vec![pair("BTC", "USD"), pair("ETH", "EUR")]);
    let pairs = ExchangeImpl::new(Exchange::Coinbase).get_pairs(&table, InstrumentType::Spot);
    assert!(pairs.is_empty());
}

#[test]
fn series_survive_storage() {
    let mut memories = Memories::new();
    let mut table = memories.table_at(MemoryLocation::Exchanges).unwrap();
    let btc = pair("BTC", "USD");

    assert!(read_data(&table, Exchange::Okx, &btc).is_none());

    let mut data = ExchangeData::default();
    data.candles
        .insert_many(vec![candle(20, 2.0), candle(10, 1.0), candle(u64::MAX, 3.0)]);
    assert!(Okx::default().set_data(&mut table, &btc, &data));

    let found = ExchangeImpl::new(Exchange::Okx)
        .get_data(&table, &btc)
        .unwrap();
    assert_eq!(
        found.candles.to_vec(),
        vec![candle(10, 1.0), candle(20, 2.0), candle(u64::MAX, 3.0)]
    );
    assert_eq!(found.candles.last_timestamp(), Some(u64::MAX));
    assert!(read_data(&table, Exchange::Coinbase, &btc).is_none());
    assert!(read_data(&table, Exchange::Okx, &pair("BTC", "EUR")).is_none());

    // a pair that does not fit a key is not stored
    let long = pair("THIRTEENCHARS", "USD");
    assert!(!write_data(&mut table, Exchange::Okx, &long, &data));
    assert!(read_data(&table, Exchange::Okx, &long).is_none());

    let mut volumes_table = memories.table_at(MemoryLocation::Volumes).unwrap();
    let mut volumes = VolumesStore::default();
    volumes.insert(TimeVolume {
        timestamp: 5,
        volume: quantity(7.5),
    });
    assert!(write_volumes(&mut volumes_table, Exchange::Coinbase, &btc, &volumes));
    let found = read_volumes(&volumes_table, Exchange::Coinbase, &btc).unwrap();
    assert_eq!(
        found.to_vec(),
        vec![TimeVolume {
            timestamp: 5,
            volume: quantity(7.5)
        }]
    );
    assert!(read_volumes(&volumes_table, Exchange::Okx, &btc).is_none());
    let _ = CandlesStore::default();
}

#[test]
fn table_is_handed_out_once() {
    let mut memories = Memories::new();
    assert!(!memories.is_open(MemoryLocation::Volumes));
    assert!(memories.table_at(MemoryLocation::Volumes).is_some());
    assert!(memories.is_open(MemoryLocation::Volumes));
    assert!(memories.table_at(MemoryLocation::Volumes).is_none());
    assert!(memories.table_at(MemoryLocation::Exchanges).is_some());

    assert!(ApiStore::new(&mut memories).is_some());
    assert!(ApiStore::new(&mut memories).is_none());
    assert!(memories.is_open(MemoryLocation::ApiKeys));

    let mut other = Memories::new();
    assert!(other.table_at(MemoryLocation::Transactions).is_some());
    // one of its tables is out already: the store is not made, and the
    // others stay where they are
    assert!(trendlens_backend::request_store::TransactionStore::new(&mut other).is_none());
    assert!(!other.is_open(MemoryLocation::Instructions));
    assert!(!other.is_open(MemoryLocation::UserTransactions));
}
