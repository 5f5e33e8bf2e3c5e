use vstd::prelude::*;
use crate::exchange::{Candle, TimeVolume};
use crate::pair::Pair;
use crate::remote_exchanges::okx::api::{
    host, GetInstrumentsRequestPublic, GetOrderBookRequest, IndexCandleStickRequest,
    SpotCandleStickRequest,
};
use crate::remote_exchanges::okx::response::{
    general_levels, CandleStick, ConcreteInstrument, IndexCandleStick, OrderBook,
};
use crate::remote_exchanges::okx::user::opt_instrument_text;
use crate::remote_exchanges::okx::Okx;
use crate::remote_exchanges::request::GeneralInstrumentsRequest;
use crate::remote_exchanges::response::{Instrument, OrderBook as GlobalOrderBook};
use crate::remote_exchanges::{
    opt_decimal, optional_field, ApiRequest, ExchangeErrors, HttpMethod, WireModel,
};
use crate::text::decimal;

verus! {

/// The most candles the exchange returns for one request.
pub const MAX_RESPONSE_CANDLES_COUNT: u32 = 300;

/// The width of the candles that volumes are read from.
pub const VOLUME_INTERVAL: u32 = 300;

/// The greatest instant, in seconds, that the exchange's millisecond clock
/// can show.
pub const MAX_SECONDS: u64 = 18446744073709551;

/// The candles of a list in general terms.
pub open spec fn general_candles(candles: Seq<CandleStick>) -> Seq<Candle> {
    candles.map_values(|candle: CandleStick| candle.general())
}

/// The index candles of a list in general terms.
pub open spec fn general_index_candles(candles: Seq<IndexCandleStick>) -> Seq<Candle> {
    candles.map_values(|candle: IndexCandleStick| candle.general())
}

/// The volumes of the candles of a list.
pub open spec fn volumes_of(candles: Seq<Candle>) -> Seq<TimeVolume> {
    candles.map_values(|candle: Candle| TimeVolume::of_candle(candle))
}

/// The volume of each candle of a list, under the candle's timestamp.
pub fn candle_volumes(candles: &Vec<Candle>) -> (volumes: Vec<TimeVolume>)
    ensures
        volumes@ == volumes_of(candles@),
{
    let mut volumes: Vec<TimeVolume> = Vec::new();
    let mut i: usize = 0;
    while i < candles.len()
        invariant
            i <= candles.len(),
            volumes@ == volumes_of(candles@.take(i as int)),
        decreases candles.len() - i,
    {
        volumes.push(TimeVolume { timestamp: candles[i].timestamp, volume: candles[i].volume });
        assert(volumes@ =~= volumes_of(candles@.take(i + 1)));
        i = i + 1;
    }
    assert(candles@.take(candles.len() as int) =~= candles@);
    volumes
}

impl Okx {
    /// What goes on the wire for a question about the candles between two
    /// instants: the instants in milliseconds, the later one as the bound
    /// after which nothing is wanted, and the most candles the exchange
    /// gives.
    pub open spec fn candles_wire(pair: Pair, begin: u64, end: u64, interval: u32) -> WireModel {
        WireModel {
            method: HttpMethod::GET,
            host: host(),
            uri: "api/v5/market/history-candles"@,
            body: false,
            path_params: false,
            public: true,
            query: seq![
                ("instId"@, Okx::instrument_text(pair)),
                ("after"@, decimal((end * 1000) as nat)),
                ("before"@, decimal((begin * 1000) as nat)),
                ("bar"@, Okx::interval_text(interval)),
                ("limit"@, decimal(300)),
            ],
            named: Seq::empty(),
        }
    }

    /// The exchange's form of a question about the candles of one chunk of
    /// time. Instants that the exchange's clock cannot show are refused.
    pub fn candles_request(pair: &Pair, begin: u64, end: u64, interval: u32) -> (out: Result<
        SpotCandleStickRequest,
        ExchangeErrors,
    >)
        ensures
            match out {
                Ok(request) => {
                    &&& begin <= MAX_SECONDS && end <= MAX_SECONDS
                    &&& request.wire() == Okx::candles_wire(*pair, begin, end, interval)
                },
                Err(e) => e is InvalidTimestamps && (begin > MAX_SECONDS || end > MAX_SECONDS),
            },
    {
        if begin > MAX_SECONDS || end > MAX_SECONDS {
            return Err(ExchangeErrors::InvalidTimestamps);
        }
        let index_name = match Okx::instrument_id(pair) {
            Some(name) => name,
            None => {
                return Err(ExchangeErrors::InvalidIndex);
            },
        };
        let request = SpotCandleStickRequest {
            end: Some(end * 1000),
            begin: Some(begin * 1000),
            bar_size: Some(Okx::interval_string(interval)),
            index_name,
            results_limit: Some(MAX_RESPONSE_CANDLES_COUNT),
        };
        assert(request.wire().query =~= Okx::candles_wire(*pair, begin, end, interval).query);
        Ok(request)
    }

    /// The candles of an answer in general terms, in the order of the
    /// answer.
    pub fn candles_response(candles: &Vec<CandleStick>) -> (general: Vec<Candle>)
        ensures
            general@ == general_candles(candles@),
    {
        let mut general: Vec<Candle> = Vec::new();
        let mut i: usize = 0;
        while i < candles.len()
            invariant
                i <= candles.len(),
                general@ == general_candles(candles@.take(i as int)),
            decreases candles.len() - i,
        {
            general.push(candles[i].to_general());
            assert(general@ =~= general_candles(candles@.take(i + 1)));
            i = i + 1;
        }
        assert(candles@.take(candles.len() as int) =~= candles@);
        general
    }

    /// What goes on the wire for a question about the candles of an index
    /// from an instant on.
    pub open spec fn index_candles_wire(pair: Pair, start: u64, interval: u32) -> WireModel {
        WireModel {
            method: HttpMethod::GET,
            host: host(),
            uri: "api/v5/market/index-candles"@,
            body: false,
            path_params: false,
            public: true,
            query: seq![
                ("instId"@, Okx::instrument_text(pair)),
                ("before"@, decimal((start * 1000) as nat)),
                ("bar"@, Okx::interval_text(interval)),
            ],
            named: Seq::empty(),
        }
    }

    /// The exchange's form of a question about the candles of an index that
    /// are newer than the start of a window.
    pub fn fetch_index_candles(pair: &Pair, range: std::ops::Range<u64>, interval: u32) -> (out:
        Result<IndexCandleStickRequest, ExchangeErrors>)
        ensures
            match out {
                Ok(request) => {
                    &&& range.start <= MAX_SECONDS
                    &&& request.wire() == Okx::index_candles_wire(*pair, range.start, interval)
                },
                Err(e) => e is InvalidTimestamps && range.start > MAX_SECONDS,
            },
    {
        if range.start > MAX_SECONDS {
            return Err(ExchangeErrors::InvalidTimestamps);
        }
        let index_name = match Okx::instrument_id(pair) {
            Some(name) => name,
            None => {
                return Err(ExchangeErrors::MissingIndex);
            },
        };
        let request = IndexCandleStickRequest {
            after_timestamp: None,
            before_timestamp: Some(range.start * 1000),
            bar_size: Some(Okx::interval_string(interval)),
            index_name,
            results_limit: None,
        };
        assert(request.wire().query =~= Okx::index_candles_wire(
            *pair,
            range.start,
            interval,
        ).query);
        Ok(request)
    }

    /// The index candles of an answer in general terms, in the order of the
    /// answer.
    pub fn index_candles_response(candles: &Vec<IndexCandleStick>) -> (general: Vec<Candle>)
        ensures
            general@ == general_index_candles(candles@),
    {
        let mut general: Vec<Candle> = Vec::new();
        let mut i: usize = 0;
        while i < candles.len()
            invariant
                i <= candles.len(),
                general@ == general_index_candles(candles@.take(i as int)),
            decreases candles.len() - i,
        {
            general.push(candles[i].to_general());
            assert(general@ =~= general_index_candles(candles@.take(i + 1)));
            i = i + 1;
        }
        assert(candles@.take(candles.len() as int) =~= candles@);
        general
    }

    /// What goes on the wire for a question about the instruments that the
    /// exchange lists for everyone.
    pub open spec fn public_instruments_wire(request: GeneralInstrumentsRequest) -> WireModel {
        WireModel {
            method: HttpMethod::GET,
            host: host(),
            uri: "api/v5/public/instruments"@,
            body: false,
            path_params: false,
            public: true,
            query: seq![("instType"@, request.instrument_type.token())] + optional_field(
                "instId"@,
                opt_instrument_text(request.instrument_id),
            ),
            named: Seq::empty(),
        }
    }

    /// The exchange's form of a question about the instruments that it lists
    /// for everyone.
    pub fn public_instruments_request(request: &GeneralInstrumentsRequest) -> (out:
        GetInstrumentsRequestPublic)
        ensures
            out.wire() == Okx::public_instruments_wire(*request),
    {
        let instrument_id = match &request.instrument_id {
            Some(pair) => Okx::instrument_id(pair),
            None => None,
        };
        GetInstrumentsRequestPublic { instrument_type: request.instrument_type, instrument_id }
    }

    /// What goes on the wire for a question about an order book to a given
    /// depth.
    pub open spec fn orderbook_wire(pair: Pair, size: u32) -> WireModel {
        WireModel {
            method: HttpMethod::GET,
            host: host(),
            uri: "api/v5/market/books"@,
            body: false,
            path_params: false,
            public: true,
            query: seq![("instId"@, Okx::instrument_text(pair)), ("sz"@, decimal(size as nat))],
            named: Seq::empty(),
        }
    }

    /// The exchange's form of a question about an order book.
    pub fn orderbook_request(pair: &Pair, size: u32) -> (out: Result<
        GetOrderBookRequest,
        ExchangeErrors,
    >)
        ensures
            out is Ok,
            out->Ok_0.wire() == Okx::orderbook_wire(*pair, size),
    {
        let instrument_id = match Okx::instrument_id(pair) {
            Some(name) => name,
            None => {
                return Err(ExchangeErrors::InvalidIndex);
            },
        };
        let request = GetOrderBookRequest { instrument_id, depth: Some(size) };
        assert(request.wire().query =~= Okx::orderbook_wire(*pair, size).query);
        Ok(request)
    }

    /// The answer to a question about an order book, in general terms: the
    /// first book of the answer. An answer without a book is refused.
    pub fn orderbook_response(books: &Vec<OrderBook>) -> (book: Result<
        GlobalOrderBook,
        ExchangeErrors,
    >)
        ensures
            match book {
                Ok(b) => {
                    &&& books@.len() > 0
                    &&& b.asks@ == general_levels(books@[0].asks@)
                    &&& b.bids@ == general_levels(books@[0].bids@)
                    &&& b.sequence == books@[0].timestamp
                },
                Err(e) => e is MissingOrderbook && books@.len() == 0,
            },
    {
        if books.len() == 0 {
            Err(ExchangeErrors::MissingOrderbook)
        } else {
            Ok(books[0].to_general())
        }
    }
}

} // verus!
