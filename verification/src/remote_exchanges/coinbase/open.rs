use vstd::prelude::*;
use crate::exchange::Candle;
use crate::pair::{sole_separator, Pair};
use crate::remote_exchanges::coinbase::request::{
    host, market_host, GetAllPairsRequest, GetProductCandles,
};
use crate::remote_exchanges::coinbase::response::{CoinbaseCandle, ConcreteInstrument};
use crate::remote_exchanges::coinbase::Coinbase;
use crate::remote_exchanges::response::Instrument;
use crate::remote_exchanges::{ApiRequest, ExchangeErrors, HttpMethod, WireModel};
use crate::text::{decimal, u64_to_decimal};

verus! {

/// The candles of a list in general terms.
pub open spec fn general_candles(candles: Seq<CoinbaseCandle>) -> Seq<Candle> {
    candles.map_values(|candle: CoinbaseCandle| candle.general())
}

/// Whether a product's name spells a pair.
pub open spec fn spells_pair(name: Seq<char>) -> bool {
    exists|at: int| sole_separator(name, at)
}

impl Coinbase {
    /// What goes on the wire for a question about the candles of one chunk
    /// of time, from its first to its last instant, both in seconds.
    pub open spec fn candles_wire(pair: Pair, first: u64, last: u64, interval: u32) -> WireModel {
        let window = seq![
            ("granularity"@, Coinbase::interval_text(interval)),
            ("start"@, decimal(first as nat)),
            ("end"@, decimal(last as nat)),
        ];
        WireModel {
            method: HttpMethod::GET,
            host: market_host(),
            uri: "products/{product_id}/candles"@,
            body: false,
            path_params: true,
            public: true,
            query: window,
            named: window + seq![("product_id"@, pair.text())],
        }
    }

    /// The exchange's form of a question about the candles of one chunk of
    /// time.
    pub fn candles_request(pair: &Pair, first: u64, last: u64, interval: u32) -> (out:
        GetProductCandles)
        ensures
            out.wire() == Coinbase::candles_wire(*pair, first, last, interval),
    {
        let out = GetProductCandles {
            product_id: pair.to_string(),
            granularity: Some(Coinbase::interval_string(interval)),
            start: Some(u64_to_decimal(first)),
            end: Some(u64_to_decimal(last)),
        };
        assert(out.wire().query =~= Coinbase::candles_wire(*pair, first, last, interval).query);
        assert(out.wire().named =~= Coinbase::candles_wire(*pair, first, last, interval).named);
        out
    }

    /// The candles of an answer in general terms, in the order of the
    /// answer.
    pub fn candles_response(candles: &Vec<CoinbaseCandle>) -> (general: Vec<Candle>)
        ensures
            general@ == general_candles(candles@),
    {
        let mut general: Vec<Candle> = Vec::new();
        let mut i: usize = 0;
        while i < candles.len()
            invariant
                i <= candles.len(),
                general@ == general_candles(candles@.take(i as int)),
            decreases candles.len() - i,
        {
            general.push(candles[i].to_general());
            assert(general@ =~= general_candles(candles@.take(i + 1)));
            i = i + 1;
        }
        assert(candles@.take(candles.len() as int) =~= candles@);
        general
    }

    /// What goes on the wire for a question about the products that the
    /// exchange lists.
    pub open spec fn public_instruments_wire() -> WireModel {
        WireModel {
            method: HttpMethod::GET,
            host: host(),
            uri: "products"@,
            body: false,
            path_params: false,
            public: true,
            query: Seq::empty(),
            named: Seq::empty(),
        }
    }

    /// The exchange's form of a question about the products that it lists:
    /// all of them, whatever was asked for.
    pub fn public_instruments_request() -> (out: GetAllPairsRequest)
        ensures
            out.wire() == Coinbase::public_instruments_wire(),
    {
        GetAllPairsRequest {  }
    }

    /// The products of an answer in general terms. An answer with a product
    /// whose name spells no pair is refused as a whole.
    pub fn public_instruments_response(listed: &Vec<ConcreteInstrument>) -> (instruments: Result<
        Vec<Instrument>,
        ExchangeErrors,
    >)
        ensures
            instruments is Ok <==> forall|i: int|
                0 <= i < listed@.len() ==> spells_pair((#[trigger] listed@[i]).display_name@),
            match instruments {
                Ok(all) => {
                    &&& all@.len() == listed@.len()
                    &&& forall|i: int|
                        0 <= i < listed@.len() ==> (#[trigger] listed@[i]).is_general(all@[i])
                },
                Err(e) => e is UnsupportedPairFormat,
            },
    {
        let mut all: Vec<Instrument> = Vec::new();
        let mut i: usize = 0;
        while i < listed.len()
            invariant
                i <= listed.len(),
                all@.len() == i,
                forall|j: int| 0 <= j < i ==> spells_pair((#[trigger] listed@[j]).display_name@),
                forall|j: int| 0 <= j < i ==> (#[trigger] listed@[j]).is_general(all@[j]),
            decreases listed.len() - i,
        {
            match listed[i].to_general() {
                Ok(instrument) => {
                    all.push(instrument);
                },
                Err(e) => {
                    assert(!spells_pair(listed@[i as int].display_name@));
                    return Err(e);
                },
            }
            i = i + 1;
        }
        Ok(all)
    }
}

} // verus!
