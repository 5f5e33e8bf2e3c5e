use vstd::prelude::*;
use crate::remote_exchanges::coinbase::request::OrderType as CoinbaseOrderType;
use crate::remote_exchanges::coinbase::Coinbase;
use crate::remote_exchanges::okx::Okx;
use crate::remote_exchanges::okx::open::{candle_volumes, volumes_of, MAX_SECONDS};
use crate::remote_exchanges::request::{GeneralInstrumentsRequest, OrderSide};
use crate::remote_exchanges::response::{BidAsk, OrderBook};
use crate::remote_exchanges::{ApiRequest, ExchangeErrors, WireModel, WireRequest};
use crate::request_store::request::Request;
use crate::chain_data::{
    can_store, fits_key, series_key, stored_candles, ChainData, ExchangeData,
};
use crate::instruments::{are_stored_pairs, stored_pairs};
use crate::pair::Pair;
use crate::remote_exchanges::okx::api::InstrumentType;
use crate::storage::{table_entries, StableTable};

verus! {

/// The exchanges the library speaks to.
#[derive(Clone, Copy, Debug, PartialEq, Eq, PartialOrd, Ord, Structural)]
pub enum Exchange {
    Okx,
    Coinbase,
}

/// An exchange that is stored and read back is the same exchange: its byte
/// is one of those that stand for an exchange, and for no other exchange.
pub proof fn exchange_survives_storage(exchange: Exchange)
    ensures
        exchange.code() <= 1,
        forall|other: Exchange| other.code() == exchange.code() ==> other == exchange,
{
}

impl Exchange {
    /// The one byte an exchange is stored as.
    pub open spec fn code(self) -> u8 {
        match self {
            Exchange::Okx => 0,
            Exchange::Coinbase => 1,
        }
    }

    pub fn to_u8(self) -> (byte: u8)
        ensures
            byte == self.code(),
    {
        match self {
            Exchange::Okx => 0,
            Exchange::Coinbase => 1,
        }
    }

    /// The exchange a byte stands for, if it stands for one.
    pub fn from_u8(value: u8) -> (exchange: Option<Exchange>)
        ensures
            match exchange {
                Some(e) => e.code() == value,
                None => value > 1,
            },
    {
        if value == 0 {
            Some(Exchange::Okx)
        } else if value == 1 {
            Some(Exchange::Coinbase)
        } else {
            None
        }
    }

    /// The stored form of an exchange: its one byte.
    pub fn to_bytes(&self) -> (bytes: Vec<u8>)
        ensures
            bytes@ == seq![self.code()],
    {
        let mut bytes: Vec<u8> = Vec::new();
        bytes.push(self.to_u8());
        assert(bytes@ =~= seq![self.code()]);
        bytes
    }

    /// Reads an exchange from its stored form: the first byte decides.
    pub fn from_bytes(bytes: &[u8]) -> (exchange: Option<Exchange>)
        ensures
            match exchange {
                Some(e) => bytes@.len() > 0 && bytes@[0] == e.code(),
                None => bytes@.len() == 0 || bytes@[0] > 1,
            },
    {
        if bytes.len() == 0 {
            None
        } else {
            Exchange::from_u8(bytes[0])
        }
    }
}

/// How many levels of an order book market depth is measured on.
pub const DEPTH_LEVELS: u32 = 50;

/// A price, a size or a volume, held as the sixty-four bits of its binary
/// encoding. The library stores and moves such values; it never computes
/// with them.
#[derive(Clone, Copy, Debug, PartialEq, Eq, Structural)]
pub struct Quantity {
    pub bits: u64,
}

impl Quantity {
    /// The quantity zero.
    pub fn zero() -> (zero: Quantity)
        ensures
            zero.bits == 0,
    {
        Quantity { bits: 0 }
    }
}

/// What happened to a price within one time bucket.
#[derive(Clone, Copy, Debug, PartialEq, Eq, Structural)]
pub struct Candle {
    /// The start of the bucket, in seconds.
    pub timestamp: u64,
    pub open_price: Quantity,
    pub highest_price: Quantity,
    pub lowest_price: Quantity,
    pub close_price: Quantity,
    pub volume: Quantity,
}

/// The volume traded within one time bucket.
#[derive(Clone, Copy, Debug, PartialEq, Eq, Structural)]
pub struct TimeVolume {
    /// The start of the bucket, in seconds.
    pub timestamp: u64,
    pub volume: Quantity,
}

impl TimeVolume {
    /// The volume of a candle, under the candle's timestamp.
    pub open spec fn of_candle(candle: Candle) -> TimeVolume {
        TimeVolume { timestamp: candle.timestamp, volume: candle.volume }
    }
}


/// Something that knows which exchange it belongs to.
pub trait ExchangeId {
    spec fn id(&self) -> Exchange;

    fn exchange_id(&self) -> (exchange: Exchange)
        ensures
            exchange == self.id(),
    ;
}

impl ExchangeId for Okx {
    open spec fn id(&self) -> Exchange {
        Exchange::Okx
    }

    fn exchange_id(&self) -> (exchange: Exchange) {
        Exchange::Okx
    }
}

impl ExchangeId for Coinbase {
    open spec fn id(&self) -> Exchange {
        Exchange::Coinbase
    }

    fn exchange_id(&self) -> (exchange: Exchange) {
        Exchange::Coinbase
    }
}

/// The adapter of one exchange, whichever it is.
#[derive(Debug)]
pub enum ExchangeImpl {
    Okx(Okx),
    Coinbase(Coinbase),
}

/// The text an outside signer signs for a request at an exchange: verb,
/// target and body of what the request puts on the wire there. A request that
/// puts nothing on the wire has the empty text. There is no text for an order
/// whose type the exchange does not know.
pub open spec fn signable_text(exchange: Exchange, request: Request) -> Option<Seq<char>> {
    match exchange {
        Exchange::Coinbase => match request {
            Request::OrdersList(orders) => Some(Coinbase::orders_wire(orders).signable()),
            Request::Balances(_) => Some(Coinbase::balance_wire().signable()),
            Request::PostOrder(order) => match CoinbaseOrderType::of_general(order.order_type) {
                Some(kind) => Some(Coinbase::order_wire(order, kind).signable()),
                None => None,
            },
            _ => Some(Seq::empty()),
        },
        Exchange::Okx => match request {
            Request::OrdersList(orders) => if orders.pending {
                Some(Okx::pending_orders_wire(orders).signable())
            } else {
                Some(Okx::done_orders_wire(orders).signable())
            },
            Request::Instruments(instruments) => Some(
                Okx::instruments_wire(instruments).signable(),
            ),
            Request::Balances(balances) => Some(Okx::balance_wire(balances).signable()),
            Request::PostOrder(order) => Some(Okx::order_wire(order).signable()),
            Request::Empty => Some(Seq::empty()),
        },
    }
}

/// Something that knows the pairs that are listed at its exchange.
pub trait ExchangeInfo: ExchangeId {
    /// The pairs of the instruments of one kind that are stored for the
    /// exchange.
    fn get_pairs(&self, table: &StableTable, instrument_type: InstrumentType) -> (pairs: Vec<Pair>)
        ensures
            are_stored_pairs(table_entries(*table), self.id(), instrument_type, pairs@),
    ;
}

impl ExchangeInfo for Okx {
    fn get_pairs(&self, table: &StableTable, instrument_type: InstrumentType) -> (pairs: Vec<Pair>) {
        stored_pairs(table, Exchange::Okx, instrument_type)
    }
}

impl ExchangeInfo for Coinbase {
    fn get_pairs(&self, table: &StableTable, instrument_type: InstrumentType) -> (pairs: Vec<Pair>) {
        stored_pairs(table, Exchange::Coinbase, instrument_type)
    }
}

impl ExchangeImpl {
    /// The pairs of the instruments of one kind that are stored for the
    /// adapter's exchange; none where nothing is stored.
    pub fn get_pairs(&self, table: &StableTable, instrument_type: InstrumentType) -> (pairs: Vec<
        Pair,
    >)
        ensures
            are_stored_pairs(table_entries(*table), self.exchange(), instrument_type, pairs@),
    {
        match self {
            ExchangeImpl::Coinbase(c) => c.get_pairs(table, instrument_type),
            ExchangeImpl::Okx(o) => o.get_pairs(table, instrument_type),
        }
    }

    /// What is stored for a pair at the adapter's exchange.
    pub fn get_data(&self, table: &StableTable, pair: &Pair) -> (found: Option<ExchangeData>)
        ensures
            match found {
                Some(data) => {
                    &&& fits_key(*pair)
                    &&& stored_candles(table_entries(*table), self.exchange(), *pair) == Some(
                        data.candles@,
                    )
                    &&& data.candles.wf()
                },
                None => !fits_key(*pair) || stored_candles(
                    table_entries(*table),
                    self.exchange(),
                    *pair,
                ) is None,
            },
    {
        match self {
            ExchangeImpl::Coinbase(c) => c.get_data(table, pair),
            ExchangeImpl::Okx(o) => o.get_data(table, pair),
        }
    }

    /// Stores the data of a pair at the adapter's exchange.
    pub fn set_data(&self, table: &mut StableTable, pair: &Pair, data: &ExchangeData) -> (saved:
        bool)
        ensures
            saved <==> can_store(*pair, *data),
            saved && data.candles.wf() ==> stored_candles(
                table_entries(*final(table)),
                self.exchange(),
                *pair,
            ) == Some(data.candles@),
            saved ==> table_entries(*final(table)).remove(series_key(self.exchange(), *pair))
                == table_entries(*old(table)).remove(series_key(self.exchange(), *pair)),
            !saved ==> table_entries(*final(table)) == table_entries(*old(table)),
    {
        match self {
            ExchangeImpl::Coinbase(c) => c.set_data(table, pair, data),
            ExchangeImpl::Okx(o) => o.set_data(table, pair, data),
        }
    }

    /// What goes on the wire when the instruments of one kind are asked of
    /// the adapter's exchange.
    pub open spec fn instruments_wire(self, instrument_type: InstrumentType) -> WireModel {
        match self {
            ExchangeImpl::Coinbase(_) => Coinbase::public_instruments_wire(),
            ExchangeImpl::Okx(_) => Okx::public_instruments_wire(
                GeneralInstrumentsRequest { instrument_type, instrument_id: None },
            ),
        }
    }

    /// The request that asks the adapter's exchange for the instruments of
    /// one kind that it lists.
    pub fn refresh_instruments(&self, instrument_type: &InstrumentType) -> (request: WireRequest)
        ensures
            request@ == self.instruments_wire(*instrument_type),
    {
        match self {
            ExchangeImpl::Coinbase(_) => Coinbase::public_instruments_request().to_wire(),
            ExchangeImpl::Okx(_) => Okx::public_instruments_request(
                &GeneralInstrumentsRequest {
                    instrument_type: *instrument_type,
                    instrument_id: None,
                },
            ).to_wire(),
        }
    }

    /// The request that asks the adapter's exchange for the candles of an
    /// index from the start of a window on. Only the first exchange has
    /// indices.
    pub fn fetch_index_candles(&self, pair: &Pair, range: std::ops::Range<u64>, interval: u32) -> (request:
        Result<WireRequest, ExchangeErrors>)
        ensures
            match request {
                Ok(r) => {
                    &&& self is Okx
                    &&& range.start <= MAX_SECONDS
                    &&& r@ == Okx::index_candles_wire(*pair, range.start, interval)
                },
                Err(e) => if self is Okx {
                    e is InvalidTimestamps && range.start > MAX_SECONDS
                } else {
                    e is MissingIndex
                },
            },
    {
        match self {
            ExchangeImpl::Okx(_) => match Okx::fetch_index_candles(pair, range, interval) {
                Ok(request) => Ok(request.to_wire()),
                Err(e) => Err(e),
            },
            ExchangeImpl::Coinbase(_) => Err(ExchangeErrors::MissingIndex),
        }
    }

    /// The volumes that takers traded, read from the candles that the
    /// adapter's exchange returned for the window: the volume of each candle,
    /// under the candle's timestamp.
    pub fn get_taker_volume(&self, candles: &Vec<Candle>) -> (volumes: Vec<TimeVolume>)
        ensures
            volumes@ == volumes_of(candles@),
    {
        candle_volumes(candles)
    }

    /// What goes on the wire when the order book of a pair is asked of the
    /// adapter's exchange.
    pub open spec fn orderbook_wire(self, pair: Pair) -> WireModel {
        match self {
            ExchangeImpl::Coinbase(_) => Coinbase::orderbook_wire(pair),
            ExchangeImpl::Okx(_) => Okx::orderbook_wire(pair, DEPTH_LEVELS),
        }
    }

    /// The request that asks the adapter's exchange for the order book of a
    /// pair, as deep as market depth is measured.
    pub fn get_orderbook(&self, pair: &Pair) -> (request: Result<WireRequest, ExchangeErrors>)
        ensures
            request is Ok,
            request->Ok_0@ == self.orderbook_wire(*pair),
    {
        match self {
            ExchangeImpl::Coinbase(_) => Ok(Coinbase::orderbook_request(pair).to_wire()),
            ExchangeImpl::Okx(_) => match Okx::orderbook_request(pair, DEPTH_LEVELS) {
                Ok(request) => Ok(request.to_wire()),
                Err(e) => Err(e),
            },
        }
    }

    /// The levels of an order book that an order on a given side meets: the
    /// asks for a purchase, the bids for a sale. A side without a level gives
    /// no price to start from and is refused.
    pub fn depth_levels(orderbook: OrderBook, side: OrderSide) -> (levels: Result<
        Vec<BidAsk>,
        ExchangeErrors,
    >)
        ensures
            match levels {
                Ok(all) => {
                    &&& all@.len() > 0
                    &&& all@ == if side == OrderSide::Buy {
                        orderbook.asks@
                    } else {
                        orderbook.bids@
                    }
                },
                Err(e) => {
                    &&& e is MissingOrderbook
                    &&& if side == OrderSide::Buy {
                        orderbook.asks@.len() == 0
                    } else {
                        orderbook.bids@.len() == 0
                    }
                },
            },
    {
        let levels = match side {
            OrderSide::Buy => orderbook.asks,
            OrderSide::Sell => orderbook.bids,
        };
        if levels.len() == 0 {
            Err(ExchangeErrors::MissingOrderbook)
        } else {
            Ok(levels)
        }
    }

    /// The exchange an adapter speaks to.
    pub open spec fn exchange(self) -> Exchange {
        match self {
            ExchangeImpl::Okx(_) => Exchange::Okx,
            ExchangeImpl::Coinbase(_) => Exchange::Coinbase,
        }
    }

    /// An adapter of the given exchange, without credentials.
    pub fn new(exchange_type: Exchange) -> (adapter: ExchangeImpl)
        ensures
            adapter.exchange() == exchange_type,
            match adapter {
                ExchangeImpl::Okx(okx) => okx.auth is None,
                ExchangeImpl::Coinbase(coinbase) => coinbase.auth is None,
            },
    {
        match exchange_type {
            Exchange::Coinbase => ExchangeImpl::Coinbase(Coinbase::default()),
            Exchange::Okx => ExchangeImpl::Okx(Okx::default()),
        }
    }

    /// The canonical string that an outside signer must sign for a request.
    /// It is built from the very request that is sent later, so the exchange
    /// finds the signature to match.
    pub fn get_signature_string(&self, request: &Request) -> (text: Result<String, ExchangeErrors>)
        ensures
            match text {
                Ok(t) => signable_text(self.exchange(), *request) == Some(t@),
                Err(e) => {
                    &&& e is UnsupportedOrderType
                    &&& signable_text(self.exchange(), *request) is None
                },
            },
    {
        match self {
            ExchangeImpl::Coinbase(c) => match request {
                Request::OrdersList(orders) => Ok(
                    c.get_signature_data(Coinbase::orders_request(orders)),
                ),
                Request::Balances(balances) => Ok(
                    c.get_signature_data(Coinbase::balance_request(balances)),
                ),
                Request::PostOrder(order) => match Coinbase::order_request(order) {
                    Ok(body) => Ok(c.get_signature_data(body)),
                    Err(e) => Err(e),
                },
                _ => Ok(String::new()),
            },
            ExchangeImpl::Okx(o) => match request {
                Request::OrdersList(orders) => if orders.pending {
                    Ok(o.get_signature_data(Okx::pending_orders_request(orders)))
                } else {
                    Ok(o.get_signature_data(Okx::done_orders_request(orders)))
                },
                Request::Instruments(instruments) => Ok(
                    o.get_signature_data(Okx::instruments_request(instruments)),
                ),
                Request::Balances(balances) => Ok(
                    o.get_signature_data(Okx::balance_request(balances)),
                ),
                Request::PostOrder(order) => Ok(o.get_signature_data(Okx::order_request(order))),
                Request::Empty => Ok(String::new()),
            },
        }
    }
}

} // verus!
