use vstd::prelude::*;
use crate::exchange::{Candle, Quantity};
use crate::pair::{sole_separator, Pair};
use crate::remote_exchanges::okx::api::InstrumentType;
use crate::remote_exchanges::request::OrderSide;
use crate::remote_exchanges::response::{
    ApiResponseWrapper, Balance, BidAsk as GlobalBidAsk, Instrument, Order as GlobalOrder,
    OrderBook as GlobalOrderBook, OrderData,
};
use crate::remote_exchanges::ExchangeErrors;
use crate::text::{concat, same_text, uppercase};

verus! {

/// Whether a product can be traded.
#[derive(Clone, Copy, Debug, PartialEq, Eq, Structural)]
pub enum InstrumentStatus {
    Online,
    Offline,
    Internal,
    Delisted,
}

impl InstrumentStatus {
    pub open spec fn token(self) -> Seq<char> {
        match self {
            InstrumentStatus::Online => "online"@,
            InstrumentStatus::Offline => "offline"@,
            InstrumentStatus::Internal => "internal"@,
            InstrumentStatus::Delisted => "delisted"@,
        }
    }

    pub fn from_str(s: &str) -> (parsed: Result<InstrumentStatus, String>)
        ensures
            match parsed {
                Ok(status) => s@ == status.token(),
                Err(message) => {
                    &&& message@ == "Unknown instrument status: "@ + s@
                    &&& forall|status: InstrumentStatus| s@ != status.token()
                },
            },
    {
        if same_text(s, "online") {
            Ok(InstrumentStatus::Online)
        } else if same_text(s, "offline") {
            Ok(InstrumentStatus::Offline)
        } else if same_text(s, "internal") {
            Ok(InstrumentStatus::Internal)
        } else if same_text(s, "delisted") {
            Ok(InstrumentStatus::Delisted)
        } else {
            Err(concat("Unknown instrument status: ", s))
        }
    }
}

/// Where an order stands.
#[derive(Clone, Copy, Debug, PartialEq, Eq, Structural)]
pub enum OrderStatus {
    Open,
    Pending,
    Rejected,
    Done,
    Active,
    Received,
    All,
}

impl OrderStatus {
    pub open spec fn token(self) -> Seq<char> {
        match self {
            OrderStatus::Open => "open"@,
            OrderStatus::Pending => "pending"@,
            OrderStatus::Rejected => "rejected"@,
            OrderStatus::Done => "done"@,
            OrderStatus::Active => "active"@,
            OrderStatus::Received => "received"@,
            OrderStatus::All => "all"@,
        }
    }

    pub fn as_str(&self) -> (word: &'static str)
        ensures
            word@ == self.token(),
    {
        match self {
            OrderStatus::Open => "open",
            OrderStatus::Pending => "pending",
            OrderStatus::Rejected => "rejected",
            OrderStatus::Done => "done",
            OrderStatus::Active => "active",
            OrderStatus::Received => "received",
            OrderStatus::All => "all",
        }
    }

    pub fn to_string(&self) -> (word: String)
        ensures
            word@ == self.token(),
    {
        String::from_str(self.as_str())
    }

    pub fn from_str(s: &str) -> (parsed: Result<OrderStatus, String>)
        ensures
            match parsed {
                Ok(status) => s@ == status.token(),
                Err(message) => {
                    &&& message@ == "Unknown order status: "@ + s@
                    &&& forall|status: OrderStatus| s@ != status.token()
                },
            },
    {
        if same_text(s, "open") {
            Ok(OrderStatus::Open)
        } else if same_text(s, "pending") {
            Ok(OrderStatus::Pending)
        } else if same_text(s, "rejected") {
            Ok(OrderStatus::Rejected)
        } else if same_text(s, "done") {
            Ok(OrderStatus::Done)
        } else if same_text(s, "active") {
            Ok(OrderStatus::Active)
        } else if same_text(s, "received") {
            Ok(OrderStatus::Received)
        } else if same_text(s, "all") {
            Ok(OrderStatus::All)
        } else {
            Err(concat("Unknown order status: ", s))
        }
    }
}

/// A product, as the exchange reports it.
#[derive(Debug)]
pub struct ConcreteInstrument {
    pub display_name: String,
}

impl ConcreteInstrument {
    /// Whether an instrument is this product in general terms: the pair that
    /// the product's name spells, traded on the spot.
    pub open spec fn is_general(self, instrument: Instrument) -> bool {
        &&& instrument.instrument_type == InstrumentType::Spot
        &&& exists|at: int|
            {
                &&& sole_separator(self.display_name@, at)
                &&& instrument.instrument_id.base@ == uppercase(self.display_name@.subrange(0, at))
                &&& instrument.instrument_id.quote@ == uppercase(
                    self.display_name@.subrange(at + 1, self.display_name@.len() as int),
                )
            }
    }

    /// The product in general terms: the pair that its name spells, traded on
    /// the spot. A name that spells no pair is refused.
    pub fn to_general(&self) -> (instrument: Result<Instrument, ExchangeErrors>)
        ensures
            match instrument {
                Ok(i) => self.is_general(i),
                Err(e) => {
                    &&& e is UnsupportedPairFormat
                    &&& forall|at: int| !sole_separator(self.display_name@, at)
                },
            },
    {
        match Pair::from_str(self.display_name.as_str()) {
            Ok(pair) => Ok(Instrument { instrument_id: pair, instrument_type: InstrumentType::Spot }),
            Err(e) => Err(e),
        }
    }
}

/// The envelope of every answer of this exchange: none.
#[derive(Debug)]
pub struct CoinbaseResponse<T>(pub T);

impl<R> ApiResponseWrapper<R> for CoinbaseResponse<R> {
    open spec fn payload(self) -> R {
        self.0
    }

    fn extract_response(self) -> (extracted: Result<R, ExchangeErrors>) {
        Ok(self.0)
    }
}

/// What the exchange says of an order it has taken.
#[derive(Debug)]
pub struct OrderResponse {
    pub id: String,
    pub price: Option<String>,
    pub size: Option<String>,
    pub product_id: String,
    pub profile_id: Option<String>,
    pub side: String,
    pub funds: Option<String>,
    pub specified_funds: Option<String>,
    pub order_type: String,
    pub time_in_force: Option<String>,
    pub expire_time: Option<String>,
    pub post_only: bool,
    pub created_at: String,
    pub done_at: Option<String>,
    pub done_reason: Option<String>,
    pub reject_reason: Option<String>,
    pub fill_fees: String,
    pub filled_size: String,
    pub executed_value: Option<String>,
    pub status: String,
    pub settled: bool,
    pub stop: Option<String>,
    pub stop_price: Option<String>,
    pub funding_amount: Option<String>,
    pub client_oid: Option<String>,
    pub market_type: Option<String>,
    pub max_floor: Option<String>,
    pub secondary_order_id: Option<String>,
    pub stop_limit_price: Option<String>,
}

impl OrderResponse {
    /// The answer in general terms: the order's identifier, and its status
    /// as the message.
    pub fn to_general(&self) -> (order: OrderData)
        ensures
            order.id == self.id,
            order.message == self.status,
    {
        OrderData { id: self.id.clone(), message: self.status.clone() }
    }
}

/// A profile of the caller.
#[derive(Debug)]
pub struct Profile {
    pub id: String,
    pub user_id: String,
    pub name: String,
    pub active: bool,
    pub is_default: bool,
    pub created_at: String,
}

/// What an account holds of one currency, as the exchange reports it.
#[derive(Debug)]
pub struct Account {
    pub id: String,
    pub currency: String,
    pub balance: String,
    pub hold: String,
    pub available: String,
    pub profile_id: String,
    pub trading_enabled: bool,
}

impl Account {
    /// Whether a balance in general terms says what this account says.
    pub open spec fn is_general(self, balance: Balance) -> bool {
        &&& balance.currency == self.currency
        &&& balance.balance == self.balance
        &&& balance.available == self.available
        &&& balance.hold == self.hold
    }

    pub fn to_general(&self) -> (balance: Balance)
        ensures
            self.is_general(balance),
    {
        Balance {
            currency: self.currency.clone(),
            balance: self.balance.clone(),
            available: self.available.clone(),
            hold: self.hold.clone(),
        }
    }
}

/// One level of an order book, as the exchange reports it.
#[derive(Clone, Copy, Debug, PartialEq, Eq, Structural)]
pub struct BidAsk {
    pub price: Quantity,
    pub size: Quantity,
    pub orders_count: u32,
}

impl BidAsk {
    /// The level in general terms: its price and its size.
    pub open spec fn general(self) -> GlobalBidAsk {
        GlobalBidAsk { price: self.price, size: self.size }
    }

    pub fn to_general(self) -> (level: GlobalBidAsk)
        ensures
            level == self.general(),
    {
        GlobalBidAsk { price: self.price, size: self.size }
    }
}

/// The levels of a list in general terms.
pub open spec fn general_levels(levels: Seq<BidAsk>) -> Seq<GlobalBidAsk> {
    levels.map_values(|level: BidAsk| level.general())
}

/// The levels of a list in general terms.
pub fn into_levels(levels: &Vec<BidAsk>) -> (general: Vec<GlobalBidAsk>)
    ensures
        general@ == general_levels(levels@),
{
    let mut general: Vec<GlobalBidAsk> = Vec::new();
    let mut i: usize = 0;
    while i < levels.len()
        invariant
            i <= levels.len(),
            general@ == general_levels(levels@.take(i as int)),
        decreases levels.len() - i,
    {
        general.push(levels[i].to_general());
        assert(general@ =~= general_levels(levels@.take(i + 1)));
        i = i + 1;
    }
    assert(levels@.take(levels.len() as int) =~= levels@);
    general
}

/// An order book, as the exchange reports it.
#[derive(Debug)]
pub struct OrderBook {
    pub asks: Vec<BidAsk>,
    pub bids: Vec<BidAsk>,
    pub sequence: u64,
    pub time: String,
}

impl OrderBook {
    /// The book in general terms.
    pub fn to_general(&self) -> (book: GlobalOrderBook)
        ensures
            book.asks@ == general_levels(self.asks@),
            book.bids@ == general_levels(self.bids@),
            book.sequence == self.sequence,
    {
        GlobalOrderBook {
            asks: into_levels(&self.asks),
            bids: into_levels(&self.bids),
            sequence: self.sequence,
        }
    }
}

/// An order, as the exchange reports it.
#[derive(Debug)]
pub struct Order {
    pub id: String,
    pub price: Option<Quantity>,
    pub size: Option<Quantity>,
    pub funds: Option<Quantity>,
    pub product_id: String,
    pub side: OrderSide,
    pub order_type: Option<String>,
    pub time_in_force: Option<String>,
    pub filled_size: Quantity,
    pub status: OrderStatus,
}

/// A quantity that may be absent, with zero in its place.
pub open spec fn or_zero(quantity: Option<Quantity>) -> Quantity {
    match quantity {
        Some(q) => q,
        None => Quantity { bits: 0 },
    }
}

/// A text that may be absent, with the empty text in its place.
pub open spec fn or_empty(text: Option<String>) -> Seq<char> {
    match text {
        Some(t) => t@,
        None => Seq::empty(),
    }
}

impl Order {
    /// Whether an order in general terms says what this one says of an
    /// instrument of a given kind. The size is the order's size, or its funds
    /// where it has no size; what the exchange leaves out is zero or empty.
    pub open spec fn is_general(self, kind: InstrumentType, order: GlobalOrder) -> bool {
        &&& order.instrument_type@ == kind.token()
        &&& order.instrument_id == self.product_id
        &&& order.order_id == self.id
        &&& order.price == or_zero(self.price)
        &&& order.size == match self.size {
            Some(s) => s,
            None => or_zero(self.funds),
        }
        &&& order.side@ == self.side.token()
        &&& order.order_type@ == or_empty(self.order_type)
        &&& order.trade_mode@ == or_empty(self.time_in_force)
        &&& order.accumulated_fill_quantity == self.filled_size
        &&& order.state@ == self.status.token()
    }

    /// The order in general terms.
    pub fn to_general(&self, kind: InstrumentType) -> (order: GlobalOrder)
        ensures
            self.is_general(kind, order),
    {
        GlobalOrder {
            instrument_type: kind.to_string(),
            instrument_id: self.product_id.clone(),
            order_id: self.id.clone(),
            price: match self.price {
                Some(p) => p,
                None => Quantity::zero(),
            },
            size: match self.size {
                Some(s) => s,
                None => match self.funds {
                    Some(f) => f,
                    None => Quantity::zero(),
                },
            },
            side: self.side.to_string(),
            order_type: match &self.order_type {
                Some(t) => t.clone(),
                None => String::new(),
            },
            trade_mode: match &self.time_in_force {
                Some(t) => t.clone(),
                None => String::new(),
            },
            accumulated_fill_quantity: self.filled_size,
            state: self.status.to_string(),
        }
    }
}

/// A candle, as the exchange reports it.
#[derive(Clone, Copy, Debug, PartialEq, Eq, Structural)]
pub struct CoinbaseCandle {
    /// The start of the bucket, in seconds.
    pub time: u64,
    pub low: Quantity,
    pub high: Quantity,
    pub open: Quantity,
    pub close: Quantity,
    pub volume: Quantity,
}

impl CoinbaseCandle {
    /// The candle in general terms.
    pub open spec fn general(self) -> Candle {
        Candle {
            timestamp: self.time,
            lowest_price: self.low,
            highest_price: self.high,
            open_price: self.open,
            close_price: self.close,
            volume: self.volume,
        }
    }

    pub fn to_general(self) -> (candle: Candle)
        ensures
            candle == self.general(),
    {
        Candle {
            timestamp: self.time,
            lowest_price: self.low,
            highest_price: self.high,
            open_price: self.open,
            close_price: self.close,
            volume: self.volume,
        }
    }
}

} // verus!
