use vstd::prelude::*;
use crate::exchange::{Candle, Quantity};
use crate::pair::Pair;
use crate::remote_exchanges::okx::api::InstrumentType;
use crate::remote_exchanges::request::{OrderSide, OrderType, TradeMode};
use crate::remote_exchanges::response::{
    ApiResponseWrapper, Balance, BidAsk as GlobalBidAsk, Instrument, Order as GlobalOrder,
    OrderBook as GlobalOrderBook,
};
use crate::remote_exchanges::ExchangeErrors;
use crate::text::{concat, same_text};

verus! {

/// The envelope of every answer of this exchange.
#[derive(Debug)]
pub struct ApiResponse<T> {
    pub code: u64,
    pub msg: String,
    pub data: T,
}

impl<R> ApiResponseWrapper<R> for ApiResponse<R> {
    open spec fn payload(self) -> R {
        self.data
    }

    fn extract_response(self) -> (extracted: Result<R, ExchangeErrors>) {
        Ok(self.data)
    }
}

/// One level of an order book, as the exchange reports it.
#[derive(Clone, Copy, Debug, PartialEq, Eq, Structural)]
pub struct BidAsk {
    pub price: Quantity,
    pub size: Quantity,
    pub deprecated: u32,
    pub orders_count: u32,
}

impl BidAsk {
    /// The level in general terms: its price and its size.
    pub open spec fn general(self) -> GlobalBidAsk {
        GlobalBidAsk { price: self.price, size: self.size }
    }

    pub fn to_general(self) -> (level: GlobalBidAsk)
        ensures
            level == self.general(),
    {
        GlobalBidAsk { price: self.price, size: self.size }
    }
}

/// The levels of a list in general terms.
pub open spec fn general_levels(levels: Seq<BidAsk>) -> Seq<GlobalBidAsk> {
    levels.map_values(|level: BidAsk| level.general())
}

/// The levels of a list in general terms.
pub fn into_levels(levels: &Vec<BidAsk>) -> (general: Vec<GlobalBidAsk>)
    ensures
        general@ == general_levels(levels@),
{
    let mut general: Vec<GlobalBidAsk> = Vec::new();
    let mut i: usize = 0;
    while i < levels.len()
        invariant
            i <= levels.len(),
            general@ == general_levels(levels@.take(i as int)),
        decreases levels.len() - i,
    {
        general.push(levels[i].to_general());
        assert(general@ =~= general_levels(levels@.take(i + 1)));
        i = i + 1;
    }
    assert(levels@.take(levels.len() as int) =~= levels@);
    general
}

/// An order book, as the exchange reports it.
#[derive(Debug)]
pub struct OrderBook {
    pub asks: Vec<BidAsk>,
    pub bids: Vec<BidAsk>,
    /// The instant of the report, in milliseconds.
    pub timestamp: u64,
}

impl OrderBook {
    /// The book in general terms. The instant of the report serves as its
    /// sequence number.
    pub fn to_general(&self) -> (book: GlobalOrderBook)
        ensures
            book.asks@ == general_levels(self.asks@),
            book.bids@ == general_levels(self.bids@),
            book.sequence == self.timestamp,
    {
        GlobalOrderBook {
            asks: into_levels(&self.asks),
            bids: into_levels(&self.bids),
            sequence: self.timestamp,
        }
    }
}

/// A candle of an index, as the exchange reports it.
#[derive(Clone, Copy, Debug, PartialEq, Eq, Structural)]
pub struct IndexCandleStick {
    /// The start of the bucket, in milliseconds.
    pub timestamp: u64,
    pub open_price: Quantity,
    pub highest_price: Quantity,
    pub lowest_price: Quantity,
    pub close_price: Quantity,
    pub confirm: u8,
}

impl IndexCandleStick {
    /// The candle in general terms: its instant in seconds, and no volume,
    /// as an index is not traded.
    pub open spec fn general(self) -> Candle {
        Candle {
            timestamp: self.timestamp / 1000,
            open_price: self.open_price,
            highest_price: self.highest_price,
            lowest_price: self.lowest_price,
            close_price: self.close_price,
            volume: Quantity { bits: 0 },
        }
    }

    pub fn to_general(self) -> (candle: Candle)
        ensures
            candle == self.general(),
    {
        Candle {
            timestamp: self.timestamp / 1000,
            open_price: self.open_price,
            highest_price: self.highest_price,
            lowest_price: self.lowest_price,
            close_price: self.close_price,
            volume: Quantity::zero(),
        }
    }
}

/// A candle of an instrument, as the exchange reports it.
#[derive(Debug)]
pub struct CandleStick {
    /// The start of the bucket, in milliseconds.
    pub timestamp: u64,
    pub open_price: Quantity,
    pub highest_price: Quantity,
    pub lowest_price: Quantity,
    pub close_price: Quantity,
    pub volume: Quantity,
    pub volume_currency: String,
    pub volume_currency_quote: String,
    pub confirm: String,
}

impl CandleStick {
    /// The candle in general terms: its instant in seconds.
    pub open spec fn general(self) -> Candle {
        Candle {
            timestamp: self.timestamp / 1000,
            open_price: self.open_price,
            highest_price: self.highest_price,
            lowest_price: self.lowest_price,
            close_price: self.close_price,
            volume: self.volume,
        }
    }

    pub fn to_general(&self) -> (candle: Candle)
        ensures
            candle == self.general(),
    {
        Candle {
            timestamp: self.timestamp / 1000,
            open_price: self.open_price,
            highest_price: self.highest_price,
            lowest_price: self.lowest_price,
            close_price: self.close_price,
            volume: self.volume,
        }
    }
}

/// What the exchange says of an order it has taken.
#[derive(Debug)]
pub struct PlaceOrderDetails {
    pub order_id: String,
    pub client_order_id: String,
    pub tag: String,
    pub status_code: String,
    pub status_message: String,
}

/// Where an order stands.
#[derive(Clone, Copy, Debug, PartialEq, Eq, Structural)]
pub enum OrderState {
    Pending,
    Done,
    Canceled,
    Filled,
    MmpCanceled,
    Live,
    PartiallyFilled,
}

impl OrderState {
    pub open spec fn token(self) -> Seq<char> {
        match self {
            OrderState::Pending => "pending"@,
            OrderState::Done => "done"@,
            OrderState::Canceled => "canceled"@,
            OrderState::Filled => "filled"@,
            OrderState::MmpCanceled => "mmp_canceled"@,
            OrderState::Live => "live"@,
            OrderState::PartiallyFilled => "partially_filled"@,
        }
    }

    pub fn as_str(&self) -> (word: &'static str)
        ensures
            word@ == self.token(),
    {
        match self {
            OrderState::Pending => "pending",
            OrderState::Done => "done",
            OrderState::Canceled => "canceled",
            OrderState::Filled => "filled",
            OrderState::MmpCanceled => "mmp_canceled",
            OrderState::Live => "live",
            OrderState::PartiallyFilled => "partially_filled",
        }
    }

    pub fn to_string(&self) -> (word: String)
        ensures
            word@ == self.token(),
    {
        String::from_str(self.as_str())
    }

    pub fn from_str(s: &str) -> (parsed: Result<OrderState, String>)
        ensures
            match parsed {
                Ok(state) => s@ == state.token(),
                Err(message) => {
                    &&& message@ == "Unknown order state"@
                    &&& forall|state: OrderState| s@ != state.token()
                },
            },
    {
        if same_text(s, "pending") {
            Ok(OrderState::Pending)
        } else if same_text(s, "done") {
            Ok(OrderState::Done)
        } else if same_text(s, "canceled") {
            Ok(OrderState::Canceled)
        } else if same_text(s, "filled") {
            Ok(OrderState::Filled)
        } else if same_text(s, "mmp_canceled") {
            Ok(OrderState::MmpCanceled)
        } else if same_text(s, "live") {
            Ok(OrderState::Live)
        } else if same_text(s, "partially_filled") {
            Ok(OrderState::PartiallyFilled)
        } else {
            Err(String::from_str("Unknown order state"))
        }
    }
}

/// An order, as the exchange reports it.
#[derive(Debug)]
pub struct Order {
    pub instrument_type: InstrumentType,
    pub instrument_id: String,
    pub order_quantity_currency: String,
    pub order_id: String,
    pub price: Quantity,
    pub size: Quantity,
    pub side: OrderSide,
    pub order_type: OrderType,
    pub trade_mode: TradeMode,
    pub accumulated_fill_quantity: Quantity,
    pub average_filled_price: Quantity,
    pub state: OrderState,
}

impl Order {
    /// Whether an order in general terms says what this one says.
    pub open spec fn is_general(self, order: GlobalOrder) -> bool {
        &&& order.instrument_type@ == self.instrument_type.token()
        &&& order.instrument_id == self.instrument_id
        &&& order.order_id == self.order_id
        &&& order.price == self.price
        &&& order.size == self.size
        &&& order.side@ == self.side.token()
        &&& order.order_type@ == self.order_type.token()
        &&& order.trade_mode@ == self.trade_mode.token()
        &&& order.accumulated_fill_quantity == self.accumulated_fill_quantity
        &&& order.state@ == self.state.token()
    }

    /// The order in general terms.
    pub fn to_general(&self) -> (order: GlobalOrder)
        ensures
            self.is_general(order),
    {
        GlobalOrder {
            instrument_type: self.instrument_type.to_string(),
            instrument_id: self.instrument_id.clone(),
            order_id: self.order_id.clone(),
            price: self.price,
            size: self.size,
            side: self.side.to_string(),
            order_type: self.order_type.to_string(),
            trade_mode: self.trade_mode.to_string(),
            accumulated_fill_quantity: self.accumulated_fill_quantity,
            state: self.state.to_string(),
        }
    }
}

/// What an account holds of one currency, as the exchange reports it.
#[derive(Debug)]
pub struct AssetDetail {
    pub currency: String,
    pub equity: String,
    pub cash_balance: String,
    pub update_time: String,
}

impl AssetDetail {
    /// Whether a balance in general terms says what this one says: the
    /// equity is what is available, the cash balance is the balance, and
    /// nothing is held back.
    pub open spec fn is_general(self, balance: Balance) -> bool {
        &&& balance.currency == self.currency
        &&& balance.available == self.equity
        &&& balance.balance == self.cash_balance
        &&& balance.hold@ == "0"@
    }

    pub fn to_general(&self) -> (balance: Balance)
        ensures
            self.is_general(balance),
    {
        Balance {
            currency: self.currency.clone(),
            available: self.equity.clone(),
            balance: self.cash_balance.clone(),
            hold: String::from_str("0"),
        }
    }
}

/// An account, as the exchange reports it.
#[derive(Debug)]
pub struct AccountInfo {
    pub update_time: String,
    pub total_equity: String,
    pub isolated_margin_equity: Option<String>,
    pub adjusted_equity: Option<String>,
    pub cross_margin_frozen: Option<String>,
    pub initial_margin_requirement: Option<String>,
    pub maintenance_margin_requirement: Option<String>,
    pub potential_borrowing_imr: Option<String>,
    pub margin_ratio: Option<String>,
    pub notional_value_usd: Option<String>,
    pub unrealized_profit_loss: Option<String>,
    pub details: Vec<AssetDetail>,
}

impl AccountInfo {
    /// Appends the balances of the account to a list, one for each currency
    /// it holds.
    pub fn write_balances(&self, balances: &mut Vec<Balance>)
        ensures
            final(balances)@.len() == old(balances)@.len() + self.details@.len(),
            final(balances)@.take(old(balances)@.len() as int) == old(balances)@,
            forall|i: int|
                0 <= i < self.details@.len() ==> (#[trigger] self.details@[i]).is_general(
                    final(balances)@[old(balances)@.len() + i],
                ),
    {
        let mut i: usize = 0;
        while i < self.details.len()
            invariant
                i <= self.details.len(),
                balances@.len() == old(balances)@.len() + i,
                balances@.take(old(balances)@.len() as int) == old(balances)@,
                forall|j: int|
                    0 <= j < i ==> (#[trigger] self.details@[j]).is_general(
                        balances@[old(balances)@.len() + j],
                    ),
            decreases self.details.len() - i,
        {
            let ghost before = balances@;
            balances.push(self.details[i].to_general());
            assert(balances@.take(old(balances)@.len() as int) =~= before.take(
                old(balances)@.len() as int,
            ));
            i = i + 1;
        }
    }

    /// The balances of the account, one for each currency it holds.
    pub fn to_general(&self) -> (balances: Vec<Balance>)
        ensures
            balances@.len() == self.details@.len(),
            forall|i: int|
                0 <= i < self.details@.len() ==> (#[trigger] self.details@[i]).is_general(
                    balances@[i],
                ),
    {
        let mut balances: Vec<Balance> = Vec::new();
        self.write_balances(&mut balances);
        balances
    }
}

/// An instrument, as the exchange reports it.
#[derive(Debug)]
pub struct ConcreteInstrument {
    pub instrument_id: Pair,
    pub instrument_type: InstrumentType,
    pub underlying: String,
    pub instrument_family: String,
    pub base_currency: Option<String>,
    pub quote_currency: Option<String>,
}

impl ConcreteInstrument {
    /// The instrument in general terms: its pair and its kind.
    pub fn to_general(&self) -> (instrument: Instrument)
        ensures
            instrument.instrument_id == self.instrument_id,
            instrument.instrument_type == self.instrument_type,
    {
        Instrument {
            instrument_id: self.instrument_id.clone(),
            instrument_type: self.instrument_type,
        }
    }
}

/// The volume that takers bought and sold within one time bucket.
#[derive(Clone, Copy, Debug, PartialEq, Eq, Structural)]
pub struct TakerVolume {
    pub timestamp: u64,
    pub buy_volume: Quantity,
    pub sell_volume: Quantity,
}

} // verus!
