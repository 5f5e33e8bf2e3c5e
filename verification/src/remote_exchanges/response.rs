use vstd::prelude::*;
use crate::exchange::Quantity;
use crate::pair::Pair;
use crate::remote_exchanges::okx::api::InstrumentType;
use crate::remote_exchanges::ExchangeErrors;

verus! {

/// The envelope an exchange wraps its answers in.
pub trait ApiResponseWrapper<R>: Sized {
    /// What the envelope holds.
    spec fn payload(self) -> R;

    /// Takes the answer out of its envelope.
    fn extract_response(self) -> (extracted: Result<R, ExchangeErrors>)
        ensures
            extracted == Ok::<R, ExchangeErrors>(self.payload()),
    ;
}

/// An instrument an exchange lists.
#[derive(Debug)]
pub struct Instrument {
    pub instrument_id: Pair,
    pub instrument_type: InstrumentType,
}

/// What an exchange says of an order it has taken.
#[derive(Debug)]
pub struct OrderData {
    pub id: String,
    pub message: String,
}

/// What an account holds of one currency, as decimal text.
#[derive(Debug)]
pub struct Balance {
    pub currency: String,
    pub balance: String,
    pub available: String,
    pub hold: String,
}

/// One level of an order book.
#[derive(Clone, Copy, Debug, PartialEq, Eq, Structural)]
pub struct BidAsk {
    pub price: Quantity,
    pub size: Quantity,
}

/// The two sides of an order book, each from the best price outwards.
#[derive(Debug)]
pub struct OrderBook {
    pub sequence: u64,
    pub bids: Vec<BidAsk>,
    pub asks: Vec<BidAsk>,
}

/// An order as an exchange reports it.
#[derive(Debug)]
pub struct Order {
    pub instrument_type: String,
    pub instrument_id: String,
    pub order_id: String,
    pub price: Quantity,
    pub size: Quantity,
    pub side: String,
    pub order_type: String,
    pub trade_mode: String,
    pub accumulated_fill_quantity: Quantity,
    pub state: String,
}

/// An order that still waits to be filled.
#[derive(Debug)]
pub struct GlobalPendingOrder {
    pub instrument_type: String,
    pub instrument_id: String,
    pub order_id: String,
    pub price: Quantity,
    pub size: Quantity,
    pub side: String,
    pub order_type: String,
    pub trade_mode: String,
    pub accumulated_fill_quantity: Quantity,
}

} // verus!
