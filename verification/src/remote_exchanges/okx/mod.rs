use vstd::prelude::*;
use crate::pair::Pair;
use crate::remote_exchanges::okx::auth::OkxAuth;
use crate::remote_exchanges::request::{OrderSide, OrderType, TradeMode};
use crate::remote_exchanges::ApiRequest;
use crate::text::{to_uppercase, uppercase};

pub mod api;
pub mod auth;
pub mod open;
pub mod response;
pub mod user;

verus! {

/// The adapter for the first exchange.
#[derive(Debug)]
pub struct Okx {
    pub auth: Option<OkxAuth>,
}

impl Default for Okx {
    /// An adapter without credentials: it can ask what everyone may ask.
    fn default() -> (okx: Okx)
        ensures
            okx.auth is None,
    {
        Okx { auth: None }
    }
}

impl Okx {
    /// The bar size the exchange is asked for, for a candle width in minutes.
    pub open spec fn interval_text(interval: u32) -> Seq<char> {
        if interval <= 1 {
            "1m"@
        } else if interval <= 3 {
            "3m"@
        } else {
            "5m"@
        }
    }

    /// The bar size to ask for: the width itself where the exchange offers
    /// it, the next wider one otherwise, and five minutes at most.
    pub fn interval_string(interval: u32) -> (bar: String)
        ensures
            bar@ == Okx::interval_text(interval),
    {
        if interval <= 1 {
            String::from_str("1m")
        } else if interval <= 3 {
            String::from_str("3m")
        } else {
            String::from_str("5m")
        }
    }

    pub fn side_string(side: OrderSide) -> (word: String)
        ensures
            word@ == side.token(),
    {
        side.to_string()
    }

    pub fn order_type_string(order_type: OrderType) -> (word: String)
        ensures
            word@ == order_type.token(),
    {
        order_type.to_string()
    }

    pub fn trade_mode_string(trade_mode: TradeMode) -> (word: String)
        ensures
            word@ == trade_mode.token(),
    {
        trade_mode.to_string()
    }

    /// The exchange's name for a pair.
    pub open spec fn instrument_text(pair: Pair) -> Seq<char> {
        uppercase(pair.text())
    }

    /// The exchange's name for a pair: both symbols in upper case with a
    /// hyphen between them. Every pair has one.
    pub fn instrument_id(pair: &Pair) -> (name: Option<String>)
        ensures
            name is Some,
            name->0@ == Okx::instrument_text(*pair),
    {
        Some(to_uppercase(pair.to_string().as_str()))
    }

    /// The text an outside signer signs for a request.
    pub fn get_signature_data<R: ApiRequest>(&self, request: R) -> (text: String)
        ensures
            text@ == request.wire().signable(),
    {
        request.to_wire().signable()
    }
}

} // verus!
