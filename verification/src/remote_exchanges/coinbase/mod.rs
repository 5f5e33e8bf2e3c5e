use vstd::prelude::*;
use crate::remote_exchanges::ApiRequest;

pub mod auth;
pub mod open;
pub mod request;
pub mod response;
pub mod user;

pub use auth::CoinbaseAuth;
pub use request::GetProfileAccountsRequest;
pub use request::OrdersRequest as CoinbaseOrdersRequest;
pub use request::PostOrderBody;
pub use request::Statuses;

verus! {

/// The adapter for the second exchange.
#[derive(Debug)]
pub struct Coinbase {
    pub auth: Option<CoinbaseAuth>,
}

impl Default for Coinbase {
    /// An adapter without credentials: it can ask what everyone may ask.
    fn default() -> (coinbase: Coinbase)
        ensures
            coinbase.auth is None,
    {
        Coinbase { auth: None }
    }
}

impl Coinbase {
    /// The granularity the exchange is asked for, in seconds, for a candle
    /// width in seconds.
    pub open spec fn interval_text(interval: u32) -> Seq<char> {
        if interval <= 60 {
            "60"@
        } else {
            "300"@
        }
    }

    /// The granularity to ask for: one minute for widths up to a minute, five
    /// minutes for all wider ones.
    pub fn interval_string(interval: u32) -> (granularity: String)
        ensures
            granularity@ == Coinbase::interval_text(interval),
    {
        if interval <= 60 {
            String::from_str("60")
        } else {
            String::from_str("300")
        }
    }

    /// The text an outside signer signs for a request.
    pub fn get_signature_data<R: ApiRequest>(&self, request: R) -> (text: String)
        ensures
            text@ == request.wire().signable(),
    {
        request.to_wire().signable()
    }
}

} // verus!
