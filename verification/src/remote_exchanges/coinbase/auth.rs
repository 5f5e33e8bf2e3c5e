use vstd::prelude::*;
use crate::api_client::{headers_view, HttpHeader};
use crate::remote_exchanges::coinbase::Coinbase;
use crate::remote_exchanges::Authorize;
use crate::text::{decimal, u64_to_decimal};

verus! {

/// What an account shows to the exchange with a request: its key and
/// passphrase, and the signature an outside signer made for this request at
/// the given instant, in seconds.
#[derive(Debug)]
pub struct CoinbaseAuth {
    pub api_key: String,
    pub passphrase: String,
    pub signature: String,
    pub timestamp: u64,
}

impl Authorize for CoinbaseAuth {
    open spec fn auth_headers(&self) -> Seq<(Seq<char>, Seq<char>)> {
        seq![
            ("CB-ACCESS-KEY"@, self.api_key@),
            ("CB-ACCESS-SIGN"@, self.signature@),
            ("CB-ACCESS-TIMESTAMP"@, decimal(self.timestamp as nat)),
            ("CB-ACCESS-PASSPHRASE"@, self.passphrase@),
            ("x-simulated-trading"@, "1"@),
        ]
    }

    fn get_auth_headers(&self) -> (headers: Vec<HttpHeader>) {
        let mut headers: Vec<HttpHeader> = Vec::new();
        headers.push(HttpHeader::new("CB-ACCESS-KEY", self.api_key.as_str()));
        headers.push(HttpHeader::new("CB-ACCESS-SIGN", self.signature.as_str()));
        headers.push(
            HttpHeader::new("CB-ACCESS-TIMESTAMP", u64_to_decimal(self.timestamp).as_str()),
        );
        headers.push(HttpHeader::new("CB-ACCESS-PASSPHRASE", self.passphrase.as_str()));
        headers.push(HttpHeader::new("x-simulated-trading", "1"));
        assert(headers_view(headers@) =~= self.auth_headers());
        headers
    }
}

impl Coinbase {
    /// An adapter that sends the given credentials with every private
    /// request.
    pub fn with_auth(auth: CoinbaseAuth) -> (coinbase: Coinbase)
        ensures
            coinbase.auth == Some(auth),
    {
        Coinbase { auth: Some(auth) }
    }
}

} // verus!
