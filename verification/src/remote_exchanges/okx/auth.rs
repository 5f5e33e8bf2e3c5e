use vstd::prelude::*;
use crate::api_client::{headers_view, HttpHeader};
use crate::remote_exchanges::okx::Okx;
use crate::remote_exchanges::Authorize;

verus! {

/// What an account shows to the exchange with a request: its key and
/// passphrase, and the signature an outside signer made for this request at
/// the given instant.
#[derive(Debug)]
pub struct OkxAuth {
    pub api_key: String,
    pub passphrase: String,
    pub signature: String,
    pub timestamp: String,
}

impl Authorize for OkxAuth {
    open spec fn auth_headers(&self) -> Seq<(Seq<char>, Seq<char>)> {
        seq![
            ("OK-ACCESS-KEY"@, self.api_key@),
            ("OK-ACCESS-SIGN"@, self.signature@),
            ("OK-ACCESS-TIMESTAMP"@, self.timestamp@),
            ("OK-ACCESS-PASSPHRASE"@, self.passphrase@),
            ("x-simulated-trading"@, "1"@),
        ]
    }

    fn get_auth_headers(&self) -> (headers: Vec<HttpHeader>) {
        let mut headers: Vec<HttpHeader> = Vec::new();
        headers.push(HttpHeader::new("OK-ACCESS-KEY", self.api_key.as_str()));
        headers.push(HttpHeader::new("OK-ACCESS-SIGN", self.signature.as_str()));
        headers.push(HttpHeader::new("OK-ACCESS-TIMESTAMP", self.timestamp.as_str()));
        headers.push(HttpHeader::new("OK-ACCESS-PASSPHRASE", self.passphrase.as_str()));
        headers.push(HttpHeader::new("x-simulated-trading", "1"));
        assert(headers_view(headers@) =~= self.auth_headers());
        headers
    }
}

impl Okx {
    /// An adapter that sends the given credentials with every private
    /// request.
    pub fn with_auth(auth: OkxAuth) -> (okx: Okx)
        ensures
            okx.auth == Some(auth),
    {
        Okx { auth: Some(auth) }
    }
}

} // verus!
