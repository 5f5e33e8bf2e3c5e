use vstd::prelude::*;
use crate::remote_exchanges::{
    fields_view, opt_decimal, opt_text, optional_field, push_field, push_optional,
    push_optional_number, ApiRequest, Field, HttpMethod, WireModel, WireRequest,
};
use crate::text::{concat, same_text};

verus! {

/// The kinds of instrument an exchange lists.
#[derive(Clone, Copy, Debug, PartialEq, Eq, PartialOrd, Ord, Structural)]
pub enum InstrumentType {
    Spot,
    Futures,
    Swap,
    Option,
    Margin,
}

impl InstrumentType {
    /// The one byte a kind is stored as.
    pub open spec fn code(self) -> u8 {
        match self {
            InstrumentType::Spot => 0,
            InstrumentType::Futures => 1,
            InstrumentType::Swap => 2,
            InstrumentType::Option => 3,
            InstrumentType::Margin => 4,
        }
    }

    pub fn to_code(self) -> (code: u8)
        ensures
            code == self.code(),
    {
        match self {
            InstrumentType::Spot => 0,
            InstrumentType::Futures => 1,
            InstrumentType::Swap => 2,
            InstrumentType::Option => 3,
            InstrumentType::Margin => 4,
        }
    }

    /// The kind a byte stands for, if it stands for one.
    pub fn from_code(code: u8) -> (kind: Option<InstrumentType>)
        ensures
            match kind {
                Some(k) => k.code() == code,
                None => code > 4,
            },
    {
        if code == 0 {
            Some(InstrumentType::Spot)
        } else if code == 1 {
            Some(InstrumentType::Futures)
        } else if code == 2 {
            Some(InstrumentType::Swap)
        } else if code == 3 {
            Some(InstrumentType::Option)
        } else if code == 4 {
            Some(InstrumentType::Margin)
        } else {
            None
        }
    }

    /// The word the exchanges use for a kind.
    pub open spec fn token(self) -> Seq<char> {
        match self {
            InstrumentType::Spot => "SPOT"@,
            InstrumentType::Futures => "FUTURES"@,
            InstrumentType::Swap => "SWAP"@,
            InstrumentType::Option => "OPTION"@,
            InstrumentType::Margin => "MARGIN"@,
        }
    }

    /// Reads a kind from its stored form: the first byte decides, what
    /// follows it is ignored. An empty input or an unassigned byte gives
    /// nothing.
    pub fn from_bytes(bytes: &[u8]) -> (kind: Option<InstrumentType>)
        ensures
            match kind {
                Some(k) => bytes@.len() > 0 && bytes@[0] == k.code(),
                None => bytes@.len() == 0 || bytes@[0] > 4,
            },
    {
        if bytes.len() == 0 {
            return None;
        }
        let byte: u8 = bytes[0];
        if byte == 0 {
            Some(InstrumentType::Spot)
        } else if byte == 1 {
            Some(InstrumentType::Futures)
        } else if byte == 2 {
            Some(InstrumentType::Swap)
        } else if byte == 3 {
            Some(InstrumentType::Option)
        } else if byte == 4 {
            Some(InstrumentType::Margin)
        } else {
            None
        }
    }

    /// The stored form of a kind: its one byte.
    pub fn to_bytes(&self) -> (bytes: Vec<u8>)
        ensures
            bytes@ == seq![self.code()],
    {
        let byte: u8 = match self {
            InstrumentType::Spot => 0,
            InstrumentType::Futures => 1,
            InstrumentType::Swap => 2,
            InstrumentType::Option => 3,
            InstrumentType::Margin => 4,
        };
        let mut bytes: Vec<u8> = Vec::new();
        bytes.push(byte);
        assert(bytes@ =~= seq![self.code()]);
        bytes
    }

    pub fn as_str(&self) -> (word: &'static str)
        ensures
            word@ == self.token(),
    {
        match self {
            InstrumentType::Spot => "SPOT",
            InstrumentType::Futures => "FUTURES",
            InstrumentType::Swap => "SWAP",
            InstrumentType::Option => "OPTION",
            InstrumentType::Margin => "MARGIN",
        }
    }

    pub fn to_string(&self) -> (word: String)
        ensures
            word@ == self.token(),
    {
        String::from_str(self.as_str())
    }

    pub fn from_str(s: &str) -> (parsed: Result<InstrumentType, String>)
        ensures
            match parsed {
                Ok(kind) => s@ == kind.token(),
                Err(message) => {
                    &&& message@ == "Unknown instrument type: "@ + s@
                    &&& forall|kind: InstrumentType| s@ != kind.token()
                },
            },
    {
        if same_text(s, "SPOT") {
            Ok(InstrumentType::Spot)
        } else if same_text(s, "FUTURES") {
            Ok(InstrumentType::Futures)
        } else if same_text(s, "SWAP") {
            Ok(InstrumentType::Swap)
        } else if same_text(s, "OPTION") {
            Ok(InstrumentType::Option)
        } else if same_text(s, "MARGIN") {
            Ok(InstrumentType::Margin)
        } else {
            Err(concat("Unknown instrument type: ", s))
        }
    }
}

/// A kind of instrument that is stored and read back is the same kind: its
/// byte is one of those that stand for a kind, and for no other kind.
pub proof fn instrument_type_survives_storage(kind: InstrumentType)
    ensures
        kind.code() <= 4,
        forall|other: InstrumentType| other.code() == kind.code() ==> other == kind,
{
}


/// The host of every request to this exchange.
pub open spec fn host() -> Seq<char> {
    "www.okx.com"@
}

/// A number that may be absent, widened.
pub open spec fn widen_u32(value: Option<u32>) -> Option<u64> {
    match value {
        Some(v) => Some(v as u64),
        None => None,
    }
}

/// A question about the order book of one instrument, to a given depth.
#[derive(Debug)]
pub struct GetOrderBookRequest {
    pub instrument_id: String,
    pub depth: Option<u32>,
}

impl ApiRequest for GetOrderBookRequest {
    open spec fn wire(&self) -> WireModel {
        WireModel {
            method: HttpMethod::GET,
            host: host(),
            uri: "api/v5/market/books"@,
            body: false,
            path_params: false,
            public: true,
            query: seq![("instId"@, self.instrument_id@)] + optional_field(
                "sz"@,
                opt_decimal(widen_u32(self.depth)),
            ),
            named: Seq::empty(),
        }
    }

    fn to_wire(&self) -> (request: WireRequest) {
        let mut request = WireRequest::new(
            HttpMethod::GET,
            "www.okx.com",
            "api/v5/market/books",
            true,
        );
        push_field(&mut request.query, "instId", self.instrument_id.as_str());
        let depth: Option<u64> = match self.depth {
            Some(d) => Some(d as u64),
            None => None,
        };
        push_optional_number(&mut request.query, "sz", depth);
        assert(request@.query =~= self.wire().query);
        request
    }
}

/// A question about the instruments an account may trade.
#[derive(Debug)]
pub struct GetInstrumentsRequest {
    pub instrument_type: InstrumentType,
    pub instrument_id: Option<String>,
}

impl ApiRequest for GetInstrumentsRequest {
    open spec fn wire(&self) -> WireModel {
        WireModel {
            method: HttpMethod::GET,
            host: host(),
            uri: "api/v5/account/instruments"@,
            body: false,
            path_params: false,
            public: false,
            query: seq![("instType"@, self.instrument_type.token())] + optional_field(
                "instId"@,
                opt_text(self.instrument_id),
            ),
            named: Seq::empty(),
        }
    }

    fn to_wire(&self) -> (request: WireRequest) {
        let mut request = WireRequest::new(
            HttpMethod::GET,
            "www.okx.com",
            "api/v5/account/instruments",
            false,
        );
        push_field(&mut request.query, "instType", self.instrument_type.as_str());
        push_optional(&mut request.query, "instId", &self.instrument_id);
        assert(request@.query =~= self.wire().query);
        request
    }
}

/// A question about the instruments the exchange lists for everyone.
#[derive(Debug)]
pub struct GetInstrumentsRequestPublic {
    pub instrument_type: InstrumentType,
    pub instrument_id: Option<String>,
}

impl ApiRequest for GetInstrumentsRequestPublic {
    open spec fn wire(&self) -> WireModel {
        WireModel {
            method: HttpMethod::GET,
            host: host(),
            uri: "api/v5/public/instruments"@,
            body: false,
            path_params: false,
            public: true,
            query: seq![("instType"@, self.instrument_type.token())] + optional_field(
                "instId"@,
                opt_text(self.instrument_id),
            ),
            named: Seq::empty(),
        }
    }

    fn to_wire(&self) -> (request: WireRequest) {
        let mut request = WireRequest::new(
            HttpMethod::GET,
            "www.okx.com",
            "api/v5/public/instruments",
            true,
        );
        push_field(&mut request.query, "instType", self.instrument_type.as_str());
        push_optional(&mut request.query, "instId", &self.instrument_id);
        assert(request@.query =~= self.wire().query);
        request
    }
}

/// A question about an account's balances, of the currencies listed or of
/// all.
#[derive(Debug)]
pub struct GetBalanceRequest {
    pub currencies: Option<String>,
}

impl ApiRequest for GetBalanceRequest {
    open spec fn wire(&self) -> WireModel {
        WireModel {
            method: HttpMethod::GET,
            host: host(),
            uri: "api/v5/account/balance"@,
            body: false,
            path_params: false,
            public: false,
            query: optional_field("ccy"@, opt_text(self.currencies)),
            named: Seq::empty(),
        }
    }

    fn to_wire(&self) -> (request: WireRequest) {
        let mut request = WireRequest::new(
            HttpMethod::GET,
            "www.okx.com",
            "api/v5/account/balance",
            false,
        );
        push_optional(&mut request.query, "ccy", &self.currencies);
        assert(request@.query =~= self.wire().query);
        request
    }
}

/// An order to place, in the exchange's own words.
#[derive(Debug)]
pub struct PlaceOrderBody {
    pub instrument_id: String,
    pub trade_mode: String,
    pub margin_currency: Option<String>,
    pub client_order_id: Option<String>,
    pub order_tag: Option<String>,
    pub side: String,
    pub position_side: Option<String>,
    pub order_type: String,
    pub size: String,
    pub order_price: Option<String>,
}

impl PlaceOrderBody {
    /// The order's fields, in the order in which they are written.
    pub open spec fn fields(self) -> Seq<(Seq<char>, Seq<char>)> {
        seq![("instId"@, self.instrument_id@), ("tdMode"@, self.trade_mode@)] + optional_field(
            "ccy"@,
            opt_text(self.margin_currency),
        ) + optional_field("clOrdId"@, opt_text(self.client_order_id)) + optional_field(
            "tag"@,
            opt_text(self.order_tag),
        ) + seq![("side"@, self.side@)] + optional_field("posSide"@, opt_text(self.position_side))
            + seq![("ordType"@, self.order_type@), ("sz"@, self.size@)] + optional_field(
            "px"@,
            opt_text(self.order_price),
        )
    }

    fn write_fields(&self, fields: &mut Vec<Field>)
        requires
            old(fields)@.len() == 0,
        ensures
            fields_view(final(fields)@) == self.fields(),
    {
        push_field(fields, "instId", self.instrument_id.as_str());
        push_field(fields, "tdMode", self.trade_mode.as_str());
        push_optional(fields, "ccy", &self.margin_currency);
        push_optional(fields, "clOrdId", &self.client_order_id);
        push_optional(fields, "tag", &self.order_tag);
        push_field(fields, "side", self.side.as_str());
        push_optional(fields, "posSide", &self.position_side);
        push_field(fields, "ordType", self.order_type.as_str());
        push_field(fields, "sz", self.size.as_str());
        push_optional(fields, "px", &self.order_price);
        assert(fields_view(fields@) =~= self.fields());
    }
}

impl ApiRequest for PlaceOrderBody {
    open spec fn wire(&self) -> WireModel {
        WireModel {
            method: HttpMethod::POST,
            host: host(),
            uri: "api/v5/trade/order"@,
            body: true,
            path_params: false,
            public: false,
            query: self.fields(),
            named: self.fields(),
        }
    }

    fn to_wire(&self) -> (request: WireRequest) {
        let mut request = WireRequest::new(
            HttpMethod::POST,
            "www.okx.com",
            "api/v5/trade/order",
            false,
        );
        request.body = true;
        self.write_fields(&mut request.query);
        self.write_fields(&mut request.named);
        request
    }
}

/// A question about the candles of an index.
#[derive(Debug)]
pub struct IndexCandleStickRequest {
    pub index_name: String,
    pub after_timestamp: Option<u64>,
    pub before_timestamp: Option<u64>,
    pub bar_size: Option<String>,
    pub results_limit: Option<u8>,
}

/// A number that may be absent, widened.
pub open spec fn widen_u8(value: Option<u8>) -> Option<u64> {
    match value {
        Some(v) => Some(v as u64),
        None => None,
    }
}

impl ApiRequest for IndexCandleStickRequest {
    open spec fn wire(&self) -> WireModel {
        WireModel {
            method: HttpMethod::GET,
            host: host(),
            uri: "api/v5/market/index-candles"@,
            body: false,
            path_params: false,
            public: true,
            query: seq![("instId"@, self.index_name@)] + optional_field(
                "after"@,
                opt_decimal(self.after_timestamp),
            ) + optional_field("before"@, opt_decimal(self.before_timestamp)) + optional_field(
                "bar"@,
                opt_text(self.bar_size),
            ) + optional_field("limit"@, opt_decimal(widen_u8(self.results_limit))),
            named: Seq::empty(),
        }
    }

    fn to_wire(&self) -> (request: WireRequest) {
        let mut request = WireRequest::new(
            HttpMethod::GET,
            "www.okx.com",
            "api/v5/market/index-candles",
            true,
        );
        push_field(&mut request.query, "instId", self.index_name.as_str());
        push_optional_number(&mut request.query, "after", self.after_timestamp);
        push_optional_number(&mut request.query, "before", self.before_timestamp);
        push_optional(&mut request.query, "bar", &self.bar_size);
        let limit: Option<u64> = match self.results_limit {
            Some(l) => Some(l as u64),
            None => None,
        };
        push_optional_number(&mut request.query, "limit", limit);
        assert(request@.query =~= self.wire().query);
        request
    }
}

/// A question about the traded candles of an instrument between two
/// instants, both in milliseconds.
#[derive(Debug)]
pub struct SpotCandleStickRequest {
    pub index_name: String,
    pub end: Option<u64>,
    pub begin: Option<u64>,
    pub bar_size: Option<String>,
    pub results_limit: Option<u32>,
}

impl ApiRequest for SpotCandleStickRequest {
    open spec fn wire(&self) -> WireModel {
        WireModel {
            method: HttpMethod::GET,
            host: host(),
            uri: "api/v5/market/history-candles"@,
            body: false,
            path_params: false,
            public: true,
            query: seq![("instId"@, self.index_name@)] + optional_field(
                "after"@,
                opt_decimal(self.end),
            ) + optional_field("before"@, opt_decimal(self.begin)) + optional_field(
                "bar"@,
                opt_text(self.bar_size),
            ) + optional_field("limit"@, opt_decimal(widen_u32(self.results_limit))),
            named: Seq::empty(),
        }
    }

    fn to_wire(&self) -> (request: WireRequest) {
        let mut request = WireRequest::new(
            HttpMethod::GET,
            "www.okx.com",
            "api/v5/market/history-candles",
            true,
        );
        push_field(&mut request.query, "instId", self.index_name.as_str());
        push_optional_number(&mut request.query, "after", self.end);
        push_optional_number(&mut request.query, "before", self.begin);
        push_optional(&mut request.query, "bar", &self.bar_size);
        let limit: Option<u64> = match self.results_limit {
            Some(l) => Some(l as u64),
            None => None,
        };
        push_optional_number(&mut request.query, "limit", limit);
        assert(request@.query =~= self.wire().query);
        request
    }
}

/// The word of a kind that may be absent.
pub open spec fn opt_token(kind: Option<InstrumentType>) -> Option<Seq<char>> {
    match kind {
        Some(k) => Some(k.token()),
        None => None,
    }
}

/// A question about the orders that are still open.
#[derive(Debug)]
pub struct PendingOrdersRequest {
    pub instrument_id: Option<String>,
    pub instrument_type: Option<InstrumentType>,
}

impl ApiRequest for PendingOrdersRequest {
    open spec fn wire(&self) -> WireModel {
        WireModel {
            method: HttpMethod::GET,
            host: host(),
            uri: "api/v5/trade/orders-pending"@,
            body: false,
            path_params: false,
            public: false,
            query: optional_field("instId"@, opt_text(self.instrument_id)) + optional_field(
                "instType"@,
                opt_token(self.instrument_type),
            ),
            named: Seq::empty(),
        }
    }

    fn to_wire(&self) -> (request: WireRequest) {
        let mut request = WireRequest::new(
            HttpMethod::GET,
            "www.okx.com",
            "api/v5/trade/orders-pending",
            false,
        );
        push_optional(&mut request.query, "instId", &self.instrument_id);
        match self.instrument_type {
            Some(kind) => push_field(&mut request.query, "instType", kind.as_str()),
            None => {},
        }
        assert(request@.query =~= self.wire().query);
        request
    }
}

/// A question about the orders of the last days that are no longer open.
#[derive(Debug)]
pub struct OrdersHistoryRequest {
    pub instrument_id: Option<String>,
    pub instrument_type: InstrumentType,
}

impl ApiRequest for OrdersHistoryRequest {
    open spec fn wire(&self) -> WireModel {
        WireModel {
            method: HttpMethod::GET,
            host: host(),
            uri: "api/v5/trade/orders-history"@,
            body: false,
            path_params: false,
            public: false,
            query: optional_field("instId"@, opt_text(self.instrument_id)) + seq![
                ("instType"@, self.instrument_type.token()),
            ],
            named: Seq::empty(),
        }
    }

    fn to_wire(&self) -> (request: WireRequest) {
        let mut request = WireRequest::new(
            HttpMethod::GET,
            "www.okx.com",
            "api/v5/trade/orders-history",
            false,
        );
        push_optional(&mut request.query, "instId", &self.instrument_id);
        push_field(&mut request.query, "instType", self.instrument_type.as_str());
        assert(request@.query =~= self.wire().query);
        request
    }
}

} // verus!
