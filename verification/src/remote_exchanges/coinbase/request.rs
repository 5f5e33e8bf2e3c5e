use vstd::prelude::*;
use crate::remote_exchanges::request::OrderSide;
use crate::remote_exchanges::{
    fields_view, opt_text, optional_field, push_field, push_optional, ApiRequest, ExchangeErrors,
    Field, HttpMethod, WireModel, WireRequest,
};
use crate::text::{decimal, same_text, u64_to_decimal};

verus! {

/// The host that answers questions about accounts, orders and products.
pub open spec fn host() -> Seq<char> {
    "api-public.sandbox.exchange.coinbase.com"@
}

/// The host that serves candles.
pub open spec fn market_host() -> Seq<char> {
    "api.exchange.coinbase.com"@
}

/// A question about the accounts of the caller's profile.
#[derive(Debug)]
pub struct GetProfileAccountsRequest {}

impl ApiRequest for GetProfileAccountsRequest {
    open spec fn wire(&self) -> WireModel {
        WireModel {
            method: HttpMethod::GET,
            host: host(),
            uri: "accounts"@,
            body: false,
            path_params: false,
            public: false,
            query: Seq::empty(),
            named: Seq::empty(),
        }
    }

    fn to_wire(&self) -> (request: WireRequest) {
        WireRequest::new(
            HttpMethod::GET,
            "api-public.sandbox.exchange.coinbase.com",
            "accounts",
            false,
        )
    }
}

/// A question about the caller's profiles, the active ones or the others.
#[derive(Debug)]
pub struct GetProfilesRequest {
    pub active: bool,
}

impl ApiRequest for GetProfilesRequest {
    open spec fn wire(&self) -> WireModel {
        WireModel {
            method: HttpMethod::GET,
            host: host(),
            uri: "profiles"@,
            body: false,
            path_params: false,
            public: false,
            query: seq![("active"@, if self.active { "true"@ } else { "false"@ })],
            named: Seq::empty(),
        }
    }

    fn to_wire(&self) -> (request: WireRequest) {
        let mut request = WireRequest::new(
            HttpMethod::GET,
            "api-public.sandbox.exchange.coinbase.com",
            "profiles",
            false,
        );
        push_field(&mut request.query, "active", if self.active { "true" } else { "false" });
        assert(request@.query =~= self.wire().query);
        request
    }
}

/// A question about every product the exchange lists.
#[derive(Debug)]
pub struct GetAllPairsRequest {}

impl ApiRequest for GetAllPairsRequest {
    open spec fn wire(&self) -> WireModel {
        WireModel {
            method: HttpMethod::GET,
            host: host(),
            uri: "products"@,
            body: false,
            path_params: false,
            public: true,
            query: Seq::empty(),
            named: Seq::empty(),
        }
    }

    fn to_wire(&self) -> (request: WireRequest) {
        WireRequest::new(
            HttpMethod::GET,
            "api-public.sandbox.exchange.coinbase.com",
            "products",
            true,
        )
    }
}

/// The order types this exchange knows.
#[derive(Clone, Copy, Debug, PartialEq, Eq, Structural)]
pub enum OrderType {
    Limit,
    Market,
    Stop,
}

impl OrderType {
    pub open spec fn token(self) -> Seq<char> {
        match self {
            OrderType::Limit => "limit"@,
            OrderType::Market => "market"@,
            OrderType::Stop => "stop"@,
        }
    }

    /// The exchange's order type for a general one, where it has one.
    pub open spec fn of_general(value: crate::remote_exchanges::request::OrderType) -> Option<
        OrderType,
    > {
        match value {
            crate::remote_exchanges::request::OrderType::Limit => Some(OrderType::Limit),
            crate::remote_exchanges::request::OrderType::Market => Some(OrderType::Market),
            _ => None,
        }
    }

    /// The exchange's order type for a general one. Limit and market orders exist here
    /// under the same names; the other types have no counterpart and are
    /// refused.
    pub fn from_general(value: crate::remote_exchanges::request::OrderType) -> (converted: Result<
        OrderType,
        ExchangeErrors,
    >)
        ensures
            match converted {
                Ok(kind) => OrderType::of_general(value) == Some(kind),
                Err(e) => e is UnsupportedOrderType && OrderType::of_general(value) is None,
            },
    {
        match value {
            crate::remote_exchanges::request::OrderType::Limit => Ok(OrderType::Limit),
            crate::remote_exchanges::request::OrderType::Market => Ok(OrderType::Market),
            _ => Err(ExchangeErrors::UnsupportedOrderType),
        }
    }

    pub fn as_str(&self) -> (word: &'static str)
        ensures
            word@ == self.token(),
    {
        match self {
            OrderType::Limit => "limit",
            OrderType::Market => "market",
            OrderType::Stop => "stop",
        }
    }

    pub fn to_string(&self) -> (word: String)
        ensures
            word@ == self.token(),
    {
        String::from_str(self.as_str())
    }

    pub fn from_str(s: &str) -> (parsed: Result<OrderType, String>)
        ensures
            match parsed {
                Ok(kind) => s@ == kind.token(),
                Err(message) => {
                    &&& message@ == "unknown order type"@
                    &&& forall|kind: OrderType| s@ != kind.token()
                },
            },
    {
        if same_text(s, "limit") {
            Ok(OrderType::Limit)
        } else if same_text(s, "market") {
            Ok(OrderType::Market)
        } else if same_text(s, "stop") {
            Ok(OrderType::Stop)
        } else {
            Err(String::from_str("unknown order type"))
        }
    }
}

/// An order to place, in the exchange's own words. Amounts are decimal text.
#[derive(Debug)]
pub struct PostOrderBody {
    pub product_id: String,
    pub size: Option<String>,
    pub price: Option<String>,
    pub funds: Option<String>,
    pub order_type: OrderType,
    pub side: OrderSide,
}

impl PostOrderBody {
    /// The order's fields, in the order in which they are written.
    pub open spec fn fields(self) -> Seq<(Seq<char>, Seq<char>)> {
        seq![("product_id"@, self.product_id@)] + optional_field("size"@, opt_text(self.size))
            + optional_field("price"@, opt_text(self.price)) + optional_field(
            "funds"@,
            opt_text(self.funds),
        ) + seq![("type"@, self.order_type.token()), ("side"@, self.side.token())]
    }

    fn write_fields(&self, fields: &mut Vec<Field>)
        requires
            old(fields)@.len() == 0,
        ensures
            fields_view(final(fields)@) == self.fields(),
    {
        push_field(fields, "product_id", self.product_id.as_str());
        push_optional(fields, "size", &self.size);
        push_optional(fields, "price", &self.price);
        push_optional(fields, "funds", &self.funds);
        push_field(fields, "type", self.order_type.as_str());
        push_field(fields, "side", self.side.as_str());
        assert(fields_view(fields@) =~= self.fields());
    }
}

impl ApiRequest for PostOrderBody {
    open spec fn wire(&self) -> WireModel {
        WireModel {
            method: HttpMethod::POST,
            host: host(),
            uri: "orders"@,
            body: true,
            path_params: false,
            public: false,
            query: self.fields(),
            named: self.fields(),
        }
    }

    fn to_wire(&self) -> (request: WireRequest) {
        let mut request = WireRequest::new(
            HttpMethod::POST,
            "api-public.sandbox.exchange.coinbase.com",
            "orders",
            false,
        );
        request.body = true;
        self.write_fields(&mut request.query);
        self.write_fields(&mut request.named);
        request
    }
}

/// The order states to list, each of which becomes a `status` entry of its
/// own in the query string.
#[derive(Debug)]
pub struct Statuses(pub Vec<String>);

/// One `status` field for each state of a list.
pub open spec fn status_fields(states: Seq<String>) -> Seq<(Seq<char>, Seq<char>)> {
    states.map_values(|state: String| ("status"@, state@))
}

impl Statuses {
    /// Appends one `status` field for each state.
    pub fn write_fields(&self, fields: &mut Vec<Field>)
        ensures
            fields_view(final(fields)@) == fields_view(old(fields)@) + status_fields(self.0@),
    {
        let mut i: usize = 0;
        while i < self.0.len()
            invariant
                i <= self.0.len(),
                fields_view(fields@) == fields_view(old(fields)@) + status_fields(
                    self.0@.take(i as int),
                ),
            decreases self.0.len() - i,
        {
            let ghost before = fields_view(fields@);
            push_field(fields, "status", self.0[i].as_str());
            assert(fields_view(fields@) =~= fields_view(old(fields)@) + status_fields(
                self.0@.take(i + 1),
            )) by {
                assert(self.0@.take(i + 1) =~= self.0@.take(i as int).push(self.0@[i as int]));
            }
            i = i + 1;
        }
        assert(self.0@.take(self.0.len() as int) =~= self.0@);
    }
}

/// The status fields of a list that may be absent.
pub open spec fn opt_status_fields(status: Option<Statuses>) -> Seq<(Seq<char>, Seq<char>)> {
    match status {
        Some(s) => status_fields(s.0@),
        None => Seq::empty(),
    }
}

/// A question about the caller's orders.
#[derive(Debug)]
pub struct OrdersRequest {
    pub product_id: Option<String>,
    pub market_type: Option<String>,
    pub limit: u64,
    pub status: Option<Statuses>,
}

impl ApiRequest for OrdersRequest {
    open spec fn wire(&self) -> WireModel {
        WireModel {
            method: HttpMethod::GET,
            host: host(),
            uri: "orders"@,
            body: false,
            path_params: false,
            public: false,
            query: optional_field("product_id"@, opt_text(self.product_id)) + optional_field(
                "market_type"@,
                opt_text(self.market_type),
            ) + seq![("limit"@, decimal(self.limit as nat))] + opt_status_fields(self.status),
            named: Seq::empty(),
        }
    }

    fn to_wire(&self) -> (request: WireRequest) {
        let mut request = WireRequest::new(
            HttpMethod::GET,
            "api-public.sandbox.exchange.coinbase.com",
            "orders",
            false,
        );
        push_optional(&mut request.query, "product_id", &self.product_id);
        push_optional(&mut request.query, "market_type", &self.market_type);
        push_field(&mut request.query, "limit", u64_to_decimal(self.limit).as_str());
        match &self.status {
            Some(status) => status.write_fields(&mut request.query),
            None => {},
        }
        assert(request@.query =~= self.wire().query);
        request
    }
}

/// A question about the order book of one product, at a level of detail.
#[derive(Debug)]
pub struct GetOrderbookRequest {
    pub product_id: String,
    pub level: u32,
}

impl ApiRequest for GetOrderbookRequest {
    open spec fn wire(&self) -> WireModel {
        WireModel {
            method: HttpMethod::GET,
            host: host(),
            uri: "products/{product_id}/book"@,
            body: false,
            path_params: true,
            public: true,
            query: seq![("level"@, decimal(self.level as nat))],
            named: seq![("product_id"@, self.product_id@)],
        }
    }

    fn to_wire(&self) -> (request: WireRequest) {
        let mut request = WireRequest::new(
            HttpMethod::GET,
            "api-public.sandbox.exchange.coinbase.com",
            "products/{product_id}/book",
            true,
        );
        request.path_params = true;
        push_field(&mut request.query, "level", u64_to_decimal(self.level as u64).as_str());
        push_field(&mut request.named, "product_id", self.product_id.as_str());
        assert(request@.query =~= self.wire().query);
        assert(request@.named =~= self.wire().named);
        request
    }
}

/// A question about the candles of one product.
#[derive(Debug)]
pub struct GetProductCandles {
    pub product_id: String,
    pub granularity: Option<String>,
    pub start: Option<String>,
    pub end: Option<String>,
}

impl GetProductCandles {
    /// The fields that go into the query string: the product itself travels
    /// in the path.
    pub open spec fn window(self) -> Seq<(Seq<char>, Seq<char>)> {
        optional_field("granularity"@, opt_text(self.granularity)) + optional_field(
            "start"@,
            opt_text(self.start),
        ) + optional_field("end"@, opt_text(self.end))
    }
}

impl ApiRequest for GetProductCandles {
    open spec fn wire(&self) -> WireModel {
        WireModel {
            method: HttpMethod::GET,
            host: market_host(),
            uri: "products/{product_id}/candles"@,
            body: false,
            path_params: true,
            public: true,
            query: self.window(),
            named: self.window() + seq![("product_id"@, self.product_id@)],
        }
    }

    fn to_wire(&self) -> (request: WireRequest) {
        let mut request = WireRequest::new(
            HttpMethod::GET,
            "api.exchange.coinbase.com",
            "products/{product_id}/candles",
            true,
        );
        request.path_params = true;
        push_optional(&mut request.query, "granularity", &self.granularity);
        push_optional(&mut request.query, "start", &self.start);
        push_optional(&mut request.query, "end", &self.end);
        push_optional(&mut request.named, "granularity", &self.granularity);
        push_optional(&mut request.named, "start", &self.start);
        push_optional(&mut request.named, "end", &self.end);
        push_field(&mut request.named, "product_id", self.product_id.as_str());
        assert(request@.query =~= self.wire().query);
        assert(request@.named =~= self.wire().named);
        request
    }
}

} // verus!
