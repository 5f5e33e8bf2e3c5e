use vstd::prelude::*;
use crate::pair::Pair;
use crate::remote_exchanges::coinbase::request::{
    host, GetOrderbookRequest, GetProfileAccountsRequest, OrderType, OrdersRequest, PostOrderBody,
    Statuses,
};
use crate::remote_exchanges::coinbase::response::{
    Account, Order as CoinbaseOrder, OrderResponse, OrderStatus,
};
use crate::remote_exchanges::okx::api::InstrumentType;
use crate::remote_exchanges::response::{Balance, Order};
use crate::request_store::request::Response;
use crate::remote_exchanges::coinbase::Coinbase;
use crate::remote_exchanges::request::{
    GeneralBalanceRequest, GeneralOrdersListRequest, GeneralPostOrderRequest, OrderSide,
};
use crate::remote_exchanges::{
    opt_text, optional_field, ApiRequest, ExchangeErrors, HttpMethod, WireModel,
};
use crate::text::{clone_optional, decimal};

verus! {

impl Coinbase {
    /// What goes on the wire for a question about balances: the accounts of
    /// the caller's profile, whatever currencies were asked for.
    pub open spec fn balance_wire() -> WireModel {
        WireModel {
            method: HttpMethod::GET,
            host: host(),
            uri: "accounts"@,
            body: false,
            path_params: false,
            public: false,
            query: Seq::empty(),
            named: Seq::empty(),
        }
    }

    /// The exchange's form of a question about balances.
    pub fn balance_request(request: &GeneralBalanceRequest) -> (out: GetProfileAccountsRequest)
        ensures
            out.wire() == Coinbase::balance_wire(),
    {
        GetProfileAccountsRequest {  }
    }

    /// Whether the exchange knows an order type.
    pub fn knows_order_type(order_type: crate::remote_exchanges::request::OrderType) -> (known:
        bool)
        ensures
            known == (OrderType::of_general(order_type) is Some),
    {
        match order_type {
            crate::remote_exchanges::request::OrderType::Limit => true,
            crate::remote_exchanges::request::OrderType::Market => true,
            _ => false,
        }
    }

    /// The fields of an order: the product, then the amount, which a sale
    /// states as a size of the base currency and a purchase as funds of the
    /// quote currency, with the price between the two where one is set, then
    /// the order type and the side.
    pub open spec fn order_fields(request: GeneralPostOrderRequest, kind: OrderType) -> Seq<
        (Seq<char>, Seq<char>),
    > {
        seq![("product_id"@, request.instrument_id.text())] + optional_field(
            "size"@,
            if request.side == OrderSide::Sell {
                Some(request.size@)
            } else {
                None
            },
        ) + optional_field("price"@, opt_text(request.order_price)) + optional_field(
            "funds"@,
            if request.side == OrderSide::Buy {
                Some(request.size@)
            } else {
                None
            },
        ) + seq![("type"@, kind.token()), ("side"@, request.side.token())]
    }

    /// What goes on the wire for an order of a given order type.
    pub open spec fn order_wire(request: GeneralPostOrderRequest, kind: OrderType) -> WireModel {
        WireModel {
            method: HttpMethod::POST,
            host: host(),
            uri: "orders"@,
            body: true,
            path_params: false,
            public: false,
            query: Coinbase::order_fields(request, kind),
            named: Coinbase::order_fields(request, kind),
        }
    }

    /// The exchange's form of an order. An order whose type the exchange does
    /// not know is refused.
    pub fn order_request(request: &GeneralPostOrderRequest) -> (out: Result<
        PostOrderBody,
        ExchangeErrors,
    >)
        ensures
            match out {
                Ok(body) => {
                    &&& OrderType::of_general(request.order_type) is Some
                    &&& body.wire() == Coinbase::order_wire(
                        *request,
                        OrderType::of_general(request.order_type)->0,
                    )
                },
                Err(e) => {
                    &&& e is UnsupportedOrderType
                    &&& OrderType::of_general(request.order_type) is None
                },
            },
    {
        let order_type = match OrderType::from_general(request.order_type) {
            Ok(kind) => kind,
            Err(e) => {
                return Err(e);
            },
        };
        let (size, funds) = match request.side {
            OrderSide::Buy => (None, Some(request.size.clone())),
            OrderSide::Sell => (Some(request.size.clone()), None),
        };
        let body = PostOrderBody {
            product_id: request.instrument_id.to_string(),
            size,
            price: clone_optional(&request.order_price),
            funds,
            order_type,
            side: request.side,
        };
        assert(body.fields() =~= Coinbase::order_fields(*request, order_type));
        Ok(body)
    }

    /// The two states that are asked for: those of orders still open, or
    /// those of orders that are finished.
    pub open spec fn listed_states(pending: bool) -> (OrderStatus, OrderStatus) {
        if pending {
            (OrderStatus::Open, OrderStatus::Pending)
        } else {
            (OrderStatus::Done, OrderStatus::Rejected)
        }
    }

    /// What goes on the wire for a question about orders: at most a hundred
    /// orders of the product, in one of the two states asked for.
    pub open spec fn orders_wire(request: GeneralOrdersListRequest) -> WireModel {
        let states = Coinbase::listed_states(request.pending);
        WireModel {
            method: HttpMethod::GET,
            host: host(),
            uri: "orders"@,
            body: false,
            path_params: false,
            public: false,
            query: seq![
                ("product_id"@, request.instrument_id.text()),
                ("market_type"@, request.instrument_type.token()),
                ("limit"@, decimal(100)),
                ("status"@, states.0.token()),
                ("status"@, states.1.token()),
            ],
            named: Seq::empty(),
        }
    }

    /// The exchange's form of a question about orders.
    pub fn orders_request(request: &GeneralOrdersListRequest) -> (out: OrdersRequest)
        ensures
            out.wire() == Coinbase::orders_wire(*request),
    {
        let mut states: Vec<String> = Vec::new();
        if request.pending {
            states.push(OrderStatus::Open.to_string());
            states.push(OrderStatus::Pending.to_string());
        } else {
            states.push(OrderStatus::Done.to_string());
            states.push(OrderStatus::Rejected.to_string());
        }
        let out = OrdersRequest {
            product_id: Some(request.instrument_id.to_string()),
            market_type: Some(request.instrument_type.to_string()),
            limit: 100,
            status: Some(Statuses(states)),
        };
        assert(out.wire().query =~= Coinbase::orders_wire(*request).query);
        out
    }

    /// What goes on the wire for a question about a product's order book.
    pub open spec fn orderbook_wire(pair: Pair) -> WireModel {
        WireModel {
            method: HttpMethod::GET,
            host: host(),
            uri: "products/{product_id}/book"@,
            body: false,
            path_params: true,
            public: true,
            query: seq![("level"@, decimal(1))],
            named: seq![("product_id"@, pair.text())],
        }
    }

    /// The exchange's form of a question about a product's order book: the
    /// best bid and ask only.
    pub fn orderbook_request(pair: &Pair) -> (out: GetOrderbookRequest)
        ensures
            out.wire() == Coinbase::orderbook_wire(*pair),
    {
        GetOrderbookRequest { product_id: pair.to_string(), level: 1 }
    }
}

/// Whether an order is in one of the two states asked for.
pub open spec fn is_listed(status: OrderStatus, pending: bool) -> bool {
    status == Coinbase::listed_states(pending).0 || status == Coinbase::listed_states(pending).1
}

/// The orders of a list that are in one of the two states asked for.
pub open spec fn listed_orders(orders: Seq<CoinbaseOrder>, pending: bool) -> Seq<CoinbaseOrder>
    decreases orders.len(),
{
    if orders.len() == 0 {
        Seq::empty()
    } else if is_listed(orders.last().status, pending) {
        listed_orders(orders.drop_last(), pending).push(orders.last())
    } else {
        listed_orders(orders.drop_last(), pending)
    }
}

impl Coinbase {
    /// Whether a response is the answer to a question about balances in
    /// general terms: one balance for each account.
    pub open spec fn balance_answer(accounts: Seq<Account>, response: Response) -> bool {
        &&& response is Balances
        &&& response->Balances_0@.len() == accounts.len()
        &&& forall|i: int|
            0 <= i < accounts.len() ==> (#[trigger] accounts[i]).is_general(
                response->Balances_0@[i],
            )
    }

    /// Whether a response is the answer to an order in general terms: the
    /// order's identifier, and its status as the message.
    pub open spec fn order_answer(placed: OrderResponse, response: Response) -> bool {
        &&& response is Order
        &&& response->Order_0.id == placed.id
        &&& response->Order_0.message == placed.status
    }

    /// Whether a response is the answer to a question about orders in general
    /// terms: of the orders that the exchange reports, those in one of the
    /// two states asked for, in the order of the report.
    pub open spec fn orders_answer(
        request: GeneralOrdersListRequest,
        orders: Seq<CoinbaseOrder>,
        response: Response,
    ) -> bool {
        &&& response is OrdersInfo
        &&& response->OrdersInfo_0@.len() == listed_orders(orders, request.pending).len()
        &&& forall|i: int|
            0 <= i < listed_orders(orders, request.pending).len() ==> (#[trigger] listed_orders(
                orders,
                request.pending,
            )[i]).is_general(request.instrument_type, response->OrdersInfo_0@[i])
    }

    /// The answer to a question about an account's instruments: none, and
    /// the exchange is not asked.
    pub fn instruments_response() -> (response: Response)
        ensures
            response is Instruments,
            response->Instruments_0@.len() == 0,
    {
        Response::Instruments(Vec::new())
    }

    /// The answer to a question about balances, in general terms: one
    /// balance for each account.
    pub fn balance_response(accounts: &Vec<Account>) -> (response: Response)
        ensures
            Coinbase::balance_answer(accounts@, response),
    {
        let mut balances: Vec<Balance> = Vec::new();
        let mut i: usize = 0;
        while i < accounts.len()
            invariant
                i <= accounts.len(),
                balances@.len() == i,
                forall|j: int| 0 <= j < i ==> (#[trigger] accounts@[j]).is_general(balances@[j]),
            decreases accounts.len() - i,
        {
            balances.push(accounts[i].to_general());
            i = i + 1;
        }
        Response::Balances(balances)
    }

    /// The answer to an order, in general terms.
    pub fn order_response(placed: &OrderResponse) -> (response: Response)
        ensures
            Coinbase::order_answer(*placed, response),
    {
        Response::Order(placed.to_general())
    }

    /// The answer to a question about orders, in general terms: of the
    /// orders the exchange reports, those in one of the two states asked
    /// for, in the order of the report.
    pub fn orders_response(request: &GeneralOrdersListRequest, orders: &Vec<CoinbaseOrder>) -> (response:
        Response)
        ensures
            Coinbase::orders_answer(*request, orders@, response),
    {
        let mut general: Vec<Order> = Vec::new();
        let mut i: usize = 0;
        while i < orders.len()
            invariant
                i <= orders.len(),
                general@.len() == listed_orders(orders@.take(i as int), request.pending).len(),
                forall|j: int|
                    0 <= j < general@.len() ==> (#[trigger] listed_orders(
                        orders@.take(i as int),
                        request.pending,
                    )[j]).is_general(request.instrument_type, general@[j]),
            decreases orders.len() - i,
        {
            proof {
                assert(orders@.take(i + 1).drop_last() =~= orders@.take(i as int));
                assert(orders@.take(i + 1).last() == orders@[i as int]);
            }
            let status = orders[i].status;
            let wanted = if request.pending {
                status == OrderStatus::Open || status == OrderStatus::Pending
            } else {
                status == OrderStatus::Done || status == OrderStatus::Rejected
            };
            if wanted {
                general.push(orders[i].to_general(request.instrument_type));
            }
            i = i + 1;
        }
        assert(orders@.take(orders.len() as int) =~= orders@);
        Response::OrdersInfo(general)
    }
}

} // verus!
