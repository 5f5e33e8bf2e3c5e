use vstd::prelude::*;
use crate::pair::Pair;
use crate::remote_exchanges::okx::api::{
    host, GetBalanceRequest, GetInstrumentsRequest, OrdersHistoryRequest, PendingOrdersRequest,
    PlaceOrderBody,
};
use crate::remote_exchanges::okx::Okx;
use crate::remote_exchanges::request::{
    GeneralBalanceRequest, GeneralInstrumentsRequest, GeneralOrdersListRequest,
    GeneralPostOrderRequest,
};
use crate::remote_exchanges::okx::response::{
    AccountInfo, AssetDetail, ConcreteInstrument, Order as OkxOrder, PlaceOrderDetails,
};
use crate::remote_exchanges::response::{Balance, Instrument, Order, OrderData};
use crate::remote_exchanges::{
    opt_text, optional_field, ApiRequest, ExchangeErrors, HttpMethod, WireModel,
};
use crate::request_store::request::Response;
use crate::text::{clone_optional, join, joined};

verus! {

/// The exchange's name for a pair that may be absent.
pub open spec fn opt_instrument_text(pair: Option<Pair>) -> Option<Seq<char>> {
    match pair {
        Some(p) => Some(Okx::instrument_text(p)),
        None => None,
    }
}

/// The currencies of a list that may be absent, joined by commas.
pub open spec fn opt_currencies(currency: Option<Vec<String>>) -> Option<Seq<char>> {
    match currency {
        Some(list) => Some(joined(list@, ","@)),
        None => None,
    }
}

impl Okx {
    /// What goes on the wire for a question about an account's instruments.
    pub open spec fn instruments_wire(request: GeneralInstrumentsRequest) -> WireModel {
        WireModel {
            method: HttpMethod::GET,
            host: host(),
            uri: "api/v5/account/instruments"@,
            body: false,
            path_params: false,
            public: false,
            query: seq![("instType"@, request.instrument_type.token())] + optional_field(
                "instId"@,
                opt_instrument_text(request.instrument_id),
            ),
            named: Seq::empty(),
        }
    }

    /// The exchange's form of a question about an account's instruments.
    pub fn instruments_request(request: &GeneralInstrumentsRequest) -> (out: GetInstrumentsRequest)
        ensures
            out.wire() == Okx::instruments_wire(*request),
    {
        let instrument_id = match &request.instrument_id {
            Some(pair) => Okx::instrument_id(pair),
            None => None,
        };
        GetInstrumentsRequest { instrument_type: request.instrument_type, instrument_id }
    }

    /// What goes on the wire for a question about balances.
    pub open spec fn balance_wire(request: GeneralBalanceRequest) -> WireModel {
        WireModel {
            method: HttpMethod::GET,
            host: host(),
            uri: "api/v5/account/balance"@,
            body: false,
            path_params: false,
            public: false,
            query: optional_field("ccy"@, opt_currencies(request.currency)),
            named: Seq::empty(),
        }
    }

    /// The exchange's form of a question about balances: the currencies
    /// asked for travel as one list, separated by commas.
    pub fn balance_request(request: &GeneralBalanceRequest) -> (out: GetBalanceRequest)
        ensures
            out.wire() == Okx::balance_wire(*request),
    {
        let currencies = match &request.currency {
            Some(list) => Some(join(list, ",")),
            None => None,
        };
        GetBalanceRequest { currencies }
    }

    /// What goes on the wire for an order: the instrument, how it is funded,
    /// the side, the order type, the size and, where one is set, the price.
    pub open spec fn order_wire(request: GeneralPostOrderRequest) -> WireModel {
        let fields = seq![
            ("instId"@, request.instrument_id.text()),
            ("tdMode"@, request.trade_mode.token()),
            ("side"@, request.side.token()),
            ("ordType"@, request.order_type.token()),
            ("sz"@, request.size@),
        ] + optional_field("px"@, opt_text(request.order_price));
        WireModel {
            method: HttpMethod::POST,
            host: host(),
            uri: "api/v5/trade/order"@,
            body: true,
            path_params: false,
            public: false,
            query: fields,
            named: fields,
        }
    }

    /// The exchange's form of an order.
    pub fn order_request(request: &GeneralPostOrderRequest) -> (out: PlaceOrderBody)
        ensures
            out.wire() == Okx::order_wire(*request),
    {
        let out = PlaceOrderBody {
            instrument_id: request.instrument_id.to_string(),
            trade_mode: Okx::trade_mode_string(request.trade_mode),
            margin_currency: None,
            client_order_id: None,
            order_tag: None,
            side: Okx::side_string(request.side),
            position_side: None,
            order_type: Okx::order_type_string(request.order_type),
            size: request.size.clone(),
            order_price: clone_optional(&request.order_price),
        };
        assert(out.wire().named =~= Okx::order_wire(*request).named);
        out
    }

    /// What goes on the wire for a question about open orders.
    pub open spec fn pending_orders_wire(request: GeneralOrdersListRequest) -> WireModel {
        WireModel {
            method: HttpMethod::GET,
            host: host(),
            uri: "api/v5/trade/orders-pending"@,
            body: false,
            path_params: false,
            public: false,
            query: seq![
                ("instId"@, request.instrument_id.text()),
                ("instType"@, request.instrument_type.token()),
            ],
            named: Seq::empty(),
        }
    }

    /// The exchange's form of a question about open orders.
    pub fn pending_orders_request(request: &GeneralOrdersListRequest) -> (out: PendingOrdersRequest)
        ensures
            out.wire() == Okx::pending_orders_wire(*request),
    {
        let out = PendingOrdersRequest {
            instrument_id: Some(request.instrument_id.to_string()),
            instrument_type: Some(request.instrument_type),
        };
        assert(out.wire().query =~= Okx::pending_orders_wire(*request).query);
        out
    }

    /// What goes on the wire for a question about finished orders.
    pub open spec fn done_orders_wire(request: GeneralOrdersListRequest) -> WireModel {
        WireModel {
            method: HttpMethod::GET,
            host: host(),
            uri: "api/v5/trade/orders-history"@,
            body: false,
            path_params: false,
            public: false,
            query: seq![
                ("instId"@, request.instrument_id.text()),
                ("instType"@, request.instrument_type.token()),
            ],
            named: Seq::empty(),
        }
    }

    /// The exchange's form of a question about finished orders.
    pub fn done_orders_request(request: &GeneralOrdersListRequest) -> (out: OrdersHistoryRequest)
        ensures
            out.wire() == Okx::done_orders_wire(*request),
    {
        let out = OrdersHistoryRequest {
            instrument_id: Some(request.instrument_id.to_string()),
            instrument_type: request.instrument_type,
        };
        assert(out.wire().query =~= Okx::done_orders_wire(*request).query);
        out
    }
}

/// What the accounts of a list hold, account after account.
pub open spec fn all_details(accounts: Seq<AccountInfo>) -> Seq<AssetDetail>
    decreases accounts.len(),
{
    if accounts.len() == 0 {
        Seq::empty()
    } else {
        all_details(accounts.drop_last()) + accounts.last().details@
    }
}

impl Okx {
    /// Whether a response is the answer to a question about instruments in
    /// general terms: each instrument with its pair and its kind.
    pub open spec fn instruments_answer(listed: Seq<ConcreteInstrument>, response: Response) -> bool {
        &&& response is Instruments
        &&& response->Instruments_0@.len() == listed.len()
        &&& forall|i: int|
            0 <= i < listed.len() ==> {
                &&& (#[trigger] response->Instruments_0@[i]).instrument_id
                    == listed[i].instrument_id
                &&& response->Instruments_0@[i].instrument_type == listed[i].instrument_type
            }
    }

    /// Whether a response is the answer to a question about balances in
    /// general terms: what each account holds of each currency, account after
    /// account.
    pub open spec fn balance_answer(accounts: Seq<AccountInfo>, response: Response) -> bool {
        &&& response is Balances
        &&& response->Balances_0@.len() == all_details(accounts).len()
        &&& forall|k: int|
            0 <= k < all_details(accounts).len() ==> (#[trigger] all_details(accounts)[k]).is_general(
                response->Balances_0@[k],
            )
    }

    /// Whether a response is the answer to an order in general terms: the
    /// identifier and the status message of the first order that the
    /// exchange reports.
    pub open spec fn order_answer(placed: Seq<PlaceOrderDetails>, response: Response) -> bool {
        &&& placed.len() > 0
        &&& response is Order
        &&& response->Order_0.id == placed[0].order_id
        &&& response->Order_0.message == placed[0].status_message
    }

    /// Whether a response is the answer to a question about orders in general
    /// terms.
    pub open spec fn orders_answer(orders: Seq<OkxOrder>, response: Response) -> bool {
        &&& response is OrdersInfo
        &&& response->OrdersInfo_0@.len() == orders.len()
        &&& forall|i: int|
            0 <= i < orders.len() ==> (#[trigger] orders[i]).is_general(
                response->OrdersInfo_0@[i],
            )
    }

    /// The answer to a question about instruments, in general terms: each
    /// instrument with its pair and its kind.
    pub fn instruments_response(listed: &Vec<ConcreteInstrument>) -> (response: Response)
        ensures
            Okx::instruments_answer(listed@, response),
    {
        Response::Instruments(Okx::general_instruments(listed))
    }

    /// The instruments of a list in general terms.
    pub fn general_instruments(listed: &Vec<ConcreteInstrument>) -> (instruments: Vec<Instrument>)
        ensures
            instruments@.len() == listed@.len(),
            forall|i: int|
                0 <= i < listed@.len() ==> {
                    &&& (#[trigger] instruments@[i]).instrument_id == listed@[i].instrument_id
                    &&& instruments@[i].instrument_type == listed@[i].instrument_type
                },
    {
        let mut instruments: Vec<Instrument> = Vec::new();
        let mut i: usize = 0;
        while i < listed.len()
            invariant
                i <= listed.len(),
                instruments@.len() == i,
                forall|j: int|
                    0 <= j < i ==> {
                        &&& (#[trigger] instruments@[j]).instrument_id == listed@[j].instrument_id
                        &&& instruments@[j].instrument_type == listed@[j].instrument_type
                    },
            decreases listed.len() - i,
        {
            instruments.push(listed[i].to_general());
            i = i + 1;
        }
        instruments
    }

    /// The answer to a question about balances, in general terms: what each
    /// account holds of each currency, account after account.
    pub fn balance_response(accounts: &Vec<AccountInfo>) -> (response: Response)
        ensures
            Okx::balance_answer(accounts@, response),
    {
        let mut balances: Vec<Balance> = Vec::new();
        let mut i: usize = 0;
        while i < accounts.len()
            invariant
                i <= accounts.len(),
                balances@.len() == all_details(accounts@.take(i as int)).len(),
                forall|k: int|
                    0 <= k < balances@.len() ==> (#[trigger] all_details(
                        accounts@.take(i as int),
                    )[k]).is_general(balances@[k]),
            decreases accounts.len() - i,
        {
            let ghost before = balances@;
            let ghost held = all_details(accounts@.take(i as int));
            accounts[i].write_balances(&mut balances);
            proof {
                assert(accounts@.take(i + 1).drop_last() =~= accounts@.take(i as int));
                assert(accounts@.take(i + 1).last() == accounts@[i as int]);
                let after = all_details(accounts@.take(i + 1));
                assert(after == held + accounts@[i as int].details@);
                assert forall|k: int| 0 <= k < balances@.len() implies (#[trigger] after[k]).is_general(
                    balances@[k],
                ) by {
                    if k < before.len() {
                        assert(balances@[k] == balances@.take(before.len() as int)[k]);
                        assert(after[k] == held[k]);
                    } else {
                        assert(after[k] == accounts@[i as int].details@[k - before.len()]);
                    }
                }
            }
            i = i + 1;
        }
        assert(accounts@.take(accounts.len() as int) =~= accounts@);
        Response::Balances(balances)
    }

    /// The answer to an order, in general terms: the identifier and the
    /// status message of the first order the exchange reports. An answer
    /// that reports no order is refused.
    pub fn order_response(placed: &Vec<PlaceOrderDetails>) -> (response: Result<
        Response,
        ExchangeErrors,
    >)
        ensures
            match response {
                Ok(r) => Okx::order_answer(placed@, r),
                Err(e) => placed@.len() == 0 && e is DeserializationFailed,
            },
    {
        if placed.len() == 0 {
            Err(
                ExchangeErrors::DeserializationFailed {
                    message: String::from_str("the answer reports no order"),
                },
            )
        } else {
            Ok(
                Response::Order(
                    OrderData {
                        id: placed[0].order_id.clone(),
                        message: placed[0].status_message.clone(),
                    },
                ),
            )
        }
    }

    /// The answer to a question about orders, in general terms.
    pub fn orders_response(orders: &Vec<OkxOrder>) -> (response: Response)
        ensures
            Okx::orders_answer(orders@, response),
    {
        let mut general: Vec<Order> = Vec::new();
        let mut i: usize = 0;
        while i < orders.len()
            invariant
                i <= orders.len(),
                general@.len() == i,
                forall|j: int| 0 <= j < i ==> (#[trigger] orders@[j]).is_general(general@[j]),
            decreases orders.len() - i,
        {
            general.push(orders[i].to_general());
            i = i + 1;
        }
        Response::OrdersInfo(general)
    }
}

} // verus!
