use trendlens_backend::api_client::{ApiClient, ApiClientErrors, HttpCall, RejectionCode};
use trendlens_backend::api_store::{ApiData, ApiStore};
use trendlens_backend::exchange::{Exchange, ExchangeImpl};
use trendlens_backend::execution::{
    build_transaction, plan_instruction, read_answer, split_instructions, Execution, Expected,
    Payload, Planned, Step,
};
use trendlens_backend::pair::Pair;
use trendlens_backend::remote_exchanges::coinbase::response::{Account, OrderResponse};
use trendlens_backend::remote_exchanges::okx::api::InstrumentType;
use trendlens_backend::remote_exchanges::okx::response::{AccountInfo, AssetDetail};
use trendlens_backend::remote_exchanges::request::{
    GeneralBalanceRequest, GeneralInstrumentsRequest, GeneralOrdersListRequest,
    GeneralPostOrderRequest, OrderSide, OrderType, TradeMode,
};
use trendlens_backend::remote_exchanges::{ExchangeErrors, HttpMethod};
use trendlens_backend::request_store::request::{Request, Response};
use trendlens_backend::request_store::{Instruction, MyPrincipal, TransactionStore};
use trendlens_backend::storage::Memories;

fn pair() -> Pair {
    Pair {
        base: "BTC".to_string(),
        quote: "USD".to_string(),
    }
}

fn balances(exchange: Exchange, api_key: &str) -> Instruction {
    Instruction {
        exchange,
        api_key: api_key.to_string(),
        request: Request::Balances(GeneralBalanceRequest { currency: None }),
    }
}

fn order(exchange: Exchange, api_key: &str, order_type: OrderType) -> Instruction {
    Instruction {
        exchange,
        api_key: api_key.to_string(),
        request: Request::PostOrder(GeneralPostOrderRequest {
            instrument_id: pair(),
            trade_mode: TradeMode::Cash,
            side: OrderSide::Buy,
            margin_currency: None,
            position_side: None,
            order_type,
            size: "30".to_string(),
            order_price: None,
        }),
    }
}

fn credential(exchange: Exchange, api_key: &str) -> ApiData {
    ApiData {
        exchange,
        api_key: api_key.to_string(),
        passphrase: Some("secret".to_string()),
    }
}

fn header<'a>(call: &'a HttpCall, name: &str) -> Option<&'a str> {
    call.headers
        .iter()
        .find(|h| h.name == name)
        .map(|h| h.value.as_str())
}

fn accounts() -> Payload {
    Payload::CoinbaseAccounts(vec![Account {
        id: "a".to_string(),
        currency: "BTC".to_string(),
        balance: "1".to_string(),
        hold: "0.5".to_string(),
        available: "0.5".to_string(),
        profile_id: "p".to_string(),
        trading_enabled: true,
    }])
}

#[test]
fn okx_order_is_signed_as_it_is_sent() {
    let instruction = order(Exchange::Okx, "key", OrderType::Market);
    let text = ExchangeImpl::new(Exchange::Okx)
        .get_signature_string(&instruction.request)
        .unwrap();
    assert_eq!(
        text,
        r#"POST/api/v5/trade/order{"instId":"BTC-USD","tdMode":"cash","side":"buy","ordType":"market","sz":"30"}"#
    );

    let mut client = ApiClient::default();
    let planned = plan_instruction(
        &mut client,
        &instruction,
        &credential(Exchange::Okx, "key"),
        "signed",
        "2024-01-01T00:00:00.000Z",
        1704067200,
    )
    .unwrap();
    match planned {
        Planned::Call { call, expects } => {
            assert_eq!(expects, Expected::OkxOrder);
            assert_eq!(call.url, "https://www.okx.com/api/v5/trade/order");
            assert_eq!(call.method, HttpMethod::POST);
            assert_eq!(
                call.body.as_deref(),
                Some(r#"{"instId":"BTC-USD","tdMode":"cash","side":"buy","ordType":"market","sz":"30"}"#)
            );
            assert_eq!(header(&call, "OK-ACCESS-KEY"), Some("key"));
            assert_eq!(header(&call, "OK-ACCESS-SIGN"), Some("signed"));
            assert_eq!(
                header(&call, "OK-ACCESS-TIMESTAMP"),
                Some("2024-01-01T00:00:00.000Z")
            );
            assert_eq!(header(&call, "OK-ACCESS-PASSPHRASE"), Some("secret"));
            assert_eq!(header(&call, "idempotency-key"), Some("0"));
            assert_eq!(call.headers.len(), 8);
        }
        Planned::Answer(_) => panic!("a call was expected"),
    }
    assert_eq!(client.idempotency_counter, 1);
}

#[test]
fn coinbase_orders_are_signed_with_their_query() {
    let request = Request::OrdersList(GeneralOrdersListRequest {
        instrument_type: InstrumentType::Spot,
        instrument_id: pair(),
        pending: false,
    });
    let text = ExchangeImpl::new(Exchange::Coinbase)
        .get_signature_string(&request)
        .unwrap();
    assert_eq!(
        text,
        "GET/orders?product_id=BTC-USD&market_type=SPOT&limit=100&status=done&status=rejected"
    );
    let text = ExchangeImpl::new(Exchange::Coinbase)
        .get_signature_string(&Request::Empty)
        .unwrap();
    assert_eq!(text, "");
    let text = ExchangeImpl::new(Exchange::Okx)
        .get_signature_string(&Request::Balances(GeneralBalanceRequest {
            currency: Some(vec!["BTC".to_string(), "ETH".to_string()]),
        }))
        .unwrap();
    assert_eq!(text, "GET/api/v5/account/balance?ccy=BTC%2CETH");
    let text = ExchangeImpl::new(Exchange::Okx)
        .get_signature_string(&Request::Instruments(GeneralInstrumentsRequest {
            instrument_type: InstrumentType::Spot,
            instrument_id: Some(Pair {
                base: "btc".to_string(),
                quote: "usd".to_string(),
            }),
        }))
        .unwrap();
    assert_eq!(text, "GET/api/v5/account/instruments?instType=SPOT&instId=BTC-USD");
}

#[test]
fn coinbase_purchase_states_funds() {
    let instruction = order(Exchange::Coinbase, "key", OrderType::Market);
    let text = ExchangeImpl::new(Exchange::Coinbase)
        .get_signature_string(&instruction.request)
        .unwrap();
    assert_eq!(
        text,
        r#"POST/orders{"product_id":"BTC-USD","funds":"30","type":"market","side":"buy"}"#
    );
}

#[test]
fn unknown_order_type_is_refused() {
    let instruction = order(Exchange::Coinbase, "key", OrderType::Fok);
    let refused = ExchangeImpl::new(Exchange::Coinbase).get_signature_string(&instruction.request);
    assert!(matches!(refused, Err(ExchangeErrors::UnsupportedOrderType)));

    let mut client = ApiClient::default();
    let planned = plan_instruction(
        &mut client,
        &instruction,
        &credential(Exchange::Coinbase, "key"),
        "signed",
        "",
        7,
    );
    assert!(matches!(planned, Err(ExchangeErrors::UnsupportedOrderType)));
    assert_eq!(client.idempotency_counter, 0);

    let no_passphrase = ApiData {
        exchange: Exchange::Coinbase,
        api_key: "key".to_string(),
        passphrase: None,
    };
    let planned = plan_instruction(
        &mut client,
        &balances(Exchange::Coinbase, "key"),
        &no_passphrase,
        "signed",
        "",
        7,
    );
    assert!(matches!(planned, Err(ExchangeErrors::MissingPassphrase)));
    let empty = Instruction {
        exchange: Exchange::Okx,
        api_key: "key".to_string(),
        request: Request::Empty,
    };
    let planned = plan_instruction(
        &mut client,
        &empty,
        &credential(Exchange::Okx, "key"),
        "signed",
        "",
        7,
    );
    assert!(matches!(planned, Err(ExchangeErrors::EmptyRequest)));
}

#[test]
fn second_failure_stops_the_third_instruction() {
    let mut memories = Memories::new();
    let mut store = TransactionStore::new(&mut memories).unwrap();
    let mut keys = ApiStore::new(&mut memories).unwrap();
    let mut client = ApiClient::default();
    let caller = MyPrincipal(vec![7]);
    keys.register_key(&caller, credential(Exchange::Coinbase, "key"))
        .unwrap();

    let (id, transaction) = build_transaction(
        &mut store,
        &caller,
        vec![
            balances(Exchange::Coinbase, "key"),
            order(Exchange::Coinbase, "key", OrderType::Market),
            balances(Exchange::Coinbase, "key"),
        ],
    )
    .unwrap();
    assert_eq!(id, 0);
    assert_eq!(transaction.0.len(), 3);
    assert_eq!(transaction.0[0].signature, "GET/accounts");
    assert!(!transaction.0[0].executed);

    let signatures = vec!["s1".to_string(), "s2".to_string(), "s3".to_string()];
    let mut execution = Execution::new(transaction, signatures, "utc".to_string(), 42);

    // the first instruction succeeds
    match execution.next(&keys, &caller, &mut client) {
        Step::Call { call, expects } => {
            assert_eq!(expects, Expected::CoinbaseAccounts);
            assert_eq!(
                call.url,
                "https://api-public.sandbox.exchange.coinbase.com/accounts"
            );
            assert_eq!(header(&call, "CB-ACCESS-SIGN"), Some("s1"));
            assert_eq!(header(&call, "CB-ACCESS-TIMESTAMP"), Some("42"));
        }
        _ => panic!("a call was expected"),
    }
    // no second call before the first is answered
    assert!(matches!(
        execution.next(&keys, &caller, &mut client),
        Step::Halted
    ));
    assert!(execution.record(Ok(accounts())).is_none());

    // the second fails
    match execution.next(&keys, &caller, &mut client) {
        Step::Call { call, expects } => {
            assert_eq!(expects, Expected::CoinbaseOrder);
            assert_eq!(header(&call, "CB-ACCESS-SIGN"), Some("s2"));
        }
        _ => panic!("a call was expected"),
    }
    let failure = ApiClient::read_response(500, "down".to_string()).unwrap_err();
    let reported = execution.record(Err(failure)).unwrap();
    match reported {
        ExchangeErrors::ApiClientError(ApiClientErrors::Http { status, body }) => {
            assert_eq!(status, 500);
            assert_eq!(body, "down");
        }
        _ => panic!("the second instruction's error was expected"),
    }

    // the third is never carried out
    let calls_before = client.idempotency_counter;
    assert!(matches!(
        execution.next(&keys, &caller, &mut client),
        Step::Halted
    ));
    assert_eq!(client.idempotency_counter, calls_before);
    assert_eq!(calls_before, 2);
    assert!(!execution.is_complete());

    // the transaction is still stored as it was
    let kept = store.get_transaction(&caller, id).unwrap();
    assert_eq!(kept.0.len(), 3);
    assert!(!kept.0[0].executed);
}

#[test]
fn completed_execution_is_stored_as_executed() {
    let mut memories = Memories::new();
    let mut store = TransactionStore::new(&mut memories).unwrap();
    let mut keys = ApiStore::new(&mut memories).unwrap();
    let mut client = ApiClient::default();
    let caller = MyPrincipal(vec![7]);
    keys.register_key(&caller, credential(Exchange::Coinbase, "key"))
        .unwrap();
    keys.register_key(&caller, credential(Exchange::Okx, "okx-key"))
        .unwrap();

    let instruments = Instruction {
        exchange: Exchange::Coinbase,
        api_key: "key".to_string(),
        request: Request::Instruments(GeneralInstrumentsRequest {
            instrument_type: InstrumentType::Spot,
            instrument_id: None,
        }),
    };
    let (id, transaction) = build_transaction(
        &mut store,
        &caller,
        vec![
            instruments,
            balances(Exchange::Okx, "okx-key"),
            order(Exchange::Coinbase, "key", OrderType::Limit),
        ],
    )
    .unwrap();

    // a signature too few: the last instruction is not carried out
    let signatures = vec!["s1".to_string(), "s2".to_string()];
    let mut execution = Execution::new(transaction, signatures, "utc".to_string(), 42);

    // the first instruction is answered without a call
    match execution.next(&keys, &caller, &mut client) {
        Step::Call { call, expects } => {
            assert_eq!(expects, Expected::OkxBalances);
            assert_eq!(call.url, "https://www.okx.com/api/v5/account/balance");
            assert_eq!(header(&call, "OK-ACCESS-KEY"), Some("okx-key"));
            assert_eq!(header(&call, "OK-ACCESS-SIGN"), Some("s2"));
        }
        _ => panic!("a call was expected"),
    }
    let answer = Payload::OkxBalances(vec![AccountInfo {
        update_time: "1".to_string(),
        total_equity: "1".to_string(),
        isolated_margin_equity: None,
        adjusted_equity: None,
        cross_margin_frozen: None,
        initial_margin_requirement: None,
        maintenance_margin_requirement: None,
        potential_borrowing_imr: None,
        margin_ratio: None,
        notional_value_usd: None,
        unrealized_profit_loss: None,
        details: vec![AssetDetail {
            currency: "BTC".to_string(),
            equity: "2".to_string(),
            cash_balance: "3".to_string(),
            update_time: "1".to_string(),
        }],
    }]);
    assert!(execution.record(Ok(answer)).is_none());
    assert!(matches!(
        execution.next(&keys, &caller, &mut client),
        Step::Done
    ));
    assert!(execution.is_complete());

    let responses = execution.finish(&mut store, &caller, id).unwrap();
    assert_eq!(responses.len(), 2);
    match &responses[0] {
        Response::Instruments(all) => assert!(all.is_empty()),
        _ => panic!("instruments were expected"),
    }
    match &responses[1] {
        Response::Balances(all) => {
            assert_eq!(all.len(), 1);
            assert_eq!(all[0].currency, "BTC");
            assert_eq!(all[0].available, "2");
            assert_eq!(all[0].balance, "3");
            assert_eq!(all[0].hold, "0");
        }
        _ => panic!("balances were expected"),
    }

    let listed = store.get_transactions(&caller).unwrap();
    assert_eq!(listed.len(), 1);
    let done = &listed[0].1 .0;
    assert_eq!(done.len(), 2);
    assert!(done[0].executed && done[1].executed);
    assert_eq!(done[1].signature, "GET/api/v5/account/balance");
}

#[test]
fn vanished_transaction_is_not_stored_anew() {
    let mut memories = Memories::new();
    let mut store = TransactionStore::new(&mut memories).unwrap();
    let mut keys = ApiStore::new(&mut memories).unwrap();
    let mut client = ApiClient::default();
    let caller = MyPrincipal(vec![7]);
    keys.register_key(&caller, credential(Exchange::Coinbase, "key"))
        .unwrap();
    let (id, transaction) =
        build_transaction(&mut store, &caller, vec![balances(Exchange::Coinbase, "key")]).unwrap();
    let mut execution = Execution::new(transaction, vec!["s".to_string()], "utc".to_string(), 1);
    assert!(matches!(
        execution.next(&keys, &caller, &mut client),
        Step::Call { .. }
    ));
    // the owner deletes the transaction while the call is under way
    store.delete_transaction(&caller, id).unwrap();
    assert!(execution.record(Ok(accounts())).is_none());
    assert!(matches!(
        execution.next(&keys, &caller, &mut client),
        Step::Done
    ));
    let responses = execution.finish(&mut store, &caller, id).unwrap();
    assert_eq!(responses.len(), 1);
    assert!(store.get_transactions(&caller).unwrap().is_empty());
}

#[test]
fn missing_credential_fails_the_execution() {
    let mut memories = Memories::new();
    let mut store = TransactionStore::new(&mut memories).unwrap();
    let keys = ApiStore::new(&mut memories).unwrap();
    let mut client = ApiClient::default();
    let caller = MyPrincipal(vec![7]);
    let (_, transaction) =
        build_transaction(&mut store, &caller, vec![balances(Exchange::Okx, "nobody")]).unwrap();
    let mut execution = Execution::new(transaction, vec!["s".to_string()], "utc".to_string(), 1);
    assert!(matches!(
        execution.next(&keys, &caller, &mut client),
        Step::Failed(ExchangeErrors::MissingApiKey)
    ));
    assert!(matches!(
        execution.next(&keys, &caller, &mut client),
        Step::Halted
    ));
}

#[test]
fn answer_of_another_kind_is_refused() {
    let instruction = balances(Exchange::Coinbase, "key");
    let placed = Payload::CoinbaseOrder(OrderResponse {
        id: "1".to_string(),
        price: None,
        size: None,
        product_id: "BTC-USD".to_string(),
        profile_id: None,
        side: "buy".to_string(),
        funds: None,
        specified_funds: None,
        order_type: "market".to_string(),
        time_in_force: None,
        expire_time: None,
        post_only: false,
        created_at: "now".to_string(),
        done_at: None,
        done_reason: None,
        reject_reason: None,
        fill_fees: "0".to_string(),
        filled_size: "0".to_string(),
        executed_value: None,
        status: "pending".to_string(),
        settled: false,
        stop: None,
        stop_price: None,
        funding_amount: None,
        client_oid: None,
        market_type: None,
        max_floor: None,
        secondary_order_id: None,
        stop_limit_price: None,
    });
    assert!(matches!(
        read_answer(&instruction, &placed),
        Err(ExchangeErrors::DeserializationFailed { .. })
    ));
    let buy = order(Exchange::Coinbase, "key", OrderType::Market);
    match read_answer(&buy, &placed).unwrap() {
        Response::Order(data) => {
            assert_eq!(data.id, "1");
            assert_eq!(data.message, "pending");
        }
        _ => panic!("an order was expected"),
    }
    assert!(matches!(
        read_answer(&buy, &Payload::OkxOrder(vec![])),
        Err(ExchangeErrors::DeserializationFailed { .. })
    ));
}

#[test]
fn order_is_split_between_accounts() {
    let keys = vec![
        credential(Exchange::Okx, "first"),
        credential(Exchange::Coinbase, "second"),
    ];
    let shares = vec!["30".to_string(), "70".to_string()];
    let split = split_instructions(&keys, &pair(), OrderSide::Sell, &shares);
    assert_eq!(split.len(), 2);
    assert_eq!(split[0].api_key, "first");
    assert_eq!(split[0].exchange, Exchange::Okx);
    assert_eq!(split[1].api_key, "second");
    assert_eq!(split[1].exchange, Exchange::Coinbase);
    match &split[1].request {
        Request::PostOrder(order) => {
            assert_eq!(order.size, "70");
            assert_eq!(order.instrument_id, pair());
            assert_eq!(order.order_type, OrderType::Market);
            assert_eq!(order.trade_mode, TradeMode::Cash);
            assert_eq!(order.side, OrderSide::Sell);
            assert!(order.order_price.is_none());
        }
        _ => panic!("an order was expected"),
    }
}

#[test]
fn rejected_call_is_reported_with_its_code() {
    let error = ApiClient::rejected(RejectionCode::SysTransient, "busy".to_string());
    match &error {
        ExchangeErrors::ApiClientError(inner) => assert_eq!(
            inner.to_string(),
            "request rejected with code SysTransient and message busy"
        ),
        _ => panic!("a rejection was expected"),
    }
    assert_eq!(error.to_string(), "api client error");
    let error = ApiClient::read_response(404, "nothing".to_string()).unwrap_err();
    match &error {
        ExchangeErrors::ApiClientError(inner) => assert_eq!(
            inner.to_string(),
            "http call failed with status 404 and body nothing"
        ),
        _ => panic!("a status error was expected"),
    }
    assert_eq!(
        ApiClient::read_response(200, "{}".to_string()).unwrap(),
        "{}"
    );
    assert_eq!(
        ApiClient::undecodable("bad".to_string()).to_string(),
        "could not deserialize: bad"
    );
}

#[test]
fn cycles_follow_the_fee_model() {
    // nothing sent, default ceiling of two mebibytes
    assert_eq!(
        ApiClient::cycles_for(0, None),
        (3_000_000u128 + 780_000 + 12 * 400 + 2_097_152u128 * 800) * 13
    );
    assert_eq!(
        ApiClient::cycles_for(100, Some(1000)),
        (3_000_000u128 + 780_000 + 112 * 400 + 1000 * 800) * 13
    );
    let mut client = ApiClient::default();
    let instruction = balances(Exchange::Okx, "key");
    let planned = plan_instruction(
        &mut client,
        &instruction,
        &credential(Exchange::Okx, "key"),
        "s",
        "t",
        1,
    )
    .unwrap();
    match planned {
        Planned::Call { call, .. } => {
            let cycles = ApiClient::get_required_cycles(&call);
            let floor = ApiClient::cycles_for(call.url.len(), None);
            assert!(cycles > floor);
            let mut longer = call;
            longer.url.push_str("?more=1");
            assert!(ApiClient::get_required_cycles(&longer) > cycles);
        }
        Planned::Answer(_) => panic!("a call was expected"),
    }
}
