use trendlens_backend::api_client::{
    ApiClient, ApiClientErrors, Poll, ProxiedOutcome, ProxiedResult, RejectionCode, ResultTable,
};
use trendlens_backend::exchange::{Exchange, ExchangeImpl, Quantity};
use trendlens_backend::pair::Pair;
use trendlens_backend::remote_exchanges::coinbase::response::{
    ConcreteInstrument, Order, OrderStatus,
};
use trendlens_backend::remote_exchanges::coinbase::Coinbase;
use trendlens_backend::remote_exchanges::okx::api::{
    GetBalanceRequest, InstrumentType, PlaceOrderBody,
};
use trendlens_backend::remote_exchanges::okx::auth::OkxAuth;
use trendlens_backend::remote_exchanges::okx::response::{
    ApiResponse, BidAsk as OkxBidAsk, OrderBook as OkxOrderBook, OrderState,
};
use trendlens_backend::remote_exchanges::okx::Okx;
use trendlens_backend::remote_exchanges::request::{
    GeneralOrdersListRequest, OrderSide, OrderType, TradeMode,
};
use trendlens_backend::remote_exchanges::response::{ApiResponseWrapper, BidAsk, OrderBook};
use trendlens_backend::remote_exchanges::{
    ApiRequest, Authorize, ExchangeErrors, PathFormatter,
};
use trendlens_backend::text::u64_to_decimal;

fn quantity(value: f64) -> Quantity {
    Quantity {
        bits: value.to_bits(),
    }
}

#[test]
fn only_the_two_hundreds_are_success() {
    for status in [200, 201, 204, 299] {
        assert_eq!(
            ApiClient::read_response(status, "body".to_string()).unwrap(),
            "body"
        );
    }
    for status in [0, 199, 300, 404, 500, u64::MAX] {
        match ApiClient::read_response(status, "body".to_string()) {
            Err(ExchangeErrors::ApiClientError(ApiClientErrors::Http { status: s, body })) => {
                assert_eq!(s, status);
                assert_eq!(body, "body");
            }
            _ => panic!("a status error was expected"),
        }
    }
}

#[test]
fn proxied_outcome_is_picked_up_once() {
    let mut table = ResultTable::new();
    assert!(matches!(table.poll(7), Poll::Sleep(1)));

    table.deliver(ProxiedResult {
        handle: 8,
        outcome: ProxiedOutcome::Answered {
            status: 200,
            body: "other".to_string(),
        },
    });
    assert!(matches!(table.poll(7), Poll::Sleep(1)));

    table.deliver(ProxiedResult {
        handle: 7,
        outcome: ProxiedOutcome::Answered {
            status: 200,
            body: "mine".to_string(),
        },
    });
    match table.poll(7) {
        Poll::Finished(Ok(body)) => assert_eq!(body, "mine"),
        _ => panic!("the outcome was expected"),
    }
    // the outcome has left the table
    assert!(matches!(table.poll(7), Poll::Sleep(1)));
    // the other one is still there
    match table.poll(8) {
        Poll::Finished(Ok(body)) => assert_eq!(body, "other"),
        _ => panic!("the outcome was expected"),
    }

    table.deliver(ProxiedResult {
        handle: 9,
        outcome: ProxiedOutcome::Rejected {
            code: RejectionCode::SysFatal,
            message: "no".to_string(),
        },
    });
    match table.poll(9) {
        Poll::Finished(Err(ExchangeErrors::ApiClientError(ApiClientErrors::Reject {
            message,
            code,
        }))) => {
            assert_eq!(message, "no");
            assert_eq!(code, RejectionCode::SysFatal);
        }
        _ => panic!("a rejection was expected"),
    }
    table.deliver(ProxiedResult {
        handle: 10,
        outcome: ProxiedOutcome::Answered {
            status: 503,
            body: "down".to_string(),
        },
    });
    assert!(matches!(
        table.poll(10),
        Poll::Finished(Err(ExchangeErrors::ApiClientError(
            ApiClientErrors::Http { status: 503, .. }
        )))
    ));
}

#[test]
fn public_request_carries_no_credentials() {
    let mut client = ApiClient::default();
    let auth = OkxAuth {
        api_key: "key".to_string(),
        passphrase: "pass".to_string(),
        signature: "sig".to_string(),
        timestamp: "now".to_string(),
    };
    let pair = Pair {
        base: "BTC".to_string(),
        quote: "USD".to_string(),
    };
    let public = Okx::orderbook_request(&pair, 5).unwrap().to_wire();
    let call = client.call(&public, Some(&auth));
    let names: Vec<&str> = call.headers.iter().map(|h| h.name.as_str()).collect();
    assert_eq!(names, vec!["User-Agent", "Content-Type", "idempotency-key"]);
    assert_eq!(call.headers[0].value, "trend_lense_backend");
    assert_eq!(call.headers[1].value, "application/json");
    assert_eq!(call.headers[2].value, "0");
    assert!(call.body.is_none());

    let private = GetBalanceRequest { currencies: None }.to_wire();
    let call = client.call(&private, Some(&auth));
    let names: Vec<&str> = call.headers.iter().map(|h| h.name.as_str()).collect();
    assert_eq!(
        names,
        vec![
            "OK-ACCESS-KEY",
            "OK-ACCESS-SIGN",
            "OK-ACCESS-TIMESTAMP",
            "OK-ACCESS-PASSPHRASE",
            "x-simulated-trading",
            "User-Agent",
            "Content-Type",
            "idempotency-key"
        ]
    );
    assert_eq!(call.headers[7].value, "1");
    assert_eq!(call.url, "https://www.okx.com/api/v5/account/balance");
    assert_eq!(auth.get_auth_headers().len(), 5);

    let call = client.call(&private, None::<&OkxAuth>);
    assert_eq!(call.headers.len(), 3);
    assert_eq!(call.headers[2].value, "2");

    // the counter stops where it can grow no more
    client.idempotency_counter = u64::MAX;
    let call = client.call(&private, None::<&OkxAuth>);
    assert_eq!(call.headers[2].value, "18446744073709551615");
    assert_eq!(client.idempotency_counter, u64::MAX);
}

#[test]
fn numbers_are_written_in_decimal() {
    assert_eq!(u64_to_decimal(0), "0");
    assert_eq!(u64_to_decimal(9), "9");
    assert_eq!(u64_to_decimal(10), "10");
    assert_eq!(u64_to_decimal(1620000000000), "1620000000000");
    assert_eq!(u64_to_decimal(u64::MAX), "18446744073709551615");
}

#[test]
fn text_that_spells_no_pair_is_refused() {
    for text in ["btcusd", "", "btc-usd-eur", "btc--usd"] {
        assert!(matches!(
            Pair::from_str(text),
            Err(ExchangeErrors::UnsupportedPairFormat)
        ));
    }
    // one separator is enough, even between nothing
    assert_eq!(
        Pair::from_str("-").unwrap(),
        Pair {
            base: "".to_string(),
            quote: "".to_string()
        }
    );
    assert_eq!(
        Pair::from_str("Btc/uSd").unwrap().to_string(),
        "BTC-USD"
    );
    let listed = vec![
        ConcreteInstrument {
            display_name: "BTC/USD".to_string(),
        },
        ConcreteInstrument {
            display_name: "ETH-EUR".to_string(),
        },
    ];
    let general = Coinbase::public_instruments_response(&listed).unwrap();
    assert_eq!(general.len(), 2);
    assert_eq!(general[0].instrument_id.to_string(), "BTC-USD");
    assert_eq!(general[1].instrument_id.to_string(), "ETH-EUR");
    assert_eq!(general[1].instrument_type, InstrumentType::Spot);
    let listed = vec![ConcreteInstrument {
        display_name: "BTCUSD".to_string(),
    }];
    assert!(matches!(
        Coinbase::public_instruments_response(&listed),
        Err(ExchangeErrors::UnsupportedPairFormat)
    ));
}

#[test]
fn empty_side_of_the_book_is_refused() {
    let book = OrderBook {
        sequence: 1,
        bids: vec![BidAsk {
            price: quantity(9.0),
            size: quantity(1.0),
        }],
        asks: vec![],
    };
    assert!(matches!(
        ExchangeImpl::depth_levels(book, OrderSide::Buy),
        Err(ExchangeErrors::MissingOrderbook)
    ));
    let book = OrderBook {
        sequence: 1,
        bids: vec![BidAsk {
            price: quantity(9.0),
            size: quantity(1.0),
        }],
        asks: vec![],
    };
    let levels = ExchangeImpl::depth_levels(book, OrderSide::Sell).unwrap();
    assert_eq!(levels.len(), 1);
    assert_eq!(levels[0].price, quantity(9.0));

    assert!(matches!(
        Okx::orderbook_response(&vec![]),
        Err(ExchangeErrors::MissingOrderbook)
    ));
    let reported = OkxOrderBook {
        asks: vec![OkxBidAsk {
            price: quantity(10.0),
            size: quantity(2.0),
            deprecated: 0,
            orders_count: 3,
        }],
        bids: vec![],
        timestamp: 77,
    };
    let general = Okx::orderbook_response(&vec![reported]).unwrap();
    assert_eq!(general.sequence, 77);
    assert_eq!(general.asks.len(), 1);
    assert_eq!(general.asks[0].size, quantity(2.0));
}

#[test]
fn only_the_first_exchange_has_indices() {
    let pair = Pair {
        base: "BTC".to_string(),
        quote: "USD".to_string(),
    };
    assert!(matches!(
        ExchangeImpl::new(Exchange::Coinbase).fetch_index_candles(&pair, 0..10, 1),
        Err(ExchangeErrors::MissingIndex)
    ));
    assert!(ExchangeImpl::new(Exchange::Okx)
        .fetch_index_candles(&pair, 0..10, 1)
        .is_ok());
    assert!(matches!(
        ExchangeImpl::new(Exchange::Okx).fetch_index_candles(&pair, u64::MAX..u64::MAX, 1),
        Err(ExchangeErrors::InvalidTimestamps)
    ));
    let wire = ExchangeImpl::new(Exchange::Okx).refresh_instruments(&InstrumentType::Swap);
    assert_eq!(
        wire.url(),
        "https://www.okx.com/api/v5/public/instruments?instType=SWAP"
    );
    let wire = ExchangeImpl::new(Exchange::Coinbase).refresh_instruments(&InstrumentType::Swap);
    assert_eq!(
        wire.url(),
        "https://api-public.sandbox.exchange.coinbase.com/products"
    );
    let wire = ExchangeImpl::new(Exchange::Okx).get_orderbook(&pair).unwrap();
    assert_eq!(
        wire.url(),
        "https://www.okx.com/api/v5/market/books?instId=BTC-USD&sz=50"
    );
}

#[test]
fn words_of_the_exchanges_are_read_back() {
    for side in [OrderSide::Buy, OrderSide::Sell] {
        assert_eq!(OrderSide::from_str(&side.to_string()), Ok(side));
        assert_eq!(OrderSide::from_code(side.to_code()), Some(side));
    }
    for mode in [
        TradeMode::Cross,
        TradeMode::Isolated,
        TradeMode::Cash,
        TradeMode::SpotIsolated,
    ] {
        assert_eq!(TradeMode::from_str(&mode.to_string()), Ok(mode));
        assert_eq!(Okx::trade_mode_string(mode), mode.to_string());
    }
    for kind in [
        OrderType::Market,
        OrderType::Limit,
        OrderType::PostOnly,
        OrderType::Fok,
        OrderType::Ioc,
    ] {
        assert_eq!(OrderType::from_str(&kind.to_string()), Ok(kind));
        assert_eq!(Okx::order_type_string(kind), kind.to_string());
    }
    for state in [
        OrderState::Pending,
        OrderState::Done,
        OrderState::Canceled,
        OrderState::Filled,
        OrderState::MmpCanceled,
        OrderState::Live,
        OrderState::PartiallyFilled,
    ] {
        assert_eq!(OrderState::from_str(&state.to_string()), Ok(state));
    }
    for status in [
        OrderStatus::Open,
        OrderStatus::Pending,
        OrderStatus::Rejected,
        OrderStatus::Done,
        OrderStatus::Active,
        OrderStatus::Received,
        OrderStatus::All,
    ] {
        assert_eq!(OrderStatus::from_str(&status.to_string()), Ok(status));
    }
    assert_eq!(Okx::side_string(OrderSide::Sell), "sell");
    assert_eq!(OrderType::PostOnly.to_string(), "post_only");
    assert_eq!(
        OrderSide::from_str("hold"),
        Err("Unknown order side: hold".to_string())
    );
    assert_eq!(
        TradeMode::from_str(""),
        Err("Unknown trade mode: ".to_string())
    );
    assert_eq!(
        OrderState::from_str("gone"),
        Err("Unknown order state".to_string())
    );
    assert_eq!(
        Okx::instrument_id(&Pair {
            base: "btc".to_string(),
            quote: "usdt".to_string()
        }),
        Some("BTC-USDT".to_string())
    );
}

#[test]
fn coinbase_orders_are_listed_by_state() {
    let order = |id: &str, status: OrderStatus| Order {
        id: id.to_string(),
        price: None,
        size: None,
        funds: Some(quantity(5.0)),
        product_id: "BTC-USD".to_string(),
        side: OrderSide::Buy,
        order_type: None,
        time_in_force: Some("GTC".to_string()),
        filled_size: quantity(0.5),
        status,
    };
    let reported = vec![
        order("1", OrderStatus::Open),
        order("2", OrderStatus::Done),
        order("3", OrderStatus::Pending),
        order("4", OrderStatus::Rejected),
        order("5", OrderStatus::Active),
    ];
    let request = |pending: bool| GeneralOrdersListRequest {
        instrument_type: InstrumentType::Spot,
        instrument_id: Pair {
            base: "BTC".to_string(),
            quote: "USD".to_string(),
        },
        pending,
    };
    match Coinbase::orders_response(&request(true), &reported) {
        trendlens_backend::request_store::request::Response::OrdersInfo(all) => {
            let ids: Vec<&str> = all.iter().map(|o| o.order_id.as_str()).collect();
            assert_eq!(ids, vec!["1", "3"]);
            assert_eq!(all[0].instrument_type, "SPOT");
            assert_eq!(all[0].price, Quantity { bits: 0 });
            assert_eq!(all[0].size, quantity(5.0));
            assert_eq!(all[0].side, "buy");
            assert_eq!(all[0].order_type, "");
            assert_eq!(all[0].trade_mode, "GTC");
            assert_eq!(all[0].accumulated_fill_quantity, quantity(0.5));
            assert_eq!(all[0].state, "open");
            assert_eq!(all[1].state, "pending");
        }
        _ => panic!("orders were expected"),
    }
    match Coinbase::orders_response(&request(false), &reported) {
        trendlens_backend::request_store::request::Response::OrdersInfo(all) => {
            let ids: Vec<&str> = all.iter().map(|o| o.order_id.as_str()).collect();
            assert_eq!(ids, vec!["2", "4"]);
        }
        _ => panic!("orders were expected"),
    }
}

#[test]
fn envelope_gives_its_payload() {
    let answer = ApiResponse {
        code: 0,
        msg: "success".to_string(),
        data: vec![1u8, 2, 3],
    };
    assert_eq!(answer.extract_response().unwrap(), vec![1, 2, 3]);
}

#[test]
fn request_fills_its_own_path() {
    let order = PlaceOrderBody {
        instrument_id: "BTC-USD".to_string(),
        trade_mode: "cash".to_string(),
        margin_currency: None,
        client_order_id: None,
        order_tag: Some("t".to_string()),
        side: "buy".to_string(),
        position_side: None,
        order_type: "market".to_string(),
        size: "1".to_string(),
        order_price: None,
    };
    assert_eq!(order.get_path("/{instId}/{side}/{px}"), "/BTC-USD/buy/{px}");
    assert_eq!(
        order.to_wire().to_body(),
        r#"{"instId":"BTC-USD","tdMode":"cash","tag":"t","side":"buy","ordType":"market","sz":"1"}"#
    );
    assert_eq!(
        Okx::default().get_signature_data(GetBalanceRequest {
            currencies: Some("a b&c".to_string())
        }),
        "GET/api/v5/account/balance?ccy=a+b%26c"
    );
}
