use trendlens_backend::pair::Pair;
use trendlens_backend::remote_exchanges::coinbase::request::{
    GetProductCandles, OrderType, OrdersRequest, PostOrderBody, Statuses,
};
use trendlens_backend::remote_exchanges::okx::api::IndexCandleStickRequest;
use trendlens_backend::remote_exchanges::okx::Okx;
use trendlens_backend::remote_exchanges::request::OrderSide;
use trendlens_backend::remote_exchanges::{ApiRequest, Field, HttpMethod, WireRequest};

#[test]
fn test_okx_interval_string() {
    assert_eq!(Okx::interval_string(0), "1m");
    assert_eq!(Okx::interval_string(1), "1m");
    assert_eq!(Okx::interval_string(2), "3m");
    assert_eq!(Okx::interval_string(3), "3m");
    assert_eq!(Okx::interval_string(4), "5m");
    assert_eq!(Okx::interval_string(5), "5m");
    assert_eq!(Okx::interval_string(50), "5m");
    assert_eq!(Okx::interval_string(u32::MAX), "5m");
}

#[test]
fn test_conversion_success() {
    assert_eq!(
        Pair::from_str("btc_usd").unwrap(),
        Pair {
            base: "BTC".to_string(),
            quote: "USD".to_string()
        }
    );
    assert_eq!(
        Pair::from_str("btc.usd").unwrap(),
        Pair {
            base: "BTC".to_string(),
            quote: "USD".to_string()
        }
    );
    assert_eq!(
        Pair::from_str("btc-usdt").unwrap(),
        Pair {
            base: "BTC".to_string(),
            quote: "USDT".to_string()
        }
    );
    assert_eq!(
        Pair::from_str("btc.usdt").unwrap(),
        Pair {
            base: "BTC".to_string(),
            quote: "USDT".to_string()
        }
    );
}

#[test]
fn test_serialize_post_order_body() {
    let post_order_body = PostOrderBody {
        product_id: "BTC-USD".to_string(),
        size: Some(0.01.to_string()),
        price: Some(10000.0.to_string()),
        funds: None,
        order_type: OrderType::Limit,
        side: OrderSide::Buy,
    };

    let serialized = post_order_body.to_wire().to_query_string();
    assert_eq!(
        serialized,
        "product_id=BTC-USD&size=0.01&price=10000&type=limit&side=buy"
    );

    let post_order_body = PostOrderBody {
        product_id: "BTC-USD".to_string(),
        size: None,
        price: Some(10000.0.to_string()),
        funds: None,
        order_type: OrderType::Limit,
        side: OrderSide::Buy,
    };

    let serialized = post_order_body.to_wire().to_query_string();
    assert_eq!(
        serialized,
        "product_id=BTC-USD&price=10000&type=limit&side=buy"
    );
}

#[test]
fn test_serialize_statuses() {
    let statuses = Statuses(vec!["open".to_string(), "pending".to_string()]);
    let mut request = WireRequest::new(HttpMethod::GET, "test.com", "orders", false);
    statuses.write_fields(&mut request.query);
    let serialized = request.to_query_string();

    assert_eq!(serialized, "status=open&status=pending");
}

#[test]
fn test_serialize_statuses_empty() {
    let order_list_request = OrdersRequest {
        product_id: None,
        market_type: None,
        limit: 10,
        status: Some(Statuses(vec!["open".to_string(), "pending".to_string()])),
    };

    let serialized = order_list_request.to_wire().to_query_string();
    assert_eq!(serialized, "limit=10&status=open&status=pending");
}

#[test]
fn test_serialize_candles() {
    let get_product_candles = GetProductCandles {
        product_id: "BTC-USD".to_string(),
        granularity: Some("60".to_string()),
        start: Some("2021-01-01T00:00:00Z".to_string()),
        end: Some("2021-01-02T00:00:00Z".to_string()),
    };

    let serialized = get_product_candles.to_wire().to_query_string();
    assert_eq!(
        serialized,
        "granularity=60&start=2021-01-01T00%3A00%3A00Z&end=2021-01-02T00%3A00%3A00Z"
    );

    let serialized = get_product_candles.to_wire().to_body();

    assert_eq!(
        serialized,
        r#"{"granularity":"60","start":"2021-01-01T00:00:00Z","end":"2021-01-02T00:00:00Z","product_id":"BTC-USD"}"#
    );
}

#[test]
fn test_serialize_to_path() {
    let mut request = WireRequest::new(HttpMethod::GET, "test.com", "/test/{product_id}/{name}", false);
    request.named.push(Field::new("product_id", "123"));
    request.named.push(Field::new("name", "test"));

    let path = request.get_path("/test/{product_id}/{name}");
    assert_eq!(path, "/test/123/test");
}

#[test]
fn test_api_request() {
    let request = IndexCandleStickRequest {
        index_name: "BTC-USD".to_string(),
        after_timestamp: None,
        before_timestamp: None,
        bar_size: None,
        results_limit: None,
    }
    .to_wire();

    assert_eq!(request.host, "www.okx.com");

    assert_eq!(request.uri, "api/v5/market/index-candles");

    assert_eq!(request.method, HttpMethod::GET);
}

#[test]
fn test_query_string_full() {
    let request = IndexCandleStickRequest {
        index_name: "BTC-USD".to_string(),
        after_timestamp: Some(1),
        before_timestamp: Some(2),
        bar_size: Some("1m".to_string()),
        results_limit: Some(1),
    };

    let query_string = request.to_wire().to_query_string();

    assert_eq!(
        query_string,
        "instId=BTC-USD&after=1&before=2&bar=1m&limit=1"
    );
}

#[test]
fn test_query_string_missing() {
    let request = IndexCandleStickRequest {
        index_name: "BTC-USD".to_string(),
        after_timestamp: None,
        before_timestamp: None,
        bar_size: None,
        results_limit: None,
    };

    let query_string = request.to_wire().to_query_string();

    assert_eq!(query_string, "instId=BTC-USD");
}
