use indexer_client::constants::{
    OrderSide, OrderStatus, OrderTimeInForce, OrderType, PerpetualPositionStatus, TickerType,
    TimePeriod,
};
use indexer_client::indexer_client::{IndexerClient, IndexerConfig};
use indexer_client::indexer_client_types::PositionDetailsRequest;

fn client() -> IndexerClient {
    let config = IndexerConfig::new(
        "https://indexer.example.com/".to_string(),
        "wss://indexer.example.com/v4/ws".to_string(),
    );
    IndexerClient::new(config, None).unwrap()
}

#[test]
fn construction_normalizes_host() {
    let c = client();
    assert_eq!(c.host(), "https://indexer.example.com");
    assert_eq!(c.api_timeout_millis(), 3000);
}

#[test]
fn construction_rejects_non_url() {
    let config = IndexerConfig::new("not a url".to_string(), "ws".to_string());
    let e = IndexerClient::new(config, None).unwrap_err();
    assert_eq!(e.message(), "Provided api host is not a url: not a url");
}

#[test]
fn config_keeps_both_endpoints() {
    let config = IndexerConfig::new("https://a.example.com".to_string(), "wss://b.example.com".to_string());
    assert_eq!(config.rest_endpoint(), "https://a.example.com");
    assert_eq!(config.websocket_endpoint(), "wss://b.example.com");
}

#[test]
fn sub_account_url_has_path_and_no_query() {
    let url = client().get_sub_account_url("dydx1abc".to_string(), 5).unwrap();
    assert_eq!(url, "https://indexer.example.com/v4/addresses/dydx1abc/subaccountNumber/5");
    assert!(!url.contains('?'));
}

#[test]
fn sub_accounts_url_with_and_without_limit() {
    let c = client();
    let url = c.get_sub_accounts_url("dydx1abc".to_string(), Some(7)).unwrap();
    assert_eq!(url, "https://indexer.example.com/v4/addresses/dydx1abc?limit=7");
    let bare = c.get_sub_accounts_url("dydx1abc".to_string(), None).unwrap();
    assert_eq!(bare, "https://indexer.example.com/v4/addresses/dydx1abc");
}

#[test]
fn orders_url_encodes_present_filters_only() {
    let url = client()
        .get_sub_account_orders_url(
            "dydx1abc".to_string(),
            5,
            None,
            TickerType::PERPETUAL,
            None,
            None,
            None,
            Some(10),
            None,
            None,
            None,
        )
        .unwrap();
    assert_eq!(
        url,
        "https://indexer.example.com/v4/orders?address=dydx1abc&subAccountNumber=5&tickerType=PERPETUAL&limit=10"
    );
    assert!(url.contains("address=dydx1abc&subAccountNumber=5"));
    assert!(url.contains("limit=10"));
    assert!(!url.contains("side="));
}

#[test]
fn orders_url_with_every_filter_present() {
    let url = client()
        .get_sub_account_orders_url(
            "dydx1abc".to_string(),
            0,
            Some("BTC-USD".to_string()),
            TickerType::PERPETUAL,
            Some(OrderSide::SELL),
            Some(OrderStatus::BestEffortOpened),
            Some(OrderType::StopLimit),
            Some(1),
            Some(123456789012345),
            Some("2024-05-01T00:00:00Z".to_string()),
            Some(true),
        )
        .unwrap();
    assert_eq!(
        url,
        "https://indexer.example.com/v4/orders?address=dydx1abc&subAccountNumber=0&ticker=BTC-USD&tickerType=PERPETUAL&side=SELL&status=BEST_EFFORT_OPENED&orderType=STOP_LIMIT&limit=1&goodTilBlockBeforeOrAt=123456789012345&goodTilBlockTimeBeforeOrAt=2024-05-01T00:00:00Z&returnLatestOrders=true"
    );
}

#[test]
fn order_url_uses_identifier_in_path() {
    let url = client().get_order_url("order-17".to_string()).unwrap();
    assert_eq!(url, "https://indexer.example.com/v4/orders/order-17");
}

#[test]
fn transfers_url_mixes_present_and_absent() {
    let url = client()
        .get_sub_account_transfers_url(
            "dydx1abc".to_string(),
            5,
            None,
            Some(400),
            None,
        )
        .unwrap();
    assert_eq!(
        url,
        "https://indexer.example.com/v4/transfers?address=dydx1abc&subAccountNumber=5&createdBeforeOrAtHeight=400"
    );
}

#[test]
fn fills_url_encodes_filters() {
    let url = client()
        .get_sub_account_fills_url(
            "dydx1abc".to_string(),
            5,
            Some("ETH-USD".to_string()),
            TickerType::PERPETUAL,
            Some(3),
            None,
            Some("2024-05-01T00:00:00Z".to_string()),
        )
        .unwrap();
    assert_eq!(
        url,
        "https://indexer.example.com/v4/fills?address=dydx1abc&subAccountNumber=5&ticker=ETH-USD&tickerType=PERPETUAL&limit=3&createdBeforeOrAt=2024-05-01T00:00:00Z"
    );
}

#[test]
fn historical_pnls_url_encodes_bounds() {
    let url = client()
        .get_sub_account_historical_pnls_url(
            "dydx1abc".to_string(),
            5,
            Some("2024-06-01T00:00:00Z".to_string()),
            None,
        )
        .unwrap();
    assert_eq!(
        url,
        "https://indexer.example.com/v4/historical-pnl?address=dydx1abc&subAccountNumber=5&effectiveBeforeOrAt=2024-06-01T00:00:00Z"
    );
}

#[test]
fn position_request_orders_its_pairs() {
    let request = PositionDetailsRequest {
        address: "dydx1abc".to_string(),
        sub_account_number: 5,
        status: Some(PerpetualPositionStatus::OPEN),
        limit: Some(2),
        create_before_or_at_height: None,
        create_before_or_at: Some("2024-05-01T00:00:00Z".to_string()),
    };
    let pairs = request.to_params();
    let keys: Vec<&str> = pairs.iter().map(|p| p.key.as_str()).collect();
    assert_eq!(keys, vec!["address", "subAccountNumber", "status", "limit", "createdBeforeOrAt"]);
    assert_eq!(pairs[2].value.as_deref(), Some("OPEN"));
    assert_eq!(pairs[3].value.as_deref(), Some("2"));
}

#[test]
fn perpetual_positions_url_from_request() {
    let request = PositionDetailsRequest {
        address: "dydx1abc".to_string(),
        sub_account_number: 5,
        status: None,
        limit: None,
        create_before_or_at_height: None,
        create_before_or_at: None,
    };
    let url = client().get_sub_account_perpetual_positions_url(&request).unwrap();
    assert_eq!(
        url,
        "https://indexer.example.com/v4/perpetualPositions?address=dydx1abc&subAccountNumber=5"
    );
}

#[test]
fn asset_positions_url_from_request() {
    let request = PositionDetailsRequest {
        address: "dydx1abc".to_string(),
        sub_account_number: 0,
        status: None,
        limit: Some(9),
        create_before_or_at_height: Some(77),
        create_before_or_at: None,
    };
    let url = client().get_sub_account_asset_positions_url(&request).unwrap();
    assert_eq!(
        url,
        "https://indexer.example.com/v4/assetPositions?address=dydx1abc&subAccountNumber=0&limit=9&createdBeforeOrAtHeight=77"
    );
}

#[test]
fn perpetual_markets_url_without_filter_has_no_query() {
    let url = client().get_perpetual_markets_url(None).unwrap();
    assert_eq!(url, "https://indexer.example.com/v4/perpetualMarkets");
    let one = client().get_perpetual_markets_url(Some("BTC-USD".to_string())).unwrap();
    assert_eq!(one, "https://indexer.example.com/v4/perpetualMarkets?market=BTC-USD");
}

#[test]
fn orderbook_url_uses_market_in_path() {
    let url = client().get_perpetual_market_orderbook_url("BTC-USD".to_string()).unwrap();
    assert_eq!(url, "https://indexer.example.com/v4/orderbooks/perpetualMarket/BTC-USD");
}

#[test]
fn trades_url_encodes_filters() {
    let url = client()
        .get_perpetual_market_trades_url("BTC-USD".to_string(), Some(800), Some(4))
        .unwrap();
    assert_eq!(
        url,
        "https://indexer.example.com/v4/trades/perpetualMarket/BTC-USD?createdBeforeOrAtHeight=800&limit=4"
    );
}

#[test]
fn candles_url_uses_literal_iso_keys() {
    let url = client()
        .get_perpetual_market_candles_url(
            "BTC-USD".to_string(),
            "1HOUR".to_string(),
            Some("2024-05-01T00:00:00Z".to_string()),
            None,
            Some(12),
        )
        .unwrap();
    assert_eq!(
        url,
        "https://indexer.example.com/v4/candles/perpetualMarket/BTC-USD?resolution=1HOUR&fromISO=2024-05-01T00:00:00Z&limit=12"
    );
    assert!(!url.contains("toISO="));
}

#[test]
fn historical_funding_url_encodes_filters() {
    let url = client()
        .get_perpetual_market_historical_funding_url(
            "ETH-USD".to_string(),
            None,
            Some(900),
            None,
        )
        .unwrap();
    assert_eq!(
        url,
        "https://indexer.example.com/v4/historicalFunding/ETH-USD?effectiveBeforeOrAtHeight=900"
    );
}

#[test]
fn sparklines_url_encodes_time_period() {
    let one_day = client().get_perpetual_market_sparklines_url(TimePeriod::OneDay).unwrap();
    assert_eq!(one_day, "https://indexer.example.com/v4/sparklines?timePeriod=ONE_DAY");
    let seven = client().get_perpetual_market_sparklines_url(TimePeriod::SevenDays).unwrap();
    assert_eq!(seven, "https://indexer.example.com/v4/sparklines?timePeriod=SEVEN_DAYS");
}

#[test]
fn enum_wire_values_are_exact() {
    assert_eq!(TickerType::PERPETUAL.to_string(), "PERPETUAL");
    assert_eq!(PerpetualPositionStatus::OPEN.to_string(), "OPEN");
    assert_eq!(PerpetualPositionStatus::CLOSED.to_string(), "CLOSED");
    assert_eq!(PerpetualPositionStatus::LIQUIDATED.to_string(), "LIQUIDATED");
    assert_eq!(OrderStatus::BestEffortOpened.to_string(), "BEST_EFFORT_OPENED");
    assert_eq!(OrderStatus::Open.to_string(), "OPEN");
    assert_eq!(OrderStatus::Filled.to_string(), "FILLED");
    assert_eq!(OrderStatus::BestEffortCanceled.to_string(), "BEST_EFFORT_CANCELED");
    assert_eq!(OrderStatus::Canceled.to_string(), "CANCELED");
    assert_eq!(OrderStatus::Untriggered.to_string(), "UNTRIGGERED");
    assert_eq!(OrderSide::BUY.to_string(), "BUY");
    assert_eq!(OrderSide::SELL.to_string(), "SELL");
    assert_eq!(OrderType::Limit.to_string(), "LIMIT");
    assert_eq!(OrderType::Market.to_string(), "MARKET");
    assert_eq!(OrderType::StopLimit.to_string(), "STOP_LIMIT");
    assert_eq!(OrderType::TakeProfitLimit.to_string(), "TAKE_PROFIT_LIMIT");
    assert_eq!(OrderType::StopMarket.to_string(), "STOP_MARKET");
    assert_eq!(OrderType::TakeProfitMarket.to_string(), "TAKE_PROFIT_MARKET");
    assert_eq!(OrderTimeInForce::GIT.to_string(), "GIT");
    assert_eq!(OrderTimeInForce::IOC.to_string(), "IOC");
    assert_eq!(OrderTimeInForce::FOK.to_string(), "FOK");
}
