use crate::camel::camel_case_of;
use crate::constants::TickerType;
use crate::constants::TimePeriod;
use crate::constants::ticker_type_str;
use crate::constants::time_period_str;
use crate::errors::APIError;
use crate::errors::ConstructorError;
use crate::indexer_client_types::PositionDetailsRequest;
use crate::indexer_client_types::position_params_of;
use crate::constants::OrderSide;
use crate::constants::OrderStatus;
use crate::constants::OrderType;
use crate::constants::opt_order_side_str;
use crate::constants::opt_order_side_value;
use crate::constants::opt_order_status_str;
use crate::constants::opt_order_status_value;
use crate::constants::opt_order_type_str;
use crate::constants::opt_order_type_value;
use crate::params::ParamPair;
use crate::params::opt_str_view;
use crate::params::optional_param;
use crate::params::query_string_of;
use crate::params::required_param;
use crate::params::views_of;
use crate::render::dec_of;
use crate::render::opt_bool_str_of;
use crate::render::opt_bool_to_str;
use crate::render::opt_dec_of_u32;
use crate::render::opt_dec_of_u64;
use crate::render::opt_u32_to_dec;
use crate::render::opt_u64_to_dec;
use crate::render::u64_to_dec;
use crate::rest::DEFAULT_TIMEOUT_MILLIS;
use crate::rest::RestHandler;
use crate::rest::bad_host_msg;
use crate::rest::normalized_host;
use crate::rest::request_url_outcome;
use crate::rest::url_of;
use crate::rest::url_ok;
use vstd::prelude::*;

verus! {

/// The two endpoints a client is pointed at: the REST endpoint this library
/// issues requests against, and the companion real-time endpoint, which is
/// carried but not used here.
#[derive(Clone, Debug)]
pub struct IndexerConfig {
    rest_endpoint: String,
    websocket_endpoint: String,
}

impl IndexerConfig {
    /// The REST endpoint, as given (not yet normalized or validated).
    pub closed spec fn spec_rest_endpoint(&self) -> Seq<char> {
        self.rest_endpoint@
    }

    /// The companion real-time endpoint, as given.
    pub closed spec fn spec_websocket_endpoint(&self) -> Seq<char> {
        self.websocket_endpoint@
    }

    pub fn new(rest_endpoint: String, websocket_endpoint: String) -> (c: Self)
        ensures
            c.spec_rest_endpoint() == rest_endpoint@,
            c.spec_websocket_endpoint() == websocket_endpoint@,
    {
        IndexerConfig { rest_endpoint, websocket_endpoint }
    }

    /// The REST endpoint as a string slice.
    pub fn rest_endpoint(&self) -> (r: &str)
        ensures
            r@ == self.spec_rest_endpoint(),
    {
        self.rest_endpoint.as_str()
    }

    /// The companion real-time endpoint as a string slice.
    pub fn websocket_endpoint(&self) -> (r: &str)
        ensures
            r@ == self.spec_websocket_endpoint(),
    {
        self.websocket_endpoint.as_str()
    }
}

/// The single object application code depends on: the configuration and the
/// request engine built from its validated REST endpoint. Each domain
/// accessor maps its fixed path template and parameter list through the
/// engine, which builds and validates the request URL.
#[derive(Debug)]
pub struct IndexerClient {
    indexer_config: IndexerConfig,
    api_timeout: u32,
    req_handler: RestHandler,
}

impl IndexerClient {
    /// The validated host every request URL starts with.
    pub closed spec fn spec_host(&self) -> Seq<char> {
        self.req_handler.spec_host()
    }

    /// The per-call timeout in milliseconds.
    pub closed spec fn spec_api_timeout(&self) -> u32 {
        self.api_timeout
    }

    /// The client's invariant: its engine holds a validated host.
    pub closed spec fn wf(&self) -> bool {
        self.req_handler.wf()
    }

    /// Build a client over a configuration: normalize and validate the REST
    /// endpoint, and fail with a `ConstructorError` -- producing no client
    /// -- when it is not a well-formed URL.
    pub fn new(indexer_config: IndexerConfig, api_timeout: Option<u32>) -> (r: Result<
        IndexerClient,
        ConstructorError,
    >)
        ensures
            match r {
                Result::Ok(c) => {
                    &&& url_ok(normalized_host(indexer_config.spec_rest_endpoint()))
                    &&& c.wf()
                    &&& c.spec_host() == normalized_host(indexer_config.spec_rest_endpoint())
                    &&& c.spec_api_timeout() == (match api_timeout {
                        Option::Some(t) => t,
                        Option::None => DEFAULT_TIMEOUT_MILLIS,
                    })
                },
                Result::Err(e) => {
                    &&& !url_ok(normalized_host(indexer_config.spec_rest_endpoint()))
                    &&& e.spec_message() == bad_host_msg(
                        normalized_host(indexer_config.spec_rest_endpoint()),
                    )
                },
            },
    {
        let req_handler = match RestHandler::new(indexer_config.rest_endpoint.clone(), None) {
            Ok(h) => h,
            Err(e) => {
                return Err(e);
            },
        };
        let api_timeout = match api_timeout {
            Some(t) => t,
            None => DEFAULT_TIMEOUT_MILLIS,
        };
        Ok(IndexerClient { indexer_config, api_timeout, req_handler })
    }

    /// The validated host as a string slice.
    pub fn host(&self) -> (h: &str)
        ensures
            h@ == self.spec_host(),
    {
        self.req_handler.host()
    }

    /// The per-call timeout in milliseconds.
    pub fn api_timeout_millis(&self) -> (t: u32)
        ensures
            t == self.spec_api_timeout(),
    {
        self.api_timeout
    }

    /// The URL listing the sub-accounts under an address.
    pub fn get_sub_accounts_url(&self, address: String, limit: Option<u32>) -> (r: Result<
        String,
        APIError,
    >)
        ensures
            request_url_outcome(
                url_of(
                    self.spec_host(),
                    "/v4/addresses/"@ + address@,
                    query_string_of(seq![(camel_case_of("limit"@), opt_dec_of_u32(limit))]),
                ),
                r,
            ),
    {
        let mut path = String::from_str("/v4/addresses/");
        path.append(address.as_str());
        let mut params: Vec<ParamPair> = Vec::new();
        params.push(optional_param("limit", opt_u32_to_dec(limit)));
        proof {
            assert(views_of(params@) =~= seq![
                (camel_case_of("limit"@), opt_dec_of_u32(limit)),
            ]);
        }
        self.req_handler.get_url(path, Some(params))
    }

    /// The URL of one numbered sub-account under an address.
    pub fn get_sub_account_url(&self, address: String, sub_account_number: u32) -> (r: Result<
        String,
        APIError,
    >)
        ensures
            request_url_outcome(
                url_of(
                    self.spec_host(),
                    "/v4/addresses/"@ + address@ + "/subaccountNumber/"@ + dec_of(
                        sub_account_number as nat,
                    ),
                    Seq::empty(),
                ),
                r,
            ),
    {
        let mut path = String::from_str("/v4/addresses/");
        path.append(address.as_str());
        path.append("/subaccountNumber/");
        let number = u64_to_dec(sub_account_number as u64);
        path.append(number.as_str());
        self.req_handler.get_url(path, None)
    }

    /// The URL of a perpetual-position query.
    pub fn get_sub_account_perpetual_positions_url(&self, request: &PositionDetailsRequest) -> (r:
        Result<String, APIError>)
        ensures
            request_url_outcome(
                url_of(
                    self.spec_host(),
                    "/v4/perpetualPositions"@,
                    query_string_of(position_params_of(*request)),
                ),
                r,
            ),
    {
        self.req_handler.get_url(String::from_str("/v4/perpetualPositions"), Some(request.to_params()))
    }

    /// The URL of an asset-position query.
    pub fn get_sub_account_asset_positions_url(&self, request: &PositionDetailsRequest) -> (r:
        Result<String, APIError>)
        ensures
            request_url_outcome(
                url_of(
                    self.spec_host(),
                    "/v4/assetPositions"@,
                    query_string_of(position_params_of(*request)),
                ),
                r,
            ),
    {
        self.req_handler.get_url(String::from_str("/v4/assetPositions"), Some(request.to_params()))
    }

    /// The URL of a transfer query for one sub-account.
    pub fn get_sub_account_transfers_url(
        &self,
        address: String,
        sub_account_number: u32,
        limit: Option<u32>,
        created_before_or_at_height: Option<u32>,
        created_before_or_at: Option<String>,
    ) -> (r: Result<String, APIError>)
        ensures
            request_url_outcome(
                url_of(
                    self.spec_host(),
                    "/v4/transfers"@,
                    query_string_of(
                        seq![
                            (camel_case_of("address"@), Option::Some(address@)),
                            (
                                camel_case_of("sub_account_number"@),
                                Option::Some(dec_of(sub_account_number as nat)),
                            ),
                            (camel_case_of("limit"@), opt_dec_of_u32(limit)),
                            (
                                camel_case_of("created_before_or_at_height"@),
                                opt_dec_of_u32(created_before_or_at_height),
                            ),
                            (
                                camel_case_of("created_before_or_at"@),
                                opt_str_view(created_before_or_at),
                            ),
                        ],
                    ),
                ),
                r,
            ),
    {
        let mut params: Vec<ParamPair> = Vec::new();
        params.push(required_param("address", address));
        params.push(required_param("sub_account_number", u64_to_dec(sub_account_number as u64)));
        params.push(optional_param("limit", opt_u32_to_dec(limit)));
        params.push(
            optional_param("created_before_or_at_height", opt_u32_to_dec(created_before_or_at_height)),
        );
        params.push(optional_param("created_before_or_at", created_before_or_at));
        proof {
            assert(views_of(params@) =~= seq![
                (camel_case_of("address"@), Option::Some(address@)),
                (
                    camel_case_of("sub_account_number"@),
                    Option::Some(dec_of(sub_account_number as nat)),
                ),
                (camel_case_of("limit"@), opt_dec_of_u32(limit)),
                (
                    camel_case_of("created_before_or_at_height"@),
                    opt_dec_of_u32(created_before_or_at_height),
                ),
                (camel_case_of("created_before_or_at"@), opt_str_view(created_before_or_at)),
            ]);
        }
        self.req_handler.get_url(String::from_str("/v4/transfers"), Some(params))
    }

    /// The URL of an order query for one sub-account, under every supported
    /// filter.
    pub fn get_sub_account_orders_url(
        &self,
        address: String,
        sub_account_number: u32,
        ticker: Option<String>,
        ticker_type: TickerType,
        side: Option<OrderSide>,
        status: Option<OrderStatus>,
        order_type: Option<OrderType>,
        limit: Option<u32>,
        good_til_block_before_or_at: Option<u64>,
        good_til_block_time_before_or_at: Option<String>,
        return_latest_orders: Option<bool>,
    ) -> (r: Result<String, APIError>)
        ensures
            request_url_outcome(
                url_of(
                    self.spec_host(),
                    "/v4/orders"@,
                    query_string_of(
                        seq![
                            (camel_case_of("address"@), Option::Some(address@)),
                            (
                                camel_case_of("sub_account_number"@),
                                Option::Some(dec_of(sub_account_number as nat)),
                            ),
                            (camel_case_of("ticker"@), opt_str_view(ticker)),
                            (camel_case_of("ticker_type"@), Option::Some(ticker_type_str(ticker_type))),
                            (camel_case_of("side"@), opt_order_side_str(side)),
                            (camel_case_of("status"@), opt_order_status_str(status)),
                            (camel_case_of("order_type"@), opt_order_type_str(order_type)),
                            (camel_case_of("limit"@), opt_dec_of_u32(limit)),
                            (
                                camel_case_of("good_til_block_before_or_at"@),
                                opt_dec_of_u64(good_til_block_before_or_at),
                            ),
                            (
                                camel_case_of("good_til_block_time_before_or_at"@),
                                opt_str_view(good_til_block_time_before_or_at),
                            ),
                            (
                                camel_case_of("return_latest_orders"@),
                                opt_bool_str_of(return_latest_orders),
                            ),
                        ],
                    ),
                ),
                r,
            ),
    {
        let mut params: Vec<ParamPair> = Vec::new();
        params.push(required_param("address", address));
        params.push(required_param("sub_account_number", u64_to_dec(sub_account_number as u64)));
        params.push(optional_param("ticker", ticker));
        params.push(required_param("ticker_type", ticker_type.to_string()));
        params.push(optional_param("side", opt_order_side_value(side)));
        params.push(optional_param("status", opt_order_status_value(status)));
        params.push(optional_param("order_type", opt_order_type_value(order_type)));
        params.push(optional_param("limit", opt_u32_to_dec(limit)));
        params.push(
            optional_param("good_til_block_before_or_at", opt_u64_to_dec(good_til_block_before_or_at)),
        );
        params.push(
            optional_param("good_til_block_time_before_or_at", good_til_block_time_before_or_at),
        );
        params.push(optional_param("return_latest_orders", opt_bool_to_str(return_latest_orders)));
        proof {
            assert(views_of(params@) =~= seq![
                (camel_case_of("address"@), Option::Some(address@)),
                (
                    camel_case_of("sub_account_number"@),
                    Option::Some(dec_of(sub_account_number as nat)),
                ),
                (camel_case_of("ticker"@), opt_str_view(ticker)),
                (camel_case_of("ticker_type"@), Option::Some(ticker_type_str(ticker_type))),
                (camel_case_of("side"@), opt_order_side_str(side)),
                (camel_case_of("status"@), opt_order_status_str(status)),
                (camel_case_of("order_type"@), opt_order_type_str(order_type)),
                (camel_case_of("limit"@), opt_dec_of_u32(limit)),
                (
                    camel_case_of("good_til_block_before_or_at"@),
                    opt_dec_of_u64(good_til_block_before_or_at),
                ),
                (
                    camel_case_of("good_til_block_time_before_or_at"@),
                    opt_str_view(good_til_block_time_before_or_at),
                ),
                (camel_case_of("return_latest_orders"@), opt_bool_str_of(return_latest_orders)),
            ]);
        }
        self.req_handler.get_url(String::from_str("/v4/orders"), Some(params))
    }

    /// The URL of one order by its identifier.
    pub fn get_order_url(&self, order_id: String) -> (r: Result<String, APIError>)
        ensures
            request_url_outcome(
                url_of(self.spec_host(), "/v4/orders/"@ + order_id@, Seq::empty()),
                r,
            ),
    {
        let mut path = String::from_str("/v4/orders/");
        path.append(order_id.as_str());
        self.req_handler.get_url(path, None)
    }

    /// The URL of a fill query for one sub-account.
    pub fn get_sub_account_fills_url(
        &self,
        address: String,
        sub_account_number: u32,
        ticker: Option<String>,
        ticker_type: TickerType,
        limit: Option<u32>,
        created_before_or_at_height: Option<u32>,
        created_before_or_at: Option<String>,
    ) -> (r: Result<String, APIError>)
        ensures
            request_url_outcome(
                url_of(
                    self.spec_host(),
                    "/v4/fills"@,
                    query_string_of(
                        seq![
                            (camel_case_of("address"@), Option::Some(address@)),
                            (
                                camel_case_of("sub_account_number"@),
                                Option::Some(dec_of(sub_account_number as nat)),
                            ),
                            (camel_case_of("ticker"@), opt_str_view(ticker)),
                            (camel_case_of("ticker_type"@), Option::Some(ticker_type_str(ticker_type))),
                            (camel_case_of("limit"@), opt_dec_of_u32(limit)),
                            (
                                camel_case_of("created_before_or_at_height"@),
                                opt_dec_of_u32(created_before_or_at_height),
                            ),
                            (
                                camel_case_of("created_before_or_at"@),
                                opt_str_view(created_before_or_at),
                            ),
                        ],
                    ),
                ),
                r,
            ),
    {
        let mut params: Vec<ParamPair> = Vec::new();
        params.push(required_param("address", address));
        params.push(required_param("sub_account_number", u64_to_dec(sub_account_number as u64)));
        params.push(optional_param("ticker", ticker));
        params.push(required_param("ticker_type", ticker_type.to_string()));
        params.push(optional_param("limit", opt_u32_to_dec(limit)));
        params.push(
            optional_param("created_before_or_at_height", opt_u32_to_dec(created_before_or_at_height)),
        );
        params.push(optional_param("created_before_or_at", created_before_or_at));
        proof {
            assert(views_of(params@) =~= seq![
                (camel_case_of("address"@), Option::Some(address@)),
                (
                    camel_case_of("sub_account_number"@),
                    Option::Some(dec_of(sub_account_number as nat)),
                ),
                (camel_case_of("ticker"@), opt_str_view(ticker)),
                (camel_case_of("ticker_type"@), Option::Some(ticker_type_str(ticker_type))),
                (camel_case_of("limit"@), opt_dec_of_u32(limit)),
                (
                    camel_case_of("created_before_or_at_height"@),
                    opt_dec_of_u32(created_before_or_at_height),
                ),
                (camel_case_of("created_before_or_at"@), opt_str_view(created_before_or_at)),
            ]);
        }
        self.req_handler.get_url(String::from_str("/v4/fills"), Some(params))
    }

    /// The URL of a historical-PnL query for one sub-account.
    pub fn get_sub_account_historical_pnls_url(
        &self,
        address: String,
        sub_account_number: u32,
        effective_before_or_at: Option<String>,
        effective_at_or_after: Option<String>,
    ) -> (r: Result<String, APIError>)
        ensures
            request_url_outcome(
                url_of(
                    self.spec_host(),
                    "/v4/historical-pnl"@,
                    query_string_of(
                        seq![
                            (camel_case_of("address"@), Option::Some(address@)),
                            (
                                camel_case_of("sub_account_number"@),
                                Option::Some(dec_of(sub_account_number as nat)),
                            ),
                            (
                                camel_case_of("effective_before_or_at"@),
                                opt_str_view(effective_before_or_at),
                            ),
                            (
                                camel_case_of("effective_at_or_after"@),
                                opt_str_view(effective_at_or_after),
                            ),
                        ],
                    ),
                ),
                r,
            ),
    {
        let mut params: Vec<ParamPair> = Vec::new();
        params.push(required_param("address", address));
        params.push(required_param("sub_account_number", u64_to_dec(sub_account_number as u64)));
        params.push(optional_param("effective_before_or_at", effective_before_or_at));
        params.push(optional_param("effective_at_or_after", effective_at_or_after));
        proof {
            assert(views_of(params@) =~= seq![
                (camel_case_of("address"@), Option::Some(address@)),
                (
                    camel_case_of("sub_account_number"@),
                    Option::Some(dec_of(sub_account_number as nat)),
                ),
                (camel_case_of("effective_before_or_at"@), opt_str_view(effective_before_or_at)),
                (camel_case_of("effective_at_or_after"@), opt_str_view(effective_at_or_after)),
            ]);
        }
        self.req_handler.get_url(String::from_str("/v4/historical-pnl"), Some(params))
    }

    /// The URL listing perpetual markets, optionally narrowed to one market.
    pub fn get_perpetual_markets_url(&self, market: Option<String>) -> (r: Result<
        String,
        APIError,
    >)
        ensures
            request_url_outcome(
                url_of(
                    self.spec_host(),
                    "/v4/perpetualMarkets"@,
                    query_string_of(seq![(camel_case_of("market"@), opt_str_view(market))]),
                ),
                r,
            ),
    {
        let mut params: Vec<ParamPair> = Vec::new();
        params.push(optional_param("market", market));
        proof {
            assert(views_of(params@) =~= seq![
                (camel_case_of("market"@), opt_str_view(market)),
            ]);
        }
        self.req_handler.get_url(String::from_str("/v4/perpetualMarkets"), Some(params))
    }

    /// The URL of one perpetual market's order book.
    pub fn get_perpetual_market_orderbook_url(&self, market: String) -> (r: Result<
        String,
        APIError,
    >)
        ensures
            request_url_outcome(
                url_of(
                    self.spec_host(),
                    "/v4/orderbooks/perpetualMarket/"@ + market@,
                    Seq::empty(),
                ),
                r,
            ),
    {
        let mut path = String::from_str("/v4/orderbooks/perpetualMarket/");
        path.append(market.as_str());
        self.req_handler.get_url(path, None)
    }

    /// The URL of a trade query for one perpetual market.
    pub fn get_perpetual_market_trades_url(
        &self,
        market: String,
        created_before_or_at_height: Option<u32>,
        limit: Option<u32>,
    ) -> (r: Result<String, APIError>)
        ensures
            request_url_outcome(
                url_of(
                    self.spec_host(),
                    "/v4/trades/perpetualMarket/"@ + market@,
                    query_string_of(
                        seq![
                            (
                                camel_case_of("created_before_or_at_height"@),
                                opt_dec_of_u32(created_before_or_at_height),
                            ),
                            (camel_case_of("limit"@), opt_dec_of_u32(limit)),
                        ],
                    ),
                ),
                r,
            ),
    {
        let mut path = String::from_str("/v4/trades/perpetualMarket/");
        path.append(market.as_str());
        let mut params: Vec<ParamPair> = Vec::new();
        params.push(
            optional_param("created_before_or_at_height", opt_u32_to_dec(created_before_or_at_height)),
        );
        params.push(optional_param("limit", opt_u32_to_dec(limit)));
        proof {
            assert(views_of(params@) =~= seq![
                (
                    camel_case_of("created_before_or_at_height"@),
                    opt_dec_of_u32(created_before_or_at_height),
                ),
                (camel_case_of("limit"@), opt_dec_of_u32(limit)),
            ]);
        }
        self.req_handler.get_url(path, Some(params))
    }

    /// The URL of a candle query for one perpetual market. The interval
    /// bounds go out under their literal wire keys.
    pub fn get_perpetual_market_candles_url(
        &self,
        market: String,
        resolution: String,
        from_iso: Option<String>,
        to_iso: Option<String>,
        limit: Option<u32>,
    ) -> (r: Result<String, APIError>)
        ensures
            request_url_outcome(
                url_of(
                    self.spec_host(),
                    "/v4/candles/perpetualMarket/"@ + market@,
                    query_string_of(
                        seq![
                            (camel_case_of("resolution"@), Option::Some(resolution@)),
                            ("fromISO"@, opt_str_view(from_iso)),
                            ("toISO"@, opt_str_view(to_iso)),
                            (camel_case_of("limit"@), opt_dec_of_u32(limit)),
                        ],
                    ),
                ),
                r,
            ),
    {
        let mut path = String::from_str("/v4/candles/perpetualMarket/");
        path.append(market.as_str());
        let mut params: Vec<ParamPair> = Vec::new();
        params.push(required_param("resolution", resolution));
        params.push(ParamPair { key: String::from_str("fromISO"), value: from_iso });
        params.push(ParamPair { key: String::from_str("toISO"), value: to_iso });
        params.push(optional_param("limit", opt_u32_to_dec(limit)));
        proof {
            assert(views_of(params@) =~= seq![
                (camel_case_of("resolution"@), Option::Some(resolution@)),
                ("fromISO"@, opt_str_view(from_iso)),
                ("toISO"@, opt_str_view(to_iso)),
                (camel_case_of("limit"@), opt_dec_of_u32(limit)),
            ]);
        }
        self.req_handler.get_url(path, Some(params))
    }

    /// The URL of a historical-funding query for one perpetual market.
    pub fn get_perpetual_market_historical_funding_url(
        &self,
        market: String,
        effective_before_or_at: Option<String>,
        effective_before_or_at_height: Option<u32>,
        limit: Option<u32>,
    ) -> (r: Result<String, APIError>)
        ensures
            request_url_outcome(
                url_of(
                    self.spec_host(),
                    "/v4/historicalFunding/"@ + market@,
                    query_string_of(
                        seq![
                            (
                                camel_case_of("effective_before_or_at"@),
                                opt_str_view(effective_before_or_at),
                            ),
                            (
                                camel_case_of("effective_before_or_at_height"@),
                                opt_dec_of_u32(effective_before_or_at_height),
                            ),
                            (camel_case_of("limit"@), opt_dec_of_u32(limit)),
                        ],
                    ),
                ),
                r,
            ),
    {
        let mut path = String::from_str("/v4/historicalFunding/");
        path.append(market.as_str());
        let mut params: Vec<ParamPair> = Vec::new();
        params.push(optional_param("effective_before_or_at", effective_before_or_at));
        params.push(
            optional_param(
                "effective_before_or_at_height",
                opt_u32_to_dec(effective_before_or_at_height),
            ),
        );
        params.push(optional_param("limit", opt_u32_to_dec(limit)));
        proof {
            assert(views_of(params@) =~= seq![
                (camel_case_of("effective_before_or_at"@), opt_str_view(effective_before_or_at)),
                (
                    camel_case_of("effective_before_or_at_height"@),
                    opt_dec_of_u32(effective_before_or_at_height),
                ),
                (camel_case_of("limit"@), opt_dec_of_u32(limit)),
            ]);
        }
        self.req_handler.get_url(path, Some(params))
    }

    /// The URL of a sparkline query over a time window.
    pub fn get_perpetual_market_sparklines_url(&self, time_period: TimePeriod) -> (r: Result<
        String,
        APIError,
    >)
        ensures
            request_url_outcome(
                url_of(
                    self.spec_host(),
                    "/v4/sparklines"@,
                    query_string_of(
                        seq![
                            (camel_case_of("time_period"@), Option::Some(time_period_str(time_period))),
                        ],
                    ),
                ),
                r,
            ),
    {
        let mut params: Vec<ParamPair> = Vec::new();
        params.push(required_param("time_period", time_period.to_string()));
        proof {
            assert(views_of(params@) =~= seq![
                (camel_case_of("time_period"@), Option::Some(time_period_str(time_period))),
            ]);
        }
        self.req_handler.get_url(String::from_str("/v4/sparklines"), Some(params))
    }
}

} // verus!
