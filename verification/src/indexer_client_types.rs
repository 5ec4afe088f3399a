use crate::constants::OrderSide;
use crate::constants::OrderStatus;
use crate::constants::OrderTimeInForce;
use crate::constants::OrderType;
use crate::constants::PerpetualPositionStatus;
use crate::constants::position_status_str;
use crate::params::ParamPair;
use crate::params::views_of;
use crate::render::dec_of;
use crate::render::u64_to_dec;
use std::collections::HashMap;
use vstd::prelude::*;

verus! {

/// Which side of the market a position stands on.
#[derive(Clone, Copy, PartialEq, Eq, Structural, Debug)]
pub enum PositionSide {
    LONG,
    SHORT,
}

/// One sub-account: a numbered sub-ledger under a wallet address, holding
/// positions and collateral.
#[derive(Clone, Debug)]
pub struct SubAccountResponseObject {
    pub address: String,
    pub subaccount_number: u32,
    pub equity: String,
    pub free_collateral: String,
    pub open_perpetual_positions: Option<HashMap<String, PerpetualPositionResponseStruct>>,
    pub asset_positions: Option<HashMap<String, AssetPositionResponseStruct>>,
    pub margin_enabled: bool,
}

/// An exposure to a perpetual market, with size, entry price and PnL fields.
#[derive(Clone, Debug)]
pub struct PerpetualPositionResponseStruct {
    pub market: String,
    pub status: Option<PerpetualPositionStatus>,
    pub side: Option<PositionSide>,
    pub size: String,
    pub max_size: String,
    pub entry_price: String,
    pub realized_pnl: String,
    pub created_at: String,
    pub created_at_height: String,
    pub sum_open: String,
    pub sum_close: String,
    pub net_funding: String,
    pub unrealized_pnl: String,
    pub closed_at: Option<String>,
    pub exit_price: Option<String>,
}

/// A holding in a plain asset.
#[derive(Clone, Debug)]
pub struct AssetPositionResponseStruct {
    pub symbol: String,
    pub side: Option<PositionSide>,
    pub size: String,
    pub asset_id: Option<String>,
}

/// The direction of a transfer relative to the queried sub-account.
#[derive(Clone, Copy, PartialEq, Eq, Structural, Debug)]
pub enum TransferType {
    TransferIn,
    TransferOut,
    Deposit,
    Withdrawal,
}

/// One endpoint of a transfer.
#[derive(Clone, PartialEq, Debug)]
pub struct TransferResponseSenderObject {
    pub sub_account_number: u32,
    pub address: String,
}

/// One transfer between sub-accounts or with the outside.
#[derive(Clone, PartialEq, Debug)]
pub struct TransferResponseStruct {
    pub id: String,
    pub sender: TransferResponseSenderObject,
    pub recipient: TransferResponseSenderObject,
    pub size: String,
    pub created_at: String,
    pub created_at_height: String,
    pub symbol: String,
    pub transfer_type: TransferType,
    pub transaction_hash: String,
}

/// One order as the indexing service reports it.
#[derive(Clone, Debug)]
pub struct OrderResponseStruct {
    pub id: String,
    pub subaccount_id: Option<String>,
    pub client_id: Option<String>,
    pub clob_pair_id: Option<String>,
    pub side: OrderSide,
    pub size: String,
    pub total_filled: String,
    pub price: String,
    pub order_type: OrderType,
    pub reduce_only: bool,
    pub order_flags: Option<String>,
    pub good_til_block: Option<String>,
    pub good_til_block_time: Option<String>,
    pub created_at_height: Option<String>,
    pub client_metadata: Option<String>,
    pub trigger_price: Option<String>,
    pub time_in_force: OrderTimeInForce,
    pub status: OrderStatus,
    pub post_only: bool,
    pub ticker: String,
}

/// Whether a fill made or took liquidity.
#[derive(Clone, Copy, PartialEq, Eq, Structural, Debug)]
pub enum Liquidity {
    Maker,
    Taker,
}

/// How a fill came about.
#[derive(Clone, Copy, PartialEq, Eq, Structural, Debug)]
pub enum FillType {
    Maker,
    Limit,
    Liquidated,
    Liquidation,
}

/// The kind of market a fill happened on.
#[derive(Clone, Copy, PartialEq, Eq, Structural, Debug)]
pub enum MarketType {
    Perpetual,
    Spot,
}

/// One fill of an order.
#[derive(Clone, Debug)]
pub struct FillResponseStruct {
    pub id: String,
    pub side: OrderSide,
    pub liquidity: Liquidity,
    pub fill_type: FillType,
    pub market: String,
    pub market_type: MarketType,
    pub price: String,
    pub size: String,
    pub fee: String,
    pub created_at: String,
    pub created_at_height: String,
    pub order_id: Option<String>,
    pub client_metadata: Option<String>,
}

/// One equity/PnL sample of a sub-account at a block.
#[derive(Clone, Debug)]
pub struct PnLTicksResponseStruct {
    pub id: String,
    pub subaccount_id: Option<String>,
    pub equity: String,
    pub total_pnl: String,
    pub net_transfers: String,
    pub created_at: String,
    pub block_height: String,
    pub block_time: String,
}

/// The listing state of a perpetual market.
#[derive(Clone, Copy, PartialEq, Eq, Structural, Debug)]
pub enum PerpetualMarketStatus {
    Active,
    Paused,
    CancelOnly,
    PostOnly,
    Initializing,
}

/// One price level of an order book side.
#[derive(Clone, Debug)]
pub struct OrderbookResponsePriceLevel {
    pub price: String,
    pub size: String,
}

/// One trade on a perpetual market.
#[derive(Clone, Debug)]
pub struct TradeResponseStruct {
    pub id: String,
    pub side: OrderSide,
    pub size: String,
    pub price: String,
    pub create_at: String,
    pub create_at_height: String,
}

/// The sampling resolution of a candle series.
#[derive(Clone, Copy, PartialEq, Eq, Structural, Debug)]
pub enum CandleResolution {
    OneMin,
    FiveMin,
    FifteenMin,
    ThirtyMin,
    OneHour,
    FourHour,
    OneDay,
}

/// One candle of a perpetual market.
#[derive(Clone, Debug)]
pub struct CandleResponseStruct {
    pub started_at: String,
    pub ticker: String,
    pub resolution: CandleResolution,
    pub low: String,
    pub high: String,
    pub open: String,
    pub close: String,
    pub base_token_volume: String,
    pub usd_volume: String,
    pub trades: u32,
    pub starting_open_interest: String,
    pub id: String,
}

/// One historical funding sample of a perpetual market.
#[derive(Clone, Debug)]
pub struct HistoricalFundingResponseStruct {
    pub ticker: String,
    pub rate: String,
    pub price: String,
    pub effective_at: String,
    pub effective_at_height: String,
}

/// The perpetual positions matching a position query.
#[derive(Clone, Debug)]
pub struct PerpetualPositionResponse {
    pub positions: Vec<PerpetualPositionResponseStruct>,
}

/// The asset positions matching a position query.
#[derive(Clone, Debug)]
pub struct AssetPositionResponse {
    pub positions: Vec<AssetPositionResponseStruct>,
}

/// The transfers matching a transfer query.
#[derive(Clone, Debug)]
pub struct TransferResponse {
    pub transfers: Vec<TransferResponseStruct>,
}

/// The fills matching a fill query.
#[derive(Clone, Debug)]
pub struct FillResponse {
    pub fills: Vec<FillResponseStruct>,
}

/// The samples matching a historical-PnL query.
#[derive(Clone, Debug)]
pub struct HistoricalPnLResponse {
    pub historical_pnl: Vec<FillResponseStruct>,
}

/// Both sides of a perpetual market's order book.
#[derive(Clone, Debug)]
pub struct OrderbookResponse {
    pub bids: Vec<OrderbookResponsePriceLevel>,
    pub asks: Vec<OrderbookResponsePriceLevel>,
}

/// The trades matching a trade query.
#[derive(Clone, Debug)]
pub struct TradeResponse {
    pub trades: Vec<TradeResponseStruct>,
}

/// The candles matching a candle query.
#[derive(Clone, Debug)]
pub struct CandleResponse {
    pub candles: Vec<CandleResponseStruct>,
}

/// The samples matching a historical-funding query.
#[derive(Clone, Debug)]
pub struct HistoricalFundingResponse {
    pub historical_funding: Vec<HistoricalFundingResponseStruct>,
}

/// The filters of a position query: the sub-account it concerns plus
/// optional status, count and creation-time bounds.
#[derive(Clone, Debug)]
pub struct PositionDetailsRequest {
    pub address: String,
    pub sub_account_number: u32,
    pub status: Option<PerpetualPositionStatus>,
    pub limit: Option<u32>,
    pub create_before_or_at_height: Option<u32>,
    pub create_before_or_at: Option<String>,
}

/// The ordered parameter pairs a position query encodes to: the address and
/// sub-account number always, then each present filter under its wire key.
pub open spec fn position_params_of(r: PositionDetailsRequest) -> Seq<
    (Seq<char>, Option<Seq<char>>),
> {
    let base = seq![
        ("address"@, Option::Some(r.address@)),
        ("subAccountNumber"@, Option::Some(dec_of(r.sub_account_number as nat))),
    ];
    let with_status = if r.status is Some {
        base.push(("status"@, Option::Some(position_status_str(r.status.unwrap()))))
    } else {
        base
    };
    let with_limit = if r.limit is Some {
        with_status.push(("limit"@, Option::Some(dec_of(r.limit.unwrap() as nat))))
    } else {
        with_status
    };
    let with_height = if r.create_before_or_at_height is Some {
        with_limit.push(
            (
                "createdBeforeOrAtHeight"@,
                Option::Some(dec_of(r.create_before_or_at_height.unwrap() as nat)),
            ),
        )
    } else {
        with_limit
    };
    if r.create_before_or_at is Some {
        with_height.push(("createdBeforeOrAt"@, Option::Some(r.create_before_or_at.unwrap()@)))
    } else {
        with_height
    }
}

impl PositionDetailsRequest {
    /// The ordered parameter pairs this query encodes to.
    pub fn to_params(&self) -> (v: Vec<ParamPair>)
        ensures
            views_of(v@) == position_params_of(*self),
    {
        let mut v: Vec<ParamPair> = Vec::new();
        v.push(ParamPair { key: String::from_str("address"), value: Some(self.address.clone()) });
        v.push(
            ParamPair {
                key: String::from_str("subAccountNumber"),
                value: Some(u64_to_dec(self.sub_account_number as u64)),
            },
        );
        match &self.status {
            Some(s) => {
                v.push(ParamPair { key: String::from_str("status"), value: Some(s.to_string()) });
            },
            None => {},
        }
        match self.limit {
            Some(n) => {
                v.push(
                    ParamPair {
                        key: String::from_str("limit"),
                        value: Some(u64_to_dec(n as u64)),
                    },
                );
            },
            None => {},
        }
        match self.create_before_or_at_height {
            Some(n) => {
                v.push(
                    ParamPair {
                        key: String::from_str("createdBeforeOrAtHeight"),
                        value: Some(u64_to_dec(n as u64)),
                    },
                );
            },
            None => {},
        }
        match &self.create_before_or_at {
            Some(t) => {
                v.push(
                    ParamPair {
                        key: String::from_str("createdBeforeOrAt"),
                        value: Some(t.clone()),
                    },
                );
            },
            None => {},
        }
        proof {
            assert(views_of(v@) =~= position_params_of(*self));
        }
        v
    }
}

} // verus!
