use crate::params::opt_str_view;
use vstd::prelude::*;

verus! {

/// The kind of tradable instrument a query is scoped to.
#[derive(Clone, Copy, PartialEq, Eq, Structural, Debug)]
pub enum TickerType {
    PERPETUAL,
}

/// The wire form of a `TickerType`.
pub open spec fn ticker_type_str(t: TickerType) -> Seq<char> {
    match t {
        TickerType::PERPETUAL => "PERPETUAL"@,
    }
}

impl TickerType {
    /// Render as the literal wire value.
    pub fn to_string(&self) -> (r: String)
        ensures
            r@ == ticker_type_str(*self),
    {
        match self {
            TickerType::PERPETUAL => String::from_str("PERPETUAL"),
        }
    }
}

/// The lifecycle state of a perpetual position.
#[derive(Clone, Copy, PartialEq, Eq, Structural, Debug)]
pub enum PerpetualPositionStatus {
    OPEN,
    CLOSED,
    LIQUIDATED,
}

/// The wire form of a `PerpetualPositionStatus`.
pub open spec fn position_status_str(s: PerpetualPositionStatus) -> Seq<char> {
    match s {
        PerpetualPositionStatus::OPEN => "OPEN"@,
        PerpetualPositionStatus::CLOSED => "CLOSED"@,
        PerpetualPositionStatus::LIQUIDATED => "LIQUIDATED"@,
    }
}

impl PerpetualPositionStatus {
    /// Render as the literal wire value.
    pub fn to_string(&self) -> (r: String)
        ensures
            r@ == position_status_str(*self),
    {
        match self {
            PerpetualPositionStatus::OPEN => String::from_str("OPEN"),
            PerpetualPositionStatus::CLOSED => String::from_str("CLOSED"),
            PerpetualPositionStatus::LIQUIDATED => String::from_str("LIQUIDATED"),
        }
    }
}

/// The lifecycle state of an order.
#[derive(Clone, Copy, PartialEq, Eq, Structural, Debug)]
pub enum OrderStatus {
    BestEffortOpened,
    Open,
    Filled,
    BestEffortCanceled,
    Canceled,
    Untriggered,
}

/// The wire form of an `OrderStatus`: its upper-snake rendering.
pub open spec fn order_status_str(s: OrderStatus) -> Seq<char> {
    match s {
        OrderStatus::BestEffortOpened => "BEST_EFFORT_OPENED"@,
        OrderStatus::Open => "OPEN"@,
        OrderStatus::Filled => "FILLED"@,
        OrderStatus::BestEffortCanceled => "BEST_EFFORT_CANCELED"@,
        OrderStatus::Canceled => "CANCELED"@,
        OrderStatus::Untriggered => "UNTRIGGERED"@,
    }
}

impl OrderStatus {
    /// Render as the literal wire value.
    pub fn to_string(&self) -> (r: String)
        ensures
            r@ == order_status_str(*self),
    {
        match self {
            OrderStatus::BestEffortOpened => String::from_str("BEST_EFFORT_OPENED"),
            OrderStatus::Open => String::from_str("OPEN"),
            OrderStatus::Filled => String::from_str("FILLED"),
            OrderStatus::BestEffortCanceled => String::from_str("BEST_EFFORT_CANCELED"),
            OrderStatus::Canceled => String::from_str("CANCELED"),
            OrderStatus::Untriggered => String::from_str("UNTRIGGERED"),
        }
    }
}

/// The side an order or trade stands on.
#[derive(Clone, Copy, PartialEq, Eq, Structural, Debug)]
pub enum OrderSide {
    BUY,
    SELL,
}

/// The wire form of an `OrderSide`.
pub open spec fn order_side_str(s: OrderSide) -> Seq<char> {
    match s {
        OrderSide::BUY => "BUY"@,
        OrderSide::SELL => "SELL"@,
    }
}

impl OrderSide {
    /// Render as the literal wire value.
    pub fn to_string(&self) -> (r: String)
        ensures
            r@ == order_side_str(*self),
    {
        match self {
            OrderSide::BUY => String::from_str("BUY"),
            OrderSide::SELL => String::from_str("SELL"),
        }
    }
}

/// The execution style of an order.
#[derive(Clone, Copy, PartialEq, Eq, Structural, Debug)]
pub enum OrderType {
    Limit,
    Market,
    StopLimit,
    TakeProfitLimit,
    StopMarket,
    TakeProfitMarket,
}

/// The wire form of an `OrderType`: its upper-snake rendering.
pub open spec fn order_type_str(t: OrderType) -> Seq<char> {
    match t {
        OrderType::Limit => "LIMIT"@,
        OrderType::Market => "MARKET"@,
        OrderType::StopLimit => "STOP_LIMIT"@,
        OrderType::TakeProfitLimit => "TAKE_PROFIT_LIMIT"@,
        OrderType::StopMarket => "STOP_MARKET"@,
        OrderType::TakeProfitMarket => "TAKE_PROFIT_MARKET"@,
    }
}

impl OrderType {
    /// Render as the literal wire value.
    pub fn to_string(&self) -> (r: String)
        ensures
            r@ == order_type_str(*self),
    {
        match self {
            OrderType::Limit => String::from_str("LIMIT"),
            OrderType::Market => String::from_str("MARKET"),
            OrderType::StopLimit => String::from_str("STOP_LIMIT"),
            OrderType::TakeProfitLimit => String::from_str("TAKE_PROFIT_LIMIT"),
            OrderType::StopMarket => String::from_str("STOP_MARKET"),
            OrderType::TakeProfitMarket => String::from_str("TAKE_PROFIT_MARKET"),
        }
    }
}

/// The wire form of an optional `OrderSide`: absent stays absent.
pub open spec fn opt_order_side_str(s: Option<OrderSide>) -> Option<Seq<char>> {
    match s {
        Option::Some(v) => Option::Some(order_side_str(v)),
        Option::None => Option::None,
    }
}

/// Render an optional `OrderSide` as an optional wire value.
pub fn opt_order_side_value(s: Option<OrderSide>) -> (r: Option<String>)
    ensures
        opt_str_view(r) == opt_order_side_str(s),
{
    match s {
        Some(v) => Some(v.to_string()),
        None => None,
    }
}

/// The wire form of an optional `OrderStatus`: absent stays absent.
pub open spec fn opt_order_status_str(s: Option<OrderStatus>) -> Option<Seq<char>> {
    match s {
        Option::Some(v) => Option::Some(order_status_str(v)),
        Option::None => Option::None,
    }
}

/// Render an optional `OrderStatus` as an optional wire value.
pub fn opt_order_status_value(s: Option<OrderStatus>) -> (r: Option<String>)
    ensures
        opt_str_view(r) == opt_order_status_str(s),
{
    match s {
        Some(v) => Some(v.to_string()),
        None => None,
    }
}

/// The wire form of an optional `OrderType`: absent stays absent.
pub open spec fn opt_order_type_str(t: Option<OrderType>) -> Option<Seq<char>> {
    match t {
        Option::Some(v) => Option::Some(order_type_str(v)),
        Option::None => Option::None,
    }
}

/// Render an optional `OrderType` as an optional wire value.
pub fn opt_order_type_value(t: Option<OrderType>) -> (r: Option<String>)
    ensures
        opt_str_view(r) == opt_order_type_str(t),
{
    match t {
        Some(v) => Some(v.to_string()),
        None => None,
    }
}

/// How long an order stays in force.
#[derive(Clone, Copy, PartialEq, Eq, Structural, Debug)]
pub enum OrderTimeInForce {
    GIT,
    IOC,
    FOK,
}

/// The wire form of an `OrderTimeInForce`.
pub open spec fn time_in_force_str(t: OrderTimeInForce) -> Seq<char> {
    match t {
        OrderTimeInForce::GIT => "GIT"@,
        OrderTimeInForce::IOC => "IOC"@,
        OrderTimeInForce::FOK => "FOK"@,
    }
}

impl OrderTimeInForce {
    /// Render as the literal wire value.
    pub fn to_string(&self) -> (r: String)
        ensures
            r@ == time_in_force_str(*self),
    {
        match self {
            OrderTimeInForce::GIT => String::from_str("GIT"),
            OrderTimeInForce::IOC => String::from_str("IOC"),
            OrderTimeInForce::FOK => String::from_str("FOK"),
        }
    }
}

/// The window a sparkline series covers.
#[derive(Clone, Copy, PartialEq, Eq, Structural, Debug)]
pub enum TimePeriod {
    OneDay,
    SevenDays,
}

/// The wire form of a `TimePeriod`.
pub open spec fn time_period_str(t: TimePeriod) -> Seq<char> {
    match t {
        TimePeriod::OneDay => "ONE_DAY"@,
        TimePeriod::SevenDays => "SEVEN_DAYS"@,
    }
}

impl TimePeriod {
    /// Render as the literal wire value.
    pub fn to_string(&self) -> (r: String)
        ensures
            r@ == time_period_str(*self),
    {
        match self {
            TimePeriod::OneDay => String::from_str("ONE_DAY"),
            TimePeriod::SevenDays => String::from_str("SEVEN_DAYS"),
        }
    }
}

} // verus!
