//! The enumerated constants of the exchange's interface and the names they
//! carry on the wire.

use vstd::prelude::*;
use vstd::string::*;

verus! {

/// The kind of a futures contract.
#[derive(Debug, Clone, Copy, PartialEq, Eq, Structural)]
pub enum ContractType {
    /// Runs without expiry.
    Perpetual,
    /// Delivered in the current month.
    CurrentMonth,
    /// Delivered in the next month.
    NextMonth,
    /// A current-month contract in delivery; not tradable.
    CurrentMonthDelivering,
    /// A next-month contract in delivery; not tradable.
    NextMonthDelivering,
}

impl ContractType {
    /// The name of each variant on the wire.
    pub open spec fn spec_wire_name(self) -> Seq<char> {
        match self {
            ContractType::Perpetual => "PERPETUAL"@,
            ContractType::CurrentMonth => "CURRENT_MONTH"@,
            ContractType::NextMonth => "NEXT_MONTH"@,
            ContractType::CurrentMonthDelivering => "CURRENT_MONTH_DELIVERING"@,
            ContractType::NextMonthDelivering => "NEXT_MONTH_DELIVERING"@,
        }
    }

    /// The name under which this value travels in queries and stream names.
    pub fn wire_name(&self) -> (name: &'static str)
        ensures
            name@ == self.spec_wire_name(),
    {
        match self {
            ContractType::Perpetual => "PERPETUAL",
            ContractType::CurrentMonth => "CURRENT_MONTH",
            ContractType::NextMonth => "NEXT_MONTH",
            ContractType::CurrentMonthDelivering => "CURRENT_MONTH_DELIVERING",
            ContractType::NextMonthDelivering => "NEXT_MONTH_DELIVERING",
        }
    }

    /// The wire name as an owned string.
    pub fn to_string(&self) -> (text: String)
        ensures
            text@ == self.spec_wire_name(),
    {
        String::from_str(self.wire_name())
    }
}

/// Where a contract stands in its life cycle.
#[derive(Debug, Clone, Copy, PartialEq, Eq, Structural)]
pub enum ContractStatus {
    /// Not yet listed.
    PendingTrading,
    /// Open for trading.
    Trading,
    /// About to be delivered.
    PreDelivering,
    /// In delivery.
    Delivering,
    /// Delivered.
    Delivered,
    /// About to be settled.
    PreSettle,
    /// In settlement.
    Settling,
    /// Delisted.
    Close,
}

impl ContractStatus {
    /// The name of each variant on the wire.
    pub open spec fn spec_wire_name(self) -> Seq<char> {
        match self {
            ContractStatus::PendingTrading => "PENDING_TRADING"@,
            ContractStatus::Trading => "TRADING"@,
            ContractStatus::PreDelivering => "PRE_DELIVERING"@,
            ContractStatus::Delivering => "DELIVERING"@,
            ContractStatus::Delivered => "DELIVERED"@,
            ContractStatus::PreSettle => "PRE_SETTLE"@,
            ContractStatus::Settling => "SETTLING"@,
            ContractStatus::Close => "CLOSE"@,
        }
    }

    /// The name under which this value travels in queries and stream names.
    pub fn wire_name(&self) -> (name: &'static str)
        ensures
            name@ == self.spec_wire_name(),
    {
        match self {
            ContractStatus::PendingTrading => "PENDING_TRADING",
            ContractStatus::Trading => "TRADING",
            ContractStatus::PreDelivering => "PRE_DELIVERING",
            ContractStatus::Delivering => "DELIVERING",
            ContractStatus::Delivered => "DELIVERED",
            ContractStatus::PreSettle => "PRE_SETTLE",
            ContractStatus::Settling => "SETTLING",
            ContractStatus::Close => "CLOSE",
        }
    }
}

/// The state of an order.
#[derive(Debug, Clone, Copy, PartialEq, Eq, Structural)]
pub enum OrderStatus {
    /// Accepted, nothing filled.
    New,
    /// Filled in part.
    PartiallyFilled,
    /// Filled in full.
    Filled,
    /// Withdrawn.
    Canceled,
    /// Refused by the exchange.
    Rejected,
    /// Lapsed under its time-in-force rule.
    Expired,
}

impl OrderStatus {
    /// The name of each variant on the wire.
    pub open spec fn spec_wire_name(self) -> Seq<char> {
        match self {
            OrderStatus::New => "NEW"@,
            OrderStatus::PartiallyFilled => "PARTIALLY_FILLED"@,
            OrderStatus::Filled => "FILLED"@,
            OrderStatus::Canceled => "CANCELED"@,
            OrderStatus::Rejected => "REJECTED"@,
            OrderStatus::Expired => "EXPIRED"@,
        }
    }

    /// The name under which this value travels in queries and stream names.
    pub fn wire_name(&self) -> (name: &'static str)
        ensures
            name@ == self.spec_wire_name(),
    {
        match self {
            OrderStatus::New => "NEW",
            OrderStatus::PartiallyFilled => "PARTIALLY_FILLED",
            OrderStatus::Filled => "FILLED",
            OrderStatus::Canceled => "CANCELED",
            OrderStatus::Rejected => "REJECTED",
            OrderStatus::Expired => "EXPIRED",
        }
    }
}

/// The order types common to the market segments.
#[derive(Debug, Clone, Copy, PartialEq, Eq, Structural)]
pub enum OrderType {
    Limit,
    Market,
    Stop,
    StopMarket,
    TakeProfit,
    TakeProfitMarket,
    TailingStopMarket,
}

impl OrderType {
    /// The name of each variant on the wire.
    pub open spec fn spec_wire_name(self) -> Seq<char> {
        match self {
            OrderType::Limit => "LIMIT"@,
            OrderType::Market => "MARKET"@,
            OrderType::Stop => "STOP"@,
            OrderType::StopMarket => "STOP_MARKET"@,
            OrderType::TakeProfit => "TAKE_PROFIT"@,
            OrderType::TakeProfitMarket => "TAKE_PROFIT_MARKET"@,
            OrderType::TailingStopMarket => "TRAILING_STOP_MARKET"@,
        }
    }

    /// The name under which this value travels in queries and stream names.
    pub fn wire_name(&self) -> (name: &'static str)
        ensures
            name@ == self.spec_wire_name(),
    {
        match self {
            OrderType::Limit => "LIMIT",
            OrderType::Market => "MARKET",
            OrderType::Stop => "STOP",
            OrderType::StopMarket => "STOP_MARKET",
            OrderType::TakeProfit => "TAKE_PROFIT",
            OrderType::TakeProfitMarket => "TAKE_PROFIT_MARKET",
            OrderType::TailingStopMarket => "TRAILING_STOP_MARKET",
        }
    }
}

/// The order types of the futures segments.
#[derive(Debug, Clone, Copy, PartialEq, Eq, Structural)]
pub enum FuturesOrderType {
    Limit,
    Market,
    Stop,
    StopMarket,
    TakeProfit,
    TakeProfitMarket,
    TrailingStopMarket,
}

impl FuturesOrderType {
    /// The name of each variant on the wire.
    pub open spec fn spec_wire_name(self) -> Seq<char> {
        match self {
            FuturesOrderType::Limit => "LIMIT"@,
            FuturesOrderType::Market => "MARKET"@,
            FuturesOrderType::Stop => "STOP"@,
            FuturesOrderType::StopMarket => "STOP_MARKET"@,
            FuturesOrderType::TakeProfit => "TAKE_PROFIT"@,
            FuturesOrderType::TakeProfitMarket => "TAKE_PROFIT_MARKET"@,
            FuturesOrderType::TrailingStopMarket => "TRAILING_STOP_MARKET"@,
        }
    }

    /// The name under which this value travels in queries and stream names.
    pub fn wire_name(&self) -> (name: &'static str)
        ensures
            name@ == self.spec_wire_name(),
    {
        match self {
            FuturesOrderType::Limit => "LIMIT",
            FuturesOrderType::Market => "MARKET",
            FuturesOrderType::Stop => "STOP",
            FuturesOrderType::StopMarket => "STOP_MARKET",
            FuturesOrderType::TakeProfit => "TAKE_PROFIT",
            FuturesOrderType::TakeProfitMarket => "TAKE_PROFIT_MARKET",
            FuturesOrderType::TrailingStopMarket => "TRAILING_STOP_MARKET",
        }
    }
}

/// The order types of the spot segment.
#[derive(Debug, Clone, Copy, PartialEq, Eq, Structural)]
pub enum SpotOrderType {
    /// A limit order.
    Limit,
    /// A market order.
    Market,
    /// A stop-loss order.
    StopLoss,
    /// A stop-loss limit order.
    StopLossLimit,
    /// A take-profit order.
    TakeProfit,
    /// A take-profit limit order.
    TakeProfitLimit,
    /// A limit order that only ever makes.
    LimitMaker,
}

impl SpotOrderType {
    /// The name of each variant on the wire.
    pub open spec fn spec_wire_name(self) -> Seq<char> {
        match self {
            SpotOrderType::Limit => "LIMIT"@,
            SpotOrderType::Market => "MARKET"@,
            SpotOrderType::StopLoss => "STOP_LOSS"@,
            SpotOrderType::StopLossLimit => "STOP_LOSS_LIMIT"@,
            SpotOrderType::TakeProfit => "TAKE_PROFIT"@,
            SpotOrderType::TakeProfitLimit => "TAKE_PROFIT_LIMIT"@,
            SpotOrderType::LimitMaker => "LIMIT_MAKER"@,
        }
    }

    /// The name under which this value travels in queries and stream names.
    pub fn wire_name(&self) -> (name: &'static str)
        ensures
            name@ == self.spec_wire_name(),
    {
        match self {
            SpotOrderType::Limit => "LIMIT",
            SpotOrderType::Market => "MARKET",
            SpotOrderType::StopLoss => "STOP_LOSS",
            SpotOrderType::StopLossLimit => "STOP_LOSS_LIMIT",
            SpotOrderType::TakeProfit => "TAKE_PROFIT",
            SpotOrderType::TakeProfitLimit => "TAKE_PROFIT_LIMIT",
            SpotOrderType::LimitMaker => "LIMIT_MAKER",
        }
    }
}

/// The side of an order.
#[derive(Debug, Clone, Copy, PartialEq, Eq, Structural)]
pub enum OrderSide {
    Buy,
    Sell,
}

impl OrderSide {
    /// The name of each variant on the wire.
    pub open spec fn spec_wire_name(self) -> Seq<char> {
        match self {
            OrderSide::Buy => "BUY"@,
            OrderSide::Sell => "SELL"@,
        }
    }

    /// The name under which this value travels in queries and stream names.
    pub fn wire_name(&self) -> (name: &'static str)
        ensures
            name@ == self.spec_wire_name(),
    {
        match self {
            OrderSide::Buy => "BUY",
            OrderSide::Sell => "SELL",
        }
    }
}

/// The direction of a position.
#[derive(Debug, Clone, Copy, PartialEq, Eq, Structural)]
pub enum PositionDirect {
    Both,
    Long,
    Short,
}

impl PositionDirect {
    /// The name of each variant on the wire.
    pub open spec fn spec_wire_name(self) -> Seq<char> {
        match self {
            PositionDirect::Both => "BOTH"@,
            PositionDirect::Long => "LONG"@,
            PositionDirect::Short => "SHORT"@,
        }
    }

    /// The name under which this value travels in queries and stream names.
    pub fn wire_name(&self) -> (name: &'static str)
        ensures
            name@ == self.spec_wire_name(),
    {
        match self {
            PositionDirect::Both => "BOTH",
            PositionDirect::Long => "LONG",
            PositionDirect::Short => "SHORT",
        }
    }
}

/// How long an order stays in force.
#[derive(Debug, Clone, Copy, PartialEq, Eq, Structural)]
pub enum TimeInForce {
    /// Good till cancelled.
    GTC,
    /// Immediate or cancel.
    IOC,
    /// Fill or kill.
    FOK,
    /// Good till crossing.
    GTX,
}

impl TimeInForce {
    /// The name of each variant on the wire.
    pub open spec fn spec_wire_name(self) -> Seq<char> {
        match self {
            TimeInForce::GTC => "GTC"@,
            TimeInForce::IOC => "IOC"@,
            TimeInForce::FOK => "FOK"@,
            TimeInForce::GTX => "GTX"@,
        }
    }

    /// The name under which this value travels in queries and stream names.
    pub fn wire_name(&self) -> (name: &'static str)
        ensures
            name@ == self.spec_wire_name(),
    {
        match self {
            TimeInForce::GTC => "GTC",
            TimeInForce::IOC => "IOC",
            TimeInForce::FOK => "FOK",
            TimeInForce::GTX => "GTX",
        }
    }
}

/// The price that triggers a conditional order.
#[derive(Debug, Clone, Copy, PartialEq, Eq, Structural)]
pub enum WorkingType {
    MarkPrice,
    ContractPrice,
}

impl WorkingType {
    /// The name of each variant on the wire.
    pub open spec fn spec_wire_name(self) -> Seq<char> {
        match self {
            WorkingType::MarkPrice => "MARK_PRICE"@,
            WorkingType::ContractPrice => "CONTRACT_PRICE"@,
        }
    }

    /// The name under which this value travels in queries and stream names.
    pub fn wire_name(&self) -> (name: &'static str)
        ensures
            name@ == self.spec_wire_name(),
    {
        match self {
            WorkingType::MarkPrice => "MARK_PRICE",
            WorkingType::ContractPrice => "CONTRACT_PRICE",
        }
    }
}

/// How margin is held for a position.
#[derive(Debug, Clone, Copy, PartialEq, Eq, Structural)]
pub enum MarginType {
    Isolated,
    Crossed,
}

impl MarginType {
    /// The name of each variant on the wire.
    pub open spec fn spec_wire_name(self) -> Seq<char> {
        match self {
            MarginType::Isolated => "ISOLATED"@,
            MarginType::Crossed => "CROSSED"@,
        }
    }

    /// The name under which this value travels in queries and stream names.
    pub fn wire_name(&self) -> (name: &'static str)
        ensures
            name@ == self.spec_wire_name(),
    {
        match self {
            MarginType::Isolated => "ISOLATED",
            MarginType::Crossed => "CROSSED",
        }
    }
}

/// How much of a new order the answer reports.
#[derive(Debug, Clone, Copy, PartialEq, Eq, Structural)]
pub enum NewOrderType {
    Ack,
    Result,
}

impl NewOrderType {
    /// The name of each variant on the wire.
    pub open spec fn spec_wire_name(self) -> Seq<char> {
        match self {
            NewOrderType::Ack => "ACK"@,
            NewOrderType::Result => "RESULT"@,
        }
    }

    /// The name under which this value travels in queries and stream names.
    pub fn wire_name(&self) -> (name: &'static str)
        ensures
            name@ == self.spec_wire_name(),
    {
        match self {
            NewOrderType::Ack => "ACK",
            NewOrderType::Result => "RESULT",
        }
    }
}

/// The width of a candlestick.
#[derive(Debug, Clone, Copy, PartialEq, Eq, Structural)]
pub enum Interval {
    Min1,
    Min3,
    Min5,
    Min15,
    Min30,
    Hour1,
    Hour2,
    Hour4,
    Hour6,
    Hour8,
    Hour12,
    Day1,
    Day3,
    Week1,
    Month1,
}

impl Interval {
    /// The name of each variant on the wire.
    pub open spec fn spec_wire_name(self) -> Seq<char> {
        match self {
            Interval::Min1 => "1m"@,
            Interval::Min3 => "3m"@,
            Interval::Min5 => "5m"@,
            Interval::Min15 => "15m"@,
            Interval::Min30 => "30m"@,
            Interval::Hour1 => "1h"@,
            Interval::Hour2 => "2h"@,
            Interval::Hour4 => "4h"@,
            Interval::Hour6 => "6h"@,
            Interval::Hour8 => "8h"@,
            Interval::Hour12 => "12h"@,
            Interval::Day1 => "1d"@,
            Interval::Day3 => "3d"@,
            Interval::Week1 => "1w"@,
            Interval::Month1 => "1M"@,
        }
    }

    /// The name under which this value travels in queries and stream names.
    pub fn wire_name(&self) -> (name: &'static str)
        ensures
            name@ == self.spec_wire_name(),
    {
        match self {
            Interval::Min1 => "1m",
            Interval::Min3 => "3m",
            Interval::Min5 => "5m",
            Interval::Min15 => "15m",
            Interval::Min30 => "30m",
            Interval::Hour1 => "1h",
            Interval::Hour2 => "2h",
            Interval::Hour4 => "4h",
            Interval::Hour6 => "6h",
            Interval::Hour8 => "8h",
            Interval::Hour12 => "12h",
            Interval::Day1 => "1d",
            Interval::Day3 => "3d",
            Interval::Week1 => "1w",
            Interval::Month1 => "1M",
        }
    }

    /// The wire name as an owned string.
    pub fn to_string(&self) -> (text: String)
        ensures
            text@ == self.spec_wire_name(),
    {
        String::from_str(self.wire_name())
    }
}

/// What a rate limit counts.
#[derive(Debug, Clone, Copy, PartialEq, Eq, Structural)]
pub enum RateLimitType {
    /// The summed weight of requests.
    RequestsWeight,
    /// The number of orders.
    Orders,
}

/// The verb of an HTTP request.
#[derive(Debug, Clone, Copy, PartialEq, Eq, Structural)]
pub enum HttpVerb {
    Get,
    Post,
    Put,
    Delete,
}

/// How an endpoint is called: the verb, and whether the query is signed (the
/// variants that begin with `S`).
#[derive(Debug, Clone, Copy, PartialEq, Eq, Structural)]
pub enum Method {
    GET,
    POST,
    PUT,
    DELETE,
    SGET,
    SPOST,
    SPUT,
    SDELETE,
}

impl Method {
    /// Whether calls of this kind carry a signature.
    pub open spec fn spec_is_signed(self) -> bool {
        self == Method::SGET || self == Method::SPOST || self == Method::SPUT || self
            == Method::SDELETE
    }

    /// The verb of calls of this kind.
    pub open spec fn spec_verb(self) -> HttpVerb {
        match self {
            Method::GET | Method::SGET => HttpVerb::Get,
            Method::POST | Method::SPOST => HttpVerb::Post,
            Method::PUT | Method::SPUT => HttpVerb::Put,
            Method::DELETE | Method::SDELETE => HttpVerb::Delete,
        }
    }

    /// Whether calls of this kind carry a signature.
    pub fn is_signed(&self) -> (signed: bool)
        ensures
            signed == self.spec_is_signed(),
    {
        match self {
            Method::SGET | Method::SPOST | Method::SPUT | Method::SDELETE => true,
            Method::GET | Method::POST | Method::PUT | Method::DELETE => false,
        }
    }

    /// The verb of calls of this kind.
    pub fn verb(&self) -> (verb: HttpVerb)
        ensures
            verb == self.spec_verb(),
    {
        match self {
            Method::GET | Method::SGET => HttpVerb::Get,
            Method::POST | Method::SPOST => HttpVerb::Post,
            Method::PUT | Method::SPUT => HttpVerb::Put,
            Method::DELETE | Method::SDELETE => HttpVerb::Delete,
        }
    }
}

impl HttpVerb {
    /// The verb as it is written in a request line.
    pub open spec fn spec_name(self) -> Seq<char> {
        match self {
            HttpVerb::Get => "GET"@,
            HttpVerb::Post => "POST"@,
            HttpVerb::Put => "PUT"@,
            HttpVerb::Delete => "DELETE"@,
        }
    }

    /// The verb as it is written in a request line.
    pub fn name(&self) -> (name: &'static str)
        ensures
            name@ == self.spec_name(),
    {
        match self {
            HttpVerb::Get => "GET",
            HttpVerb::Post => "POST",
            HttpVerb::Put => "PUT",
            HttpVerb::Delete => "DELETE",
        }
    }
}

} // verus!
