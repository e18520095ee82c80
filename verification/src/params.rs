//! The parameter values of the endpoints, each with the fields it writes
//! into the query string and their order.

use vstd::prelude::*;
use vstd::string::*;
use crate::enums::{Interval, MarginType, OrderSide, OrderType, PositionDirect, TimeInForce};
use crate::query::{
    field_models, flag_field, nested_records, number_field, number_items, opt_flag_field,
    opt_number_field, opt_string_view, opt_text_field, push_field, push_records,
    push_text_items, push_uint_items, record_fields, string_views, text_field, text_items,
    usize_values, FieldModel, QueryField, QueryParams,
};

verus! {

/// Reads the clock: the milliseconds since the Unix epoch, in UTC.
///
/// Trusted: wraps `chrono::Utc::now` and `timestamp_millis` of the `chrono`
/// crate. Nothing is claimed of the value, which differs from call to call.
#[verifier::external_body]
fn utc_millis() -> (millis: i64) {
    chrono::Utc::now().timestamp_millis()
}

/// Appends a list of fields to another.
fn push_all(fields: &mut Vec<QueryField>, more: Vec<QueryField>)
    ensures
        field_models(final(fields)@) == field_models(old(fields)@) + field_models(more@),
{
    let ghost added = more@;
    let mut more = more;
    fields.append(&mut more);
    proof {
        assert(field_models(fields@) =~= field_models(old(fields)@) + field_models(added));
    }
}

/// Parameters of an order-book query.
#[derive(Debug, Clone)]
pub struct PDepth {
    pub symbol: String,
    pub limit: usize,
}

impl QueryParams for PDepth {
    open spec fn spec_fields(&self) -> Seq<FieldModel> {
        seq![
            text_field("symbol"@, self.symbol@),
            number_field("limit"@, self.limit as int),
        ]
    }

    fn fields(&self) -> (v: Vec<QueryField>) {
        let mut v: Vec<QueryField> = Vec::new();
        push_field(&mut v, QueryField::text("symbol", self.symbol.as_str()));
        push_field(&mut v, QueryField::unsigned("limit", self.limit));
        v
    }
}

/// Parameters of a recent-trades query.
#[derive(Debug, Clone)]
pub struct PTrade {
    pub symbol: String,
    pub limit: usize,
}

impl QueryParams for PTrade {
    open spec fn spec_fields(&self) -> Seq<FieldModel> {
        seq![
            text_field("symbol"@, self.symbol@),
            number_field("limit"@, self.limit as int),
        ]
    }

    fn fields(&self) -> (v: Vec<QueryField>) {
        let mut v: Vec<QueryField> = Vec::new();
        push_field(&mut v, QueryField::text("symbol", self.symbol.as_str()));
        push_field(&mut v, QueryField::unsigned("limit", self.limit));
        v
    }
}

/// Parameters of a historical-trades query.
#[derive(Debug, Clone)]
pub struct PHistoricalTrade {
    pub symbol: String,
    pub limit: Option<usize>,
    pub from_id: Option<usize>,
}

impl QueryParams for PHistoricalTrade {
    open spec fn spec_fields(&self) -> Seq<FieldModel> {
        seq![
            text_field("symbol"@, self.symbol@),
            opt_number_field(
                "limit"@,
                match self.limit {
                    Some(x) => Some(x as int),
                    None => None,
                },
            ),
            opt_number_field(
                "fromId"@,
                match self.from_id {
                    Some(x) => Some(x as int),
                    None => None,
                },
            ),
        ]
    }

    fn fields(&self) -> (v: Vec<QueryField>) {
        let mut v: Vec<QueryField> = Vec::new();
        push_field(&mut v, QueryField::text("symbol", self.symbol.as_str()));
        push_field(&mut v, QueryField::opt_unsigned("limit", self.limit));
        push_field(&mut v, QueryField::opt_unsigned("fromId", self.from_id));
        v
    }
}

/// Parameters of an aggregated-trades query.
#[derive(Debug, Clone)]
pub struct PAggTrade {
    pub symbol: String,
    pub limit: Option<usize>,
    pub from_id: Option<usize>,
    pub start_time: Option<i64>,
    pub end_time: Option<i64>,
}

impl QueryParams for PAggTrade {
    open spec fn spec_fields(&self) -> Seq<FieldModel> {
        seq![
            text_field("symbol"@, self.symbol@),
            opt_number_field(
                "limit"@,
                match self.limit {
                    Some(x) => Some(x as int),
                    None => None,
                },
            ),
            opt_number_field(
                "fromId"@,
                match self.from_id {
                    Some(x) => Some(x as int),
                    None => None,
                },
            ),
            opt_number_field(
                "startTime"@,
                match self.start_time {
                    Some(x) => Some(x as int),
                    None => None,
                },
            ),
            opt_number_field(
                "endTime"@,
                match self.end_time {
                    Some(x) => Some(x as int),
                    None => None,
                },
            ),
        ]
    }

    fn fields(&self) -> (v: Vec<QueryField>) {
        let mut v: Vec<QueryField> = Vec::new();
        push_field(&mut v, QueryField::text("symbol", self.symbol.as_str()));
        push_field(&mut v, QueryField::opt_unsigned("limit", self.limit));
        push_field(&mut v, QueryField::opt_unsigned("fromId", self.from_id));
        push_field(&mut v, QueryField::opt_signed("startTime", self.start_time));
        push_field(&mut v, QueryField::opt_signed("endTime", self.end_time));
        v
    }
}

/// Parameters of a candlestick query.
#[derive(Debug, Clone)]
pub struct PKline {
    pub symbol: String,
    pub interval: Interval,
    pub start_time: Option<i64>,
    pub end_time: Option<i64>,
    pub limit: Option<usize>,
}

impl QueryParams for PKline {
    open spec fn spec_fields(&self) -> Seq<FieldModel> {
        seq![
            text_field("symbol"@, self.symbol@),
            text_field("interval"@, self.interval.spec_wire_name()),
            opt_number_field(
                "startTime"@,
                match self.start_time {
                    Some(x) => Some(x as int),
                    None => None,
                },
            ),
            opt_number_field(
                "endTime"@,
                match self.end_time {
                    Some(x) => Some(x as int),
                    None => None,
                },
            ),
            opt_number_field(
                "limit"@,
                match self.limit {
                    Some(x) => Some(x as int),
                    None => None,
                },
            ),
        ]
    }

    fn fields(&self) -> (v: Vec<QueryField>) {
        let mut v: Vec<QueryField> = Vec::new();
        push_field(&mut v, QueryField::text("symbol", self.symbol.as_str()));
        push_field(&mut v, QueryField::text("interval", self.interval.wire_name()));
        push_field(&mut v, QueryField::opt_signed("startTime", self.start_time));
        push_field(&mut v, QueryField::opt_signed("endTime", self.end_time));
        push_field(&mut v, QueryField::opt_unsigned("limit", self.limit));
        v
    }
}

/// Parameters of a continuous-contract candlestick query.
#[derive(Debug, Clone)]
pub struct PContinuousKline {
    pub pair: String,
    pub contract_type: String,
    pub interval: Interval,
    pub start_time: Option<i64>,
    pub end_time: Option<i64>,
    pub limit: Option<usize>,
}

impl QueryParams for PContinuousKline {
    open spec fn spec_fields(&self) -> Seq<FieldModel> {
        seq![
            text_field("pair"@, self.pair@),
            text_field("contractType"@, self.contract_type@),
            text_field("interval"@, self.interval.spec_wire_name()),
            opt_number_field(
                "startTime"@,
                match self.start_time {
                    Some(x) => Some(x as int),
                    None => None,
                },
            ),
            opt_number_field(
                "endTime"@,
                match self.end_time {
                    Some(x) => Some(x as int),
                    None => None,
                },
            ),
            opt_number_field(
                "limit"@,
                match self.limit {
                    Some(x) => Some(x as int),
                    None => None,
                },
            ),
        ]
    }

    fn fields(&self) -> (v: Vec<QueryField>) {
        let mut v: Vec<QueryField> = Vec::new();
        push_field(&mut v, QueryField::text("pair", self.pair.as_str()));
        push_field(&mut v, QueryField::text("contractType", self.contract_type.as_str()));
        push_field(&mut v, QueryField::text("interval", self.interval.wire_name()));
        push_field(&mut v, QueryField::opt_signed("startTime", self.start_time));
        push_field(&mut v, QueryField::opt_signed("endTime", self.end_time));
        push_field(&mut v, QueryField::opt_unsigned("limit", self.limit));
        v
    }
}

/// Parameters of an index-price candlestick query.
#[derive(Debug, Clone)]
pub struct PIndexPriceKline {
    pub pair: String,
    pub interval: Interval,
    pub start_time: Option<i64>,
    pub end_time: Option<i64>,
    pub limit: Option<usize>,
}

impl QueryParams for PIndexPriceKline {
    open spec fn spec_fields(&self) -> Seq<FieldModel> {
        seq![
            text_field("pair"@, self.pair@),
            text_field("interval"@, self.interval.spec_wire_name()),
            opt_number_field(
                "startTime"@,
                match self.start_time {
                    Some(x) => Some(x as int),
                    None => None,
                },
            ),
            opt_number_field(
                "endTime"@,
                match self.end_time {
                    Some(x) => Some(x as int),
                    None => None,
                },
            ),
            opt_number_field(
                "limit"@,
                match self.limit {
                    Some(x) => Some(x as int),
                    None => None,
                },
            ),
        ]
    }

    fn fields(&self) -> (v: Vec<QueryField>) {
        let mut v: Vec<QueryField> = Vec::new();
        push_field(&mut v, QueryField::text("pair", self.pair.as_str()));
        push_field(&mut v, QueryField::text("interval", self.interval.wire_name()));
        push_field(&mut v, QueryField::opt_signed("startTime", self.start_time));
        push_field(&mut v, QueryField::opt_signed("endTime", self.end_time));
        push_field(&mut v, QueryField::opt_unsigned("limit", self.limit));
        v
    }
}

/// A single symbol.
#[derive(Debug, Clone)]
pub struct PSymbol {
    pub symbol: String,
}

impl QueryParams for PSymbol {
    open spec fn spec_fields(&self) -> Seq<FieldModel> {
        seq![
            text_field("symbol"@, self.symbol@),
        ]
    }

    fn fields(&self) -> (v: Vec<QueryField>) {
        let mut v: Vec<QueryField> = Vec::new();
        push_field(&mut v, QueryField::text("symbol", self.symbol.as_str()));
        v
    }
}

/// Parameters of a funding-rate history query.
#[derive(Debug, Clone)]
pub struct PFundingRate {
    pub symbol: Option<String>,
    pub start_time: Option<i64>,
    pub end_time: Option<i64>,
    pub limit: Option<usize>,
}

impl QueryParams for PFundingRate {
    open spec fn spec_fields(&self) -> Seq<FieldModel> {
        seq![
            opt_text_field("symbol"@, opt_string_view(self.symbol)),
            opt_number_field(
                "startTime"@,
                match self.start_time {
                    Some(x) => Some(x as int),
                    None => None,
                },
            ),
            opt_number_field(
                "endTime"@,
                match self.end_time {
                    Some(x) => Some(x as int),
                    None => None,
                },
            ),
            opt_number_field(
                "limit"@,
                match self.limit {
                    Some(x) => Some(x as int),
                    None => None,
                },
            ),
        ]
    }

    fn fields(&self) -> (v: Vec<QueryField>) {
        let mut v: Vec<QueryField> = Vec::new();
        push_field(&mut v, QueryField::opt_string("symbol", &self.symbol));
        push_field(&mut v, QueryField::opt_signed("startTime", self.start_time));
        push_field(&mut v, QueryField::opt_signed("endTime", self.end_time));
        push_field(&mut v, QueryField::opt_unsigned("limit", self.limit));
        v
    }
}

/// Parameters of a liquidation-orders query.
#[derive(Debug, Clone)]
pub struct PForceOrder {
    pub symbol: Option<String>,
    pub start_time: Option<i64>,
    pub end_time: Option<i64>,
    pub limit: Option<usize>,
}

impl QueryParams for PForceOrder {
    open spec fn spec_fields(&self) -> Seq<FieldModel> {
        seq![
            opt_text_field("symbol"@, opt_string_view(self.symbol)),
            opt_number_field(
                "startTime"@,
                match self.start_time {
                    Some(x) => Some(x as int),
                    None => None,
                },
            ),
            opt_number_field(
                "endTime"@,
                match self.end_time {
                    Some(x) => Some(x as int),
                    None => None,
                },
            ),
            opt_number_field(
                "limit"@,
                match self.limit {
                    Some(x) => Some(x as int),
                    None => None,
                },
            ),
        ]
    }

    fn fields(&self) -> (v: Vec<QueryField>) {
        let mut v: Vec<QueryField> = Vec::new();
        push_field(&mut v, QueryField::opt_string("symbol", &self.symbol));
        push_field(&mut v, QueryField::opt_signed("startTime", self.start_time));
        push_field(&mut v, QueryField::opt_signed("endTime", self.end_time));
        push_field(&mut v, QueryField::opt_unsigned("limit", self.limit));
        v
    }
}

/// Parameters of the futures statistics queries.
#[derive(Debug, Clone)]
pub struct PFutures {
    pub symbol: String,
    pub period: Interval,
    pub limit: Option<usize>,
    pub start_time: Option<i64>,
    pub end_time: Option<i64>,
}

impl QueryParams for PFutures {
    open spec fn spec_fields(&self) -> Seq<FieldModel> {
        seq![
            text_field("symbol"@, self.symbol@),
            text_field("period"@, self.period.spec_wire_name()),
            opt_number_field(
                "limit"@,
                match self.limit {
                    Some(x) => Some(x as int),
                    None => None,
                },
            ),
            opt_number_field(
                "startTime"@,
                match self.start_time {
                    Some(x) => Some(x as int),
                    None => None,
                },
            ),
            opt_number_field(
                "endTime"@,
                match self.end_time {
                    Some(x) => Some(x as int),
                    None => None,
                },
            ),
        ]
    }

    fn fields(&self) -> (v: Vec<QueryField>) {
        let mut v: Vec<QueryField> = Vec::new();
        push_field(&mut v, QueryField::text("symbol", self.symbol.as_str()));
        push_field(&mut v, QueryField::text("period", self.period.wire_name()));
        push_field(&mut v, QueryField::opt_unsigned("limit", self.limit));
        push_field(&mut v, QueryField::opt_signed("startTime", self.start_time));
        push_field(&mut v, QueryField::opt_signed("endTime", self.end_time));
        v
    }
}

/// Parameters of a leveraged-token candlestick query.
#[derive(Debug, Clone)]
pub struct PLvtKlines {
    pub symbol: String,
    pub interval: Interval,
    pub limit: Option<usize>,
    pub start_time: Option<i64>,
    pub end_time: Option<i64>,
}

impl QueryParams for PLvtKlines {
    open spec fn spec_fields(&self) -> Seq<FieldModel> {
        seq![
            text_field("symbol"@, self.symbol@),
            text_field("interval"@, self.interval.spec_wire_name()),
            opt_number_field(
                "limit"@,
                match self.limit {
                    Some(x) => Some(x as int),
                    None => None,
                },
            ),
            opt_number_field(
                "startTime"@,
                match self.start_time {
                    Some(x) => Some(x as int),
                    None => None,
                },
            ),
            opt_number_field(
                "endTime"@,
                match self.end_time {
                    Some(x) => Some(x as int),
                    None => None,
                },
            ),
        ]
    }

    fn fields(&self) -> (v: Vec<QueryField>) {
        let mut v: Vec<QueryField> = Vec::new();
        push_field(&mut v, QueryField::text("symbol", self.symbol.as_str()));
        push_field(&mut v, QueryField::text("interval", self.interval.wire_name()));
        push_field(&mut v, QueryField::opt_unsigned("limit", self.limit));
        push_field(&mut v, QueryField::opt_signed("startTime", self.start_time));
        push_field(&mut v, QueryField::opt_signed("endTime", self.end_time));
        v
    }
}

/// The fields that every signed call carries: an optional receive window and the
/// time of the call in milliseconds.
#[derive(Debug, Clone)]
pub struct PTimestamp {
    pub recv_window: Option<i64>,
    pub timestamp: i64,
}

/// The fields of a call made at a given time without a receive window: an
/// absent `recvWindow` and the `timestamp`.
pub open spec fn stamp_fields(timestamp: i64) -> Seq<FieldModel> {
    seq![opt_number_field("recvWindow"@, None), number_field("timestamp"@, timestamp as int)]
}

impl PTimestamp {
    /// The fields of a call made now, without a receive window. The time is
    /// whatever the clock says; see [`PTimestamp::at`] for what is made of
    /// it.
    pub fn now() -> (ts: PTimestamp)
        ensures
            ts.recv_window is None,
    {
        PTimestamp::at(utc_millis())
    }

    /// The fields of a call made at the given time, in milliseconds since the
    /// Unix epoch, without a receive window.
    pub fn at(timestamp: i64) -> (ts: PTimestamp)
        ensures
            ts.timestamp == timestamp,
            ts.recv_window is None,
    {
        PTimestamp { timestamp, recv_window: None }
    }
}

impl QueryParams for PTimestamp {
    open spec fn spec_fields(&self) -> Seq<FieldModel> {
        seq![
            opt_number_field(
                "recvWindow"@,
                match self.recv_window {
                    Some(x) => Some(x as int),
                    None => None,
                },
            ),
            number_field("timestamp"@, self.timestamp as int),
        ]
    }

    fn fields(&self) -> (v: Vec<QueryField>) {
        let mut v: Vec<QueryField> = Vec::new();
        push_field(&mut v, QueryField::opt_signed("recvWindow", self.recv_window));
        push_field(&mut v, QueryField::signed("timestamp", self.timestamp));
        v
    }
}

/// Parameters for switching the position mode.
#[derive(Debug, Clone)]
pub struct PPositionSideDual {
    pub dual_side_position: bool,
    pub ts: PTimestamp,
}

impl QueryParams for PPositionSideDual {
    open spec fn spec_fields(&self) -> Seq<FieldModel> {
        seq![
            flag_field("dualSidePosition"@, self.dual_side_position),
        ]
            + self.ts.spec_fields()
    }

    fn fields(&self) -> (v: Vec<QueryField>) {
        let mut v: Vec<QueryField> = Vec::new();
        push_field(&mut v, QueryField::flag("dualSidePosition", self.dual_side_position));
        push_all(&mut v, self.ts.fields());
        v
    }
}

/// Parameters that identify one order.
#[derive(Debug, Clone)]
pub struct PQueryOrder {
    pub symbol: String,
    pub order_id: Option<usize>,
    pub orig_client_order_id: Option<String>,
    pub ts: PTimestamp,
}

impl QueryParams for PQueryOrder {
    open spec fn spec_fields(&self) -> Seq<FieldModel> {
        seq![
            text_field("symbol"@, self.symbol@),
            opt_number_field(
                "orderId"@,
                match self.order_id {
                    Some(x) => Some(x as int),
                    None => None,
                },
            ),
            opt_text_field("origClientOrderId"@, opt_string_view(self.orig_client_order_id)),
        ]
            + self.ts.spec_fields()
    }

    fn fields(&self) -> (v: Vec<QueryField>) {
        let mut v: Vec<QueryField> = Vec::new();
        push_field(&mut v, QueryField::text("symbol", self.symbol.as_str()));
        push_field(&mut v, QueryField::opt_unsigned("orderId", self.order_id));
        push_field(&mut v, QueryField::opt_string("origClientOrderId", &self.orig_client_order_id));
        push_all(&mut v, self.ts.fields());
        v
    }
}

/// A symbol in a signed call.
#[derive(Debug, Clone)]
pub struct PSymbolWithTs {
    pub symbol: String,
    pub ts: PTimestamp,
}

impl QueryParams for PSymbolWithTs {
    open spec fn spec_fields(&self) -> Seq<FieldModel> {
        seq![
            text_field("symbol"@, self.symbol@),
        ]
            + self.ts.spec_fields()
    }

    fn fields(&self) -> (v: Vec<QueryField>) {
        let mut v: Vec<QueryField> = Vec::new();
        push_field(&mut v, QueryField::text("symbol", self.symbol.as_str()));
        push_all(&mut v, self.ts.fields());
        v
    }
}

/// Parameters for cancelling several orders at once.
#[derive(Debug, Clone)]
pub struct PBatchCancelOrder {
    pub symbol: String,
    pub order_id_list: Vec<usize>,
    pub orig_client_order_id_list: Vec<String>,
    pub ts: PTimestamp,
}

impl QueryParams for PBatchCancelOrder {
    open spec fn spec_fields(&self) -> Seq<FieldModel> {
        seq![
            text_field("symbol"@, self.symbol@),
        ]
            + number_items("orderIdList"@, usize_values(self.order_id_list@))
            + text_items("origClientOrderIdList"@, string_views(self.orig_client_order_id_list@))
            + self.ts.spec_fields()
    }

    fn fields(&self) -> (v: Vec<QueryField>) {
        let mut v: Vec<QueryField> = Vec::new();
        push_field(&mut v, QueryField::text("symbol", self.symbol.as_str()));
        push_uint_items(&mut v, "orderIdList", &self.order_id_list);
        push_text_items(&mut v, "origClientOrderIdList", &self.orig_client_order_id_list);
        push_all(&mut v, self.ts.fields());
        v
    }
}

/// Parameters of the countdown that cancels all orders.
#[derive(Debug, Clone)]
pub struct PCountdownCancel {
    pub symbol: String,
    pub countdown_time: i64,
    pub ts: PTimestamp,
}

impl QueryParams for PCountdownCancel {
    open spec fn spec_fields(&self) -> Seq<FieldModel> {
        seq![
            text_field("symbol"@, self.symbol@),
            number_field("countdownTime"@, self.countdown_time as int),
        ]
            + self.ts.spec_fields()
    }

    fn fields(&self) -> (v: Vec<QueryField>) {
        let mut v: Vec<QueryField> = Vec::new();
        push_field(&mut v, QueryField::text("symbol", self.symbol.as_str()));
        push_field(&mut v, QueryField::signed("countdownTime", self.countdown_time));
        push_all(&mut v, self.ts.fields());
        v
    }
}

/// An optional symbol in a signed call.
#[derive(Debug, Clone)]
pub struct POptionSymbolQuery {
    pub symbol: Option<String>,
    pub ts: PTimestamp,
}

impl QueryParams for POptionSymbolQuery {
    open spec fn spec_fields(&self) -> Seq<FieldModel> {
        seq![
            opt_text_field("symbol"@, opt_string_view(self.symbol)),
        ]
            + self.ts.spec_fields()
    }

    fn fields(&self) -> (v: Vec<QueryField>) {
        let mut v: Vec<QueryField> = Vec::new();
        push_field(&mut v, QueryField::opt_string("symbol", &self.symbol));
        push_all(&mut v, self.ts.fields());
        v
    }
}

/// Parameters of an order-history query.
#[derive(Debug, Clone)]
pub struct PHistOrder {
    pub symbol: String,
    pub order_id: Option<usize>,
    pub start_time: Option<i64>,
    pub end_time: Option<i64>,
    pub limit: Option<usize>,
    pub ts: PTimestamp,
}

impl QueryParams for PHistOrder {
    open spec fn spec_fields(&self) -> Seq<FieldModel> {
        seq![
            text_field("symbol"@, self.symbol@),
            opt_number_field(
                "orderId"@,
                match self.order_id {
                    Some(x) => Some(x as int),
                    None => None,
                },
            ),
            opt_number_field(
                "startTime"@,
                match self.start_time {
                    Some(x) => Some(x as int),
                    None => None,
                },
            ),
            opt_number_field(
                "endTime"@,
                match self.end_time {
                    Some(x) => Some(x as int),
                    None => None,
                },
            ),
            opt_number_field(
                "limit"@,
                match self.limit {
                    Some(x) => Some(x as int),
                    None => None,
                },
            ),
        ]
            + self.ts.spec_fields()
    }

    fn fields(&self) -> (v: Vec<QueryField>) {
        let mut v: Vec<QueryField> = Vec::new();
        push_field(&mut v, QueryField::text("symbol", self.symbol.as_str()));
        push_field(&mut v, QueryField::opt_unsigned("orderId", self.order_id));
        push_field(&mut v, QueryField::opt_signed("startTime", self.start_time));
        push_field(&mut v, QueryField::opt_signed("endTime", self.end_time));
        push_field(&mut v, QueryField::opt_unsigned("limit", self.limit));
        push_all(&mut v, self.ts.fields());
        v
    }
}

/// Parameters for changing the leverage of a symbol.
#[derive(Debug, Clone)]
pub struct PLeverage {
    pub symbol: String,
    pub leverage: usize,
    pub ts: PTimestamp,
}

impl QueryParams for PLeverage {
    open spec fn spec_fields(&self) -> Seq<FieldModel> {
        seq![
            text_field("symbol"@, self.symbol@),
            number_field("leverage"@, self.leverage as int),
        ]
            + self.ts.spec_fields()
    }

    fn fields(&self) -> (v: Vec<QueryField>) {
        let mut v: Vec<QueryField> = Vec::new();
        push_field(&mut v, QueryField::text("symbol", self.symbol.as_str()));
        push_field(&mut v, QueryField::unsigned("leverage", self.leverage));
        push_all(&mut v, self.ts.fields());
        v
    }
}

/// Parameters for changing the margin type of a symbol.
#[derive(Debug, Clone)]
pub struct PMarginType {
    pub symbol: String,
    pub margin_type: MarginType,
    pub ts: PTimestamp,
}

impl QueryParams for PMarginType {
    open spec fn spec_fields(&self) -> Seq<FieldModel> {
        seq![
            text_field("symbol"@, self.symbol@),
            text_field("marginType"@, self.margin_type.spec_wire_name()),
        ]
            + self.ts.spec_fields()
    }

    fn fields(&self) -> (v: Vec<QueryField>) {
        let mut v: Vec<QueryField> = Vec::new();
        push_field(&mut v, QueryField::text("symbol", self.symbol.as_str()));
        push_field(&mut v, QueryField::text("marginType", self.margin_type.wire_name()));
        push_all(&mut v, self.ts.fields());
        v
    }
}

/// Parameters of a margin-change history query.
#[derive(Debug, Clone)]
pub struct PPositionMarginHist {
    pub symbol: String,
    pub position_side: Option<PositionDirect>,
    pub start_time: Option<i64>,
    pub end_time: Option<i64>,
    pub limit: Option<usize>,
    pub margin_type: usize,
    pub ts: PTimestamp,
}

impl QueryParams for PPositionMarginHist {
    open spec fn spec_fields(&self) -> Seq<FieldModel> {
        seq![
            text_field("symbol"@, self.symbol@),
            opt_text_field(
                "positionSide"@,
                match self.position_side {
                    Some(x) => Some(x.spec_wire_name()),
                    None => None,
                },
            ),
            opt_number_field(
                "startTime"@,
                match self.start_time {
                    Some(x) => Some(x as int),
                    None => None,
                },
            ),
            opt_number_field(
                "endTime"@,
                match self.end_time {
                    Some(x) => Some(x as int),
                    None => None,
                },
            ),
            opt_number_field(
                "limit"@,
                match self.limit {
                    Some(x) => Some(x as int),
                    None => None,
                },
            ),
            number_field("type"@, self.margin_type as int),
        ]
            + self.ts.spec_fields()
    }

    fn fields(&self) -> (v: Vec<QueryField>) {
        let mut v: Vec<QueryField> = Vec::new();
        push_field(&mut v, QueryField::text("symbol", self.symbol.as_str()));
        push_field(
            &mut v,
            QueryField::opt_text(
                "positionSide",
                match &self.position_side {
                    Some(x) => Some(x.wire_name()),
                    None => None,
                },
            ),
        );
        push_field(&mut v, QueryField::opt_signed("startTime", self.start_time));
        push_field(&mut v, QueryField::opt_signed("endTime", self.end_time));
        push_field(&mut v, QueryField::opt_unsigned("limit", self.limit));
        push_field(&mut v, QueryField::unsigned("type", self.margin_type));
        push_all(&mut v, self.ts.fields());
        v
    }
}

/// What an order asks for. Prices, quantities and rates are given as decimal text,
/// exactly as they are to be written.
#[derive(Debug, Clone)]
pub struct POrderSpec {
    pub symbol: String,
    pub side: OrderSide,
    pub position_side: Option<PositionDirect>,
    pub order_type: OrderType,
    pub reduce_only: Option<bool>,
    pub quantity: Option<String>,
    pub price: Option<String>,
    pub new_client_order_id: Option<String>,
    pub stop_price: Option<String>,
    pub close_position: Option<String>,
    pub activation_price: Option<String>,
    pub callback_rate: Option<String>,
    pub time_in_force: Option<TimeInForce>,
    pub working_type: Option<String>,
    pub price_protect: Option<String>,
    pub new_order_resp_type: Option<String>,
}

impl QueryParams for POrderSpec {
    open spec fn spec_fields(&self) -> Seq<FieldModel> {
        seq![
            text_field("symbol"@, self.symbol@),
            text_field("side"@, self.side.spec_wire_name()),
            opt_text_field(
                "positionSide"@,
                match self.position_side {
                    Some(x) => Some(x.spec_wire_name()),
                    None => None,
                },
            ),
            text_field("type"@, self.order_type.spec_wire_name()),
            opt_flag_field("reduceOnly"@, self.reduce_only),
            opt_text_field("quantity"@, opt_string_view(self.quantity)),
            opt_text_field("price"@, opt_string_view(self.price)),
            opt_text_field("newClientOrderId"@, opt_string_view(self.new_client_order_id)),
            opt_text_field("stopPrice"@, opt_string_view(self.stop_price)),
            opt_text_field("closePosition"@, opt_string_view(self.close_position)),
            opt_text_field("activationPrice"@, opt_string_view(self.activation_price)),
            opt_text_field("callbackRate"@, opt_string_view(self.callback_rate)),
            opt_text_field(
                "timeInForce"@,
                match self.time_in_force {
                    Some(x) => Some(x.spec_wire_name()),
                    None => None,
                },
            ),
            opt_text_field("workingType"@, opt_string_view(self.working_type)),
            opt_text_field("priceProtect"@, opt_string_view(self.price_protect)),
            opt_text_field("newOrderRespType"@, opt_string_view(self.new_order_resp_type)),
        ]
    }

    fn fields(&self) -> (v: Vec<QueryField>) {
        let mut v: Vec<QueryField> = Vec::new();
        push_field(&mut v, QueryField::text("symbol", self.symbol.as_str()));
        push_field(&mut v, QueryField::text("side", self.side.wire_name()));
        push_field(
            &mut v,
            QueryField::opt_text(
                "positionSide",
                match &self.position_side {
                    Some(x) => Some(x.wire_name()),
                    None => None,
                },
            ),
        );
        push_field(&mut v, QueryField::text("type", self.order_type.wire_name()));
        push_field(&mut v, QueryField::opt_flag("reduceOnly", self.reduce_only));
        push_field(&mut v, QueryField::opt_string("quantity", &self.quantity));
        push_field(&mut v, QueryField::opt_string("price", &self.price));
        push_field(&mut v, QueryField::opt_string("newClientOrderId", &self.new_client_order_id));
        push_field(&mut v, QueryField::opt_string("stopPrice", &self.stop_price));
        push_field(&mut v, QueryField::opt_string("closePosition", &self.close_position));
        push_field(&mut v, QueryField::opt_string("activationPrice", &self.activation_price));
        push_field(&mut v, QueryField::opt_string("callbackRate", &self.callback_rate));
        push_field(
            &mut v,
            QueryField::opt_text(
                "timeInForce",
                match &self.time_in_force {
                    Some(x) => Some(x.wire_name()),
                    None => None,
                },
            ),
        );
        push_field(&mut v, QueryField::opt_string("workingType", &self.working_type));
        push_field(&mut v, QueryField::opt_string("priceProtect", &self.price_protect));
        push_field(&mut v, QueryField::opt_string("newOrderRespType", &self.new_order_resp_type));
        v
    }
}

/// A new order in a signed call.
#[derive(Debug, Clone)]
pub struct POrder {
    pub spec: POrderSpec,
    pub ts: PTimestamp,
}

impl QueryParams for POrder {
    open spec fn spec_fields(&self) -> Seq<FieldModel> {
        self.spec.spec_fields()
            + self.ts.spec_fields()
    }

    fn fields(&self) -> (v: Vec<QueryField>) {
        let mut v: Vec<QueryField> = Vec::new();
        push_all(&mut v, self.spec.fields());
        push_all(&mut v, self.ts.fields());
        v
    }
}

/// Several new orders in one signed call; each order is written as a record of the
/// list `batchOrders`.
#[derive(Debug, Clone)]
pub struct PBatchOrder {
    pub batch_orders: Vec<POrderSpec>,
    pub ts: PTimestamp,
}

impl QueryParams for PBatchOrder {
    open spec fn spec_fields(&self) -> Seq<FieldModel> {
        nested_records("batchOrders"@, record_fields(self.batch_orders@))
            + self.ts.spec_fields()
    }

    fn fields(&self) -> (v: Vec<QueryField>) {
        let mut v: Vec<QueryField> = Vec::new();
        push_records(&mut v, "batchOrders", &self.batch_orders);
        push_all(&mut v, self.ts.fields());
        v
    }
}

/// Parameters for changing the margin of an isolated position. The amount is given
/// as decimal text.
#[derive(Debug, Clone)]
pub struct PPositionMargin {
    pub symbol: String,
    pub position_side: Option<PositionDirect>,
    pub amount: String,
    pub margin_type: usize,
    pub ts: PTimestamp,
}

impl QueryParams for PPositionMargin {
    open spec fn spec_fields(&self) -> Seq<FieldModel> {
        seq![
            text_field("symbol"@, self.symbol@),
            opt_text_field(
                "positionSide"@,
                match self.position_side {
                    Some(x) => Some(x.spec_wire_name()),
                    None => None,
                },
            ),
            text_field("amount"@, self.amount@),
            number_field("type"@, self.margin_type as int),
        ]
            + self.ts.spec_fields()
    }

    fn fields(&self) -> (v: Vec<QueryField>) {
        let mut v: Vec<QueryField> = Vec::new();
        push_field(&mut v, QueryField::text("symbol", self.symbol.as_str()));
        push_field(
            &mut v,
            QueryField::opt_text(
                "positionSide",
                match &self.position_side {
                    Some(x) => Some(x.wire_name()),
                    None => None,
                },
            ),
        );
        push_field(&mut v, QueryField::text("amount", self.amount.as_str()));
        push_field(&mut v, QueryField::unsigned("type", self.margin_type));
        push_all(&mut v, self.ts.fields());
        v
    }
}

/// Parameters of an account-trades query.
#[derive(Debug, Clone)]
pub struct PUserTrade {
    pub symbol: String,
    pub start_time: Option<i64>,
    pub end_time: Option<i64>,
    pub from_id: Option<usize>,
    pub limit: Option<usize>,
    pub ts: PTimestamp,
}

impl QueryParams for PUserTrade {
    open spec fn spec_fields(&self) -> Seq<FieldModel> {
        seq![
            text_field("symbol"@, self.symbol@),
            opt_number_field(
                "startTime"@,
                match self.start_time {
                    Some(x) => Some(x as int),
                    None => None,
                },
            ),
            opt_number_field(
                "endTime"@,
                match self.end_time {
                    Some(x) => Some(x as int),
                    None => None,
                },
            ),
            opt_number_field(
                "fromId"@,
                match self.from_id {
                    Some(x) => Some(x as int),
                    None => None,
                },
            ),
            opt_number_field(
                "limit"@,
                match self.limit {
                    Some(x) => Some(x as int),
                    None => None,
                },
            ),
        ]
            + self.ts.spec_fields()
    }

    fn fields(&self) -> (v: Vec<QueryField>) {
        let mut v: Vec<QueryField> = Vec::new();
        push_field(&mut v, QueryField::text("symbol", self.symbol.as_str()));
        push_field(&mut v, QueryField::opt_signed("startTime", self.start_time));
        push_field(&mut v, QueryField::opt_signed("endTime", self.end_time));
        push_field(&mut v, QueryField::opt_unsigned("fromId", self.from_id));
        push_field(&mut v, QueryField::opt_unsigned("limit", self.limit));
        push_all(&mut v, self.ts.fields());
        v
    }
}

} // verus!
