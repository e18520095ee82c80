//! The shapes of the answers that carry no fractional numbers, and the
//! envelope of the combined streams.

use vstd::prelude::*;
use crate::error::BianResult;

verus! {

/// An answer without content.
#[derive(Debug, Clone)]
pub struct EmptyResponse(pub Vec<(String, String)>);

/// The answer to a connectivity test.
#[derive(Debug, Clone)]
pub struct Ping(pub Vec<(String, String)>);

/// The server's clock, in milliseconds.
#[derive(Debug, Clone)]
pub struct ServerTime {
    pub server_time: i64,
}

/// One rate limit of the exchange.
#[derive(Debug, Clone)]
pub struct RateLimit {
    pub interval: String,
    pub interval_num: usize,
    pub limit: usize,
    pub rate_limit_type: String,
}

/// A numeric code with its message.
#[derive(Debug, Clone)]
pub struct CodeResponse {
    pub code: usize,
    pub msg: String,
}

/// An order book of a futures symbol; prices and quantities are kept as the
/// decimal text the exchange sent.
#[derive(Debug, Clone)]
pub struct Depth {
    pub last_update_id: usize,
    pub e: usize,
    pub t: usize,
    pub bids: Vec<(String, String)>,
    pub asks: Vec<(String, String)>,
}

/// An order book of a futures symbol; prices and quantities are kept as the
/// decimal text the exchange sent.
#[derive(Debug, Clone)]
pub struct FuturesDepth {
    pub last_update_id: usize,
    pub e: usize,
    pub t: usize,
    pub bids: Vec<(String, String)>,
    pub asks: Vec<(String, String)>,
}

/// An order book of a spot symbol.
#[derive(Debug, Clone)]
pub struct SpotDepth {
    pub last_update_id: usize,
    pub bids: Vec<(String, String)>,
    pub asks: Vec<(String, String)>,
}

/// One candlestick, in the order of the wire: open time, open, high, low,
/// close, volume, close time, quote volume, number of trades, taker buy base
/// volume, taker buy quote volume, and an unused field.
#[derive(Debug, Clone)]
pub struct Kline(
    pub i64,
    pub String,
    pub String,
    pub String,
    pub String,
    pub String,
    pub i64,
    pub String,
    pub usize,
    pub String,
    pub String,
    pub String,
);

/// The position mode of an account.
#[derive(Debug, Clone)]
pub struct PositionSide {
    pub dual_side_position: bool,
}

/// The acknowledgement of a new spot order.
#[derive(Debug, Clone)]
pub struct SpotOrderAck {
    pub symbol: String,
    pub order_id: usize,
    pub order_list_id: i64,
    pub client_order_id: String,
    pub transact_time: i64,
}

/// One leg of a one-cancels-the-other order.
#[derive(Debug, Clone)]
pub struct OcoOrderDesc {
    pub symbol: String,
    pub order_id: usize,
    pub client_order_id: String,
}

/// The countdown after which all orders of a symbol are cancelled.
#[derive(Debug, Clone)]
pub struct CountdownCancel {
    pub symbol: String,
    pub countdown_time: usize,
}

/// The token of a user-data stream.
#[derive(Debug, Clone)]
pub struct ListenKey {
    pub listen_key: String,
}

/// An incremental order-book update from a stream.
#[derive(Debug, Clone)]
pub struct WSDepth {
    pub event_type: String,
    pub event_time: i64,
    pub trade_time: i64,
    pub symbol: String,
    pub update_id: usize,
    pub upper_u: usize,
    pub pu: usize,
    pub buy: Vec<(String, String)>,
    pub sell: Vec<(String, String)>,
}

/// The notice that a listen key has expired.
#[derive(Debug, Clone)]
pub struct WSListenKeyExpired {
    pub event_type: String,
    pub event_time: i64,
}

/// The new leverage of a symbol.
#[derive(Debug, Clone)]
pub struct WSLeverageEvent {
    pub symbol: String,
    pub leverage: usize,
}

/// The notice that the leverage of a symbol has changed.
#[derive(Debug, Clone)]
pub struct WSLeverageUpdate {
    pub event_type: String,
    pub event_time: i64,
    pub trade_matching_time: i64,
    pub event: WSLeverageEvent,
}

/// The envelope of a combined stream: the topic a message came from, and the
/// message.
#[derive(Debug, Clone)]
pub struct MultiResponse<R> {
    pub stream: String,
    pub data: R,
}

impl<R> MultiResponse<R> {
    /// Drops the topic and hands out the message.
    pub fn into_data(self) -> (data: R)
        ensures
            data == self.data,
    {
        self.data
    }
}

/// A channel that delivers messages of type `R`.
pub trait WebsocketResponse<R> {
    /// Reads the next message of a single-topic channel.
    fn read_stream_single(&mut self) -> BianResult<R>;

    /// Reads the next message of a combined channel and unwraps its
    /// envelope.
    fn read_stream_multi(&mut self) -> BianResult<R>;

    /// Closes the channel.
    fn close_stream(&mut self);
}

} // verus!
