//! The clients of the spot segment.

use vstd::prelude::*;
use vstd::string::*;
use crate::enums::{Interval, Method};
use crate::error::{BianResult, Failure};
use crate::http::{build_request, checked_base_url, is_request_for, url_parse, HttpRequest};
use crate::params::{
    PAggTrade, PDepth, PHistOrder, PHistoricalTrade, PKline, POptionSymbolQuery, PQueryOrder,
    PSymbol, PSymbolWithTs, PTimestamp, PTrade, PUserTrade,
};
use crate::query::{canonical, field_models, string_views, FieldModel, QueryField, QueryParams};
use crate::sign::{sign_fields, signature_text};
use crate::stream::{
    combined_path_text, is_subscription_at, kline_channel, kline_channel_text, single_path_text,
    subscribe_multi, subscribe_single, StreamMode, StreamSubscription,
};

verus! {

/// The REST client of the spot segment.
///
/// The client holds the credentials and the endpoint, and nothing that
/// changes: every method only reads it, so any number of calls may be
/// prepared at the same time.
#[derive(Debug, Clone)]
pub struct SpotHttpClient {
    /// Sent with every call; identifies the caller.
    pub api_key: String,
    /// Never sent; keys the signatures.
    pub secret_key: String,
    /// The serialized base URL of the endpoint.
    pub base_url: String,
}

impl SpotHttpClient {
    /// A client for the endpoint at `base_url`; fails with `InvalidUrl`,
    /// carrying the text, when that is no absolute URL.
    pub fn new(api_key: &str, secret_key: &str, base_url: &str) -> (res: BianResult<SpotHttpClient>)
        ensures
            match res {
                Ok(c) => c.api_key@ == api_key@ && c.secret_key@ == secret_key@ && url_parse(
                    base_url@,
                ) == Some(c.base_url@),
                Err(e) => url_parse(base_url@) is None && e@ == Failure::InvalidUrl(base_url@),
            },
    {
        match checked_base_url(base_url) {
            Ok(base_url) => Ok(
                SpotHttpClient {
                    api_key: String::from_str(api_key),
                    secret_key: String::from_str(secret_key),
                    base_url,
                },
            ),
            Err(e) => Err(e),
        }
    }

    /// What a call of this client owes: see [`is_request_for`].
    pub open spec fn owes(
        &self,
        res: BianResult<HttpRequest>,
        method: Method,
        path: Seq<char>,
        fields: Seq<FieldModel>,
    ) -> bool {
        is_request_for(res, self.base_url@, self.api_key@, self.secret_key@, method, path, fields)
    }

    /// The signature of a parameter value under the secret of this client.
    pub fn sign<P: QueryParams>(&self, params: &P) -> (sig: String)
        ensures
            sig@ == signature_text(self.secret_key@, canonical(params.spec_fields())),
            sig@.len() == 64,
    {
        let fields = params.fields();
        sign_fields(self.secret_key.as_str(), &fields)
    }

    /// The request of one call: the single place where every call of this
    /// client is assembled.
    pub fn request(&self, method: Method, path: &str, fields: &Vec<QueryField>) -> (res: BianResult<
        HttpRequest,
    >)
        ensures
            self.owes(res, method, path@, field_models(fields@)),
    {
        build_request(
            self.base_url.as_str(),
            self.api_key.as_str(),
            self.secret_key.as_str(),
            method,
            path,
            fields,
        )
    }

    /// The request of a signed call that carries nothing but its time and,
    /// if one is set, its receive window.
    pub fn stamped_request(
        &self,
        method: Method,
        path: &str,
        ts: PTimestamp,
    ) -> (res: BianResult<HttpRequest>)
        ensures
            self.owes(res, method, path@, ts.spec_fields()),
    {
        let fields = ts.fields();
        self.request(method, path, &fields)
    }

    /// Tests the connection to the server.
    pub fn ping(&self) -> (res: BianResult<HttpRequest>)
        ensures
            self.owes(res, Method::GET, "api/v3/ping"@, Seq::empty()),
    {
        let fields: Vec<QueryField> = Vec::new();
        self.request(Method::GET, "api/v3/ping", &fields)
    }

    /// Asks for the server's time.
    pub fn server_time(&self) -> (res: BianResult<HttpRequest>)
        ensures
            self.owes(res, Method::GET, "api/v3/time"@, Seq::empty()),
    {
        let fields: Vec<QueryField> = Vec::new();
        self.request(Method::GET, "api/v3/time", &fields)
    }

    /// Asks for the trading rules and the symbols.
    pub fn exchange_info(&self) -> (res: BianResult<HttpRequest>)
        ensures
            self.owes(res, Method::GET, "api/v3/exchangeInfo"@, Seq::empty()),
    {
        let fields: Vec<QueryField> = Vec::new();
        self.request(Method::GET, "api/v3/exchangeInfo", &fields)
    }

    /// Asks for the order book of a symbol.
    pub fn depth(&self, param: PDepth) -> (res: BianResult<HttpRequest>)
        ensures
            self.owes(res, Method::GET, "api/v3/depth"@, param.spec_fields()),
    {
        let fields = param.fields();
        self.request(Method::GET, "api/v3/depth", &fields)
    }

    /// Asks for the latest trades.
    pub fn trades(&self, param: PTrade) -> (res: BianResult<HttpRequest>)
        ensures
            self.owes(res, Method::GET, "api/v3/trades"@, param.spec_fields()),
    {
        let fields = param.fields();
        self.request(Method::GET, "api/v3/trades", &fields)
    }

    /// Asks for older trades.
    pub fn historical_trades(&self, param: PHistoricalTrade) -> (res: BianResult<HttpRequest>)
        ensures
            self.owes(res, Method::GET, "api/v3/historicalTrades"@, param.spec_fields()),
    {
        let fields = param.fields();
        self.request(Method::GET, "api/v3/historicalTrades", &fields)
    }

    /// Asks for the latest aggregated trades.
    pub fn agg_trades(&self, param: PAggTrade) -> (res: BianResult<HttpRequest>)
        ensures
            self.owes(res, Method::GET, "api/v3/aggTrades"@, param.spec_fields()),
    {
        let fields = param.fields();
        self.request(Method::GET, "api/v3/aggTrades", &fields)
    }

    /// Asks for candlesticks.
    pub fn klines(&self, param: PKline) -> (res: BianResult<HttpRequest>)
        ensures
            self.owes(res, Method::GET, "api/v3/klines"@, param.spec_fields()),
    {
        let fields = param.fields();
        self.request(Method::GET, "api/v3/klines", &fields)
    }

    /// Asks for the current average price.
    pub fn avg_price(&self, param: PSymbol) -> (res: BianResult<HttpRequest>)
        ensures
            self.owes(res, Method::GET, "api/v3/avgPrice"@, param.spec_fields()),
    {
        let fields = param.fields();
        self.request(Method::GET, "api/v3/avgPrice", &fields)
    }

    /// Asks for the price change of a symbol over 24 hours.
    pub fn h24_ticker(&self, param: PSymbol) -> (res: BianResult<HttpRequest>)
        ensures
            self.owes(res, Method::GET, "api/v3/ticker/24hr"@, param.spec_fields()),
    {
        let fields = param.fields();
        self.request(Method::GET, "api/v3/ticker/24hr", &fields)
    }

    /// Asks for the price change of every symbol over 24 hours.
    pub fn h24_tickers(&self) -> (res: BianResult<HttpRequest>)
        ensures
            self.owes(res, Method::GET, "api/v3/ticker/24hr"@, Seq::empty()),
    {
        let fields: Vec<QueryField> = Vec::new();
        self.request(Method::GET, "api/v3/ticker/24hr", &fields)
    }

    /// Asks for the latest price of a symbol.
    pub fn price(&self, param: PSymbol) -> (res: BianResult<HttpRequest>)
        ensures
            self.owes(res, Method::GET, "api/v3/ticker/price"@, param.spec_fields()),
    {
        let fields = param.fields();
        self.request(Method::GET, "api/v3/ticker/price", &fields)
    }

    /// Asks for the latest price of every symbol.
    pub fn prices(&self) -> (res: BianResult<HttpRequest>)
        ensures
            self.owes(res, Method::GET, "api/v3/ticker/price"@, Seq::empty()),
    {
        let fields: Vec<QueryField> = Vec::new();
        self.request(Method::GET, "api/v3/ticker/price", &fields)
    }

    /// Asks for the best bid and ask of a symbol.
    pub fn book_ticker(&self, param: PSymbol) -> (res: BianResult<HttpRequest>)
        ensures
            self.owes(res, Method::GET, "api/v3/ticker/bookTicker"@, param.spec_fields()),
    {
        let fields = param.fields();
        self.request(Method::GET, "api/v3/ticker/bookTicker", &fields)
    }

    /// Asks for the best bid and ask of every symbol.
    pub fn book_tickers(&self) -> (res: BianResult<HttpRequest>)
        ensures
            self.owes(res, Method::GET, "api/v3/ticker/bookTicker"@, Seq::empty()),
    {
        let fields: Vec<QueryField> = Vec::new();
        self.request(Method::GET, "api/v3/ticker/bookTicker", &fields)
    }

    /// Places an order. The parameters are given as their fields, in the
    /// order in which they are written.
    pub fn order(&self, param: Vec<QueryField>) -> (res: BianResult<HttpRequest>)
        ensures
            self.owes(res, Method::SPOST, "api/v3/order"@, field_models(param@)),
    {
        self.request(Method::SPOST, "api/v3/order", &param)
    }

    /// Cancels an order.
    pub fn cancel_order(&self, param: PQueryOrder) -> (res: BianResult<HttpRequest>)
        ensures
            self.owes(res, Method::SDELETE, "api/v3/order"@, param.spec_fields()),
    {
        let fields = param.fields();
        self.request(Method::SDELETE, "api/v3/order", &fields)
    }

    /// Cancels all open orders of a symbol.
    pub fn cancel_open_orders(&self, param: PSymbolWithTs) -> (res: BianResult<HttpRequest>)
        ensures
            self.owes(res, Method::SDELETE, "api/v3/openOrders"@, param.spec_fields()),
    {
        let fields = param.fields();
        self.request(Method::SDELETE, "api/v3/openOrders", &fields)
    }

    /// Asks for one order.
    pub fn list_order(&self, param: PQueryOrder) -> (res: BianResult<HttpRequest>)
        ensures
            self.owes(res, Method::SGET, "api/v3/order"@, param.spec_fields()),
    {
        let fields = param.fields();
        self.request(Method::SGET, "api/v3/order", &fields)
    }

    /// Asks for the open orders.
    pub fn open_orders(&self, param: POptionSymbolQuery) -> (res: BianResult<HttpRequest>)
        ensures
            self.owes(res, Method::SGET, "api/v3/openOrders"@, param.spec_fields()),
    {
        let fields = param.fields();
        self.request(Method::SGET, "api/v3/openOrders", &fields)
    }

    /// Asks for all orders of the account, whatever their state.
    pub fn list_all_order(&self, param: PHistOrder) -> (res: BianResult<HttpRequest>)
        ensures
            self.owes(res, Method::SGET, "api/v3/allOrders"@, param.spec_fields()),
    {
        let fields = param.fields();
        self.request(Method::SGET, "api/v3/allOrders", &fields)
    }

    /// Places a one-cancels-the-other order. The parameters are given as their fields, in the
    /// order in which they are written.
    pub fn oco_order(&self, param: Vec<QueryField>) -> (res: BianResult<HttpRequest>)
        ensures
            self.owes(res, Method::SPOST, "api/v3/order/oco"@, field_models(param@)),
    {
        self.request(Method::SPOST, "api/v3/order/oco", &param)
    }

    /// Cancels a one-cancels-the-other order. The parameters are given as their fields, in the
    /// order in which they are written.
    pub fn cancel_oco_order(&self, param: Vec<QueryField>) -> (res: BianResult<HttpRequest>)
        ensures
            self.owes(res, Method::SDELETE, "api/v3/orderList"@, field_models(param@)),
    {
        self.request(Method::SDELETE, "api/v3/orderList", &param)
    }

    /// Asks for one one-cancels-the-other order. The parameters are given as their fields, in the
    /// order in which they are written.
    pub fn list_oco_order(&self, param: Vec<QueryField>) -> (res: BianResult<HttpRequest>)
        ensures
            self.owes(res, Method::SGET, "api/v3/orderList"@, field_models(param@)),
    {
        self.request(Method::SGET, "api/v3/orderList", &param)
    }

    /// Asks for all one-cancels-the-other orders. The parameters are given as their fields, in the
    /// order in which they are written.
    pub fn list_all_oco_order(&self, param: Vec<QueryField>) -> (res: BianResult<HttpRequest>)
        ensures
            self.owes(res, Method::SGET, "api/v3/allOrderList"@, field_models(param@)),
    {
        self.request(Method::SGET, "api/v3/allOrderList", &param)
    }

    /// Asks for the open one-cancels-the-other orders.
    pub fn list_open_oco_order(&self, param: PTimestamp) -> (res: BianResult<HttpRequest>)
        ensures
            self.owes(res, Method::SGET, "api/v3/openOrderList"@, param.spec_fields()),
    {
        let fields = param.fields();
        self.request(Method::SGET, "api/v3/openOrderList", &fields)
    }

    /// Asks for the state of the account.
    pub fn account(&self, param: PTimestamp) -> (res: BianResult<HttpRequest>)
        ensures
            self.owes(res, Method::SGET, "api/v3/account"@, param.spec_fields()),
    {
        let fields = param.fields();
        self.request(Method::SGET, "api/v3/account", &fields)
    }

    /// Asks for the trades of the account.
    pub fn my_trades(&self, param: PUserTrade) -> (res: BianResult<HttpRequest>)
        ensures
            self.owes(res, Method::SGET, "api/v3/myTrades"@, param.spec_fields()),
    {
        let fields = param.fields();
        self.request(Method::SGET, "api/v3/myTrades", &fields)
    }
}

/// The streaming client of the spot segment.
///
/// Every method names the place to connect to and the framing of the
/// messages; connecting is left to the owner of the socket.
#[derive(Debug, Clone)]
pub struct SpotWSClient {
    /// The address of a proxy to connect through, if any.
    pub proxy: Option<String>,
    /// The serialized base URL of the endpoint.
    pub base_url: String,
}

impl SpotWSClient {
    /// The subscription to one channel of one symbol.
    pub fn build_single(&self, symbol: String, channel: &str) -> (res: BianResult<
        StreamSubscription,
    >)
        ensures
            is_subscription_at(
                res,
                self.base_url@,
                single_path_text(symbol@, channel@),
                StreamMode::Single,
            ),
    {
        subscribe_single(self.base_url.as_str(), symbol.as_str(), channel)
    }

    /// The subscription to one channel of several symbols.
    pub fn build_multi(&self, symbols: Vec<String>, channel: &str) -> (res: BianResult<
        StreamSubscription,
    >)
        ensures
            is_subscription_at(
                res,
                self.base_url@,
                combined_path_text(string_views(symbols@), channel@),
                StreamMode::Combined,
            ),
    {
        subscribe_multi(self.base_url.as_str(), &symbols, channel)
    }

    /// Subscribes to the aggregated trades of a symbol.
    pub fn agg_trade(&self, symbol: String) -> (res: BianResult<StreamSubscription>)
        ensures
            is_subscription_at(
                res,
                self.base_url@,
                single_path_text(symbol@, "aggTrade"@),
                StreamMode::Single,
            ),
    {
        subscribe_single(self.base_url.as_str(), symbol.as_str(), "aggTrade")
    }

    /// Subscribes to the aggregated trades of several symbols.
    pub fn agg_trade_multi(&self, symbols: Vec<String>) -> (res: BianResult<StreamSubscription>)
        ensures
            is_subscription_at(
                res,
                self.base_url@,
                combined_path_text(string_views(symbols@), "aggTrade"@),
                StreamMode::Combined,
            ),
    {
        subscribe_multi(self.base_url.as_str(), &symbols, "aggTrade")
    }

    /// Subscribes to the trades of a symbol.
    pub fn trade(&self, symbol: String) -> (res: BianResult<StreamSubscription>)
        ensures
            is_subscription_at(
                res,
                self.base_url@,
                single_path_text(symbol@, "trade"@),
                StreamMode::Single,
            ),
    {
        subscribe_single(self.base_url.as_str(), symbol.as_str(), "trade")
    }

    /// Subscribes to the trades of several symbols.
    pub fn trade_multi(&self, symbols: Vec<String>) -> (res: BianResult<StreamSubscription>)
        ensures
            is_subscription_at(
                res,
                self.base_url@,
                combined_path_text(string_views(symbols@), "trade"@),
                StreamMode::Combined,
            ),
    {
        subscribe_multi(self.base_url.as_str(), &symbols, "trade")
    }

    /// Subscribes to the candlesticks of a symbol.
    pub fn kline(&self, symbol: String, interval: Interval) -> (res: BianResult<StreamSubscription>)
        ensures
            is_subscription_at(
                res,
                self.base_url@,
                single_path_text(symbol@, kline_channel_text(interval)),
                StreamMode::Single,
            ),
    {
        let channel = kline_channel(interval);
        subscribe_single(self.base_url.as_str(), symbol.as_str(), channel.as_str())
    }

    /// Subscribes to the candlesticks of several symbols.
    pub fn kline_multi(
        &self,
        symbols: Vec<String>,
        interval: Interval,
    ) -> (res: BianResult<StreamSubscription>)
        ensures
            is_subscription_at(
                res,
                self.base_url@,
                combined_path_text(string_views(symbols@), kline_channel_text(interval)),
                StreamMode::Combined,
            ),
    {
        let channel = kline_channel(interval);
        subscribe_multi(self.base_url.as_str(), &symbols, channel.as_str())
    }

    /// Subscribes to the short ticker of a symbol.
    pub fn mini_ticker(&self, symbol: String) -> (res: BianResult<StreamSubscription>)
        ensures
            is_subscription_at(
                res,
                self.base_url@,
                single_path_text(symbol@, "miniTicker"@),
                StreamMode::Single,
            ),
    {
        subscribe_single(self.base_url.as_str(), symbol.as_str(), "miniTicker")
    }

    /// Subscribes to the short ticker of several symbols.
    pub fn mini_ticker_multi(&self, symbols: Vec<String>) -> (res: BianResult<StreamSubscription>)
        ensures
            is_subscription_at(
                res,
                self.base_url@,
                combined_path_text(string_views(symbols@), "miniTicker"@),
                StreamMode::Combined,
            ),
    {
        subscribe_multi(self.base_url.as_str(), &symbols, "miniTicker")
    }

    /// Subscribes to the short ticker of the whole market.
    pub fn all_mini_ticker(&self) -> (res: BianResult<StreamSubscription>)
        ensures
            is_subscription_at(
                res,
                self.base_url@,
                single_path_text(Seq::empty(), "!miniTicker@arr"@),
                StreamMode::Single,
            ),
    {
        proof {
            reveal_strlit("");
        }
        subscribe_single(self.base_url.as_str(), "", "!miniTicker@arr")
    }

    /// Subscribes to the full 24-hour ticker of a symbol.
    pub fn symbol_ticker(&self, symbol: String) -> (res: BianResult<StreamSubscription>)
        ensures
            is_subscription_at(
                res,
                self.base_url@,
                single_path_text(symbol@, "ticker"@),
                StreamMode::Single,
            ),
    {
        subscribe_single(self.base_url.as_str(), symbol.as_str(), "ticker")
    }

    /// Subscribes to the full 24-hour ticker of several symbols.
    pub fn symbol_ticker_multi(&self, symbols: Vec<String>) -> (res: BianResult<StreamSubscription>)
        ensures
            is_subscription_at(
                res,
                self.base_url@,
                combined_path_text(string_views(symbols@), "ticker"@),
                StreamMode::Combined,
            ),
    {
        subscribe_multi(self.base_url.as_str(), &symbols, "ticker")
    }

    /// Subscribes to the full 24-hour ticker of the whole market.
    pub fn all_symbol_ticker(&self) -> (res: BianResult<StreamSubscription>)
        ensures
            is_subscription_at(
                res,
                self.base_url@,
                single_path_text(Seq::empty(), "!ticker@arr"@),
                StreamMode::Single,
            ),
    {
        proof {
            reveal_strlit("");
        }
        subscribe_single(self.base_url.as_str(), "", "!ticker@arr")
    }
}

} // verus!
