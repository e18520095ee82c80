//! The clients of the USD-margined futures segment.

use vstd::prelude::*;
use vstd::string::*;
use crate::enums::{ContractType, Interval, Method};
use crate::error::{BianResult, Failure};
use crate::http::{build_request, checked_base_url, is_request_for, url_parse, HttpRequest};
use crate::params::{
    PAggTrade, PBatchCancelOrder, PBatchOrder, PContinuousKline, PCountdownCancel, PDepth,
    PForceOrder, PFundingRate, PFutures, PHistOrder, PHistoricalTrade, PIndexPriceKline, PKline,
    PLeverage, PLvtKlines, PMarginType, POptionSymbolQuery, POrder, PPositionMargin,
    PPositionMarginHist, PPositionSideDual, PQueryOrder, PSymbol, PSymbolWithTs, PTimestamp, PTrade,
    PUserTrade, stamp_fields,
};
use crate::query::{canonical, field_models, string_views, FieldModel, QueryField, QueryParams};
use crate::sign::{sign_fields, signature_text};
use crate::stream::{
    combined_path_text, continuous_kline_channel, continuous_kline_channel_text, continuous_symbol,
    continuous_symbol_text, continuous_symbol_texts, continuous_symbols, depth_channel,
    depth_channel_text, is_subscription_at, kline_channel, kline_channel_text,
    mark_price_arr_channel, mark_price_arr_channel_text, mark_price_channel,
    mark_price_channel_text, single_path_text, subscribe, subscribe_multi, subscribe_single,
    StreamMode, StreamSubscription,
};

verus! {

/// The base URL of the REST endpoint that a client uses by default.
pub const BASE_HTTP_URL: &'static str = "https://dapi.binance.com";

/// The base URL of the streaming endpoint that a client uses by default.
pub const BASE_WS_URL: &'static str = "wss://dstream.binance.com";

/// The REST client of the USD-margined futures segment.
///
/// The client holds the credentials and the endpoint, and nothing that
/// changes: every method only reads it, so any number of calls may be
/// prepared at the same time.
#[derive(Debug, Clone)]
pub struct UFuturesHttpClient {
    /// Sent with every call; identifies the caller.
    pub api_key: String,
    /// Never sent; keys the signatures.
    pub secret_key: String,
    /// The serialized base URL of the endpoint.
    pub base_url: String,
}

impl UFuturesHttpClient {
    /// A client for the default endpoint.
    pub fn default_endpoint(api_key: String, secret_key: String) -> (c: UFuturesHttpClient)
        ensures
            c.api_key == api_key,
            c.secret_key == secret_key,
            c.base_url@ == match url_parse(BASE_HTTP_URL@) {
                Some(s) => s,
                None => BASE_HTTP_URL@,
            },
    {
        let base_url = match checked_base_url(BASE_HTTP_URL) {
            Ok(s) => s,
            Err(_) => String::from_str(BASE_HTTP_URL),
        };
        UFuturesHttpClient { api_key, secret_key, base_url }
    }

    /// A client for the endpoint at `base_url`; fails with `InvalidUrl`,
    /// carrying the text, when that is no absolute URL.
    pub fn new(
        api_key: String,
        secret_key: String,
        base_url: &str,
    ) -> (res: BianResult<UFuturesHttpClient>)
        ensures
            match res {
                Ok(c) => c.api_key == api_key && c.secret_key == secret_key && url_parse(
                    base_url@,
                ) == Some(c.base_url@),
                Err(e) => url_parse(base_url@) is None && e@ == Failure::InvalidUrl(base_url@),
            },
    {
        match checked_base_url(base_url) {
            Ok(base_url) => Ok(UFuturesHttpClient { api_key, secret_key, base_url }),
            Err(e) => Err(e),
        }
    }

    /// What a call of this client owes: see [`is_request_for`].
    pub open spec fn owes(
        &self,
        res: BianResult<HttpRequest>,
        method: Method,
        path: Seq<char>,
        fields: Seq<FieldModel>,
    ) -> bool {
        is_request_for(res, self.base_url@, self.api_key@, self.secret_key@, method, path, fields)
    }

    /// The signature of a parameter value under the secret of this client.
    pub fn sign<P: QueryParams>(&self, params: &P) -> (sig: String)
        ensures
            sig@ == signature_text(self.secret_key@, canonical(params.spec_fields())),
            sig@.len() == 64,
    {
        let fields = params.fields();
        sign_fields(self.secret_key.as_str(), &fields)
    }

    /// The request of one call: the single place where every call of this
    /// client is assembled.
    pub fn request(&self, method: Method, path: &str, fields: &Vec<QueryField>) -> (res: BianResult<
        HttpRequest,
    >)
        ensures
            self.owes(res, method, path@, field_models(fields@)),
    {
        build_request(
            self.base_url.as_str(),
            self.api_key.as_str(),
            self.secret_key.as_str(),
            method,
            path,
            fields,
        )
    }

    /// The request of a signed call that carries nothing but its time and,
    /// if one is set, its receive window.
    pub fn stamped_request(
        &self,
        method: Method,
        path: &str,
        ts: PTimestamp,
    ) -> (res: BianResult<HttpRequest>)
        ensures
            self.owes(res, method, path@, ts.spec_fields()),
    {
        let fields = ts.fields();
        self.request(method, path, &fields)
    }

    /// Tests the connection to the server.
    pub fn ping(&self) -> (res: BianResult<HttpRequest>)
        ensures
            self.owes(res, Method::GET, "fapi/v1/ping"@, Seq::empty()),
    {
        let fields: Vec<QueryField> = Vec::new();
        self.request(Method::GET, "fapi/v1/ping", &fields)
    }

    /// Asks for the server's time.
    pub fn server_time(&self) -> (res: BianResult<HttpRequest>)
        ensures
            self.owes(res, Method::GET, "fapi/v1/time"@, Seq::empty()),
    {
        let fields: Vec<QueryField> = Vec::new();
        self.request(Method::GET, "fapi/v1/time", &fields)
    }

    /// Asks for the trading rules and the symbols.
    pub fn exchange_info(&self) -> (res: BianResult<HttpRequest>)
        ensures
            self.owes(res, Method::GET, "fapi/v1/exchangeInfo"@, Seq::empty()),
    {
        let fields: Vec<QueryField> = Vec::new();
        self.request(Method::GET, "fapi/v1/exchangeInfo", &fields)
    }

    /// Asks for the order book of a symbol.
    pub fn depth(&self, param: PDepth) -> (res: BianResult<HttpRequest>)
        ensures
            self.owes(res, Method::GET, "fapi/v1/depth"@, param.spec_fields()),
    {
        let fields = param.fields();
        self.request(Method::GET, "fapi/v1/depth", &fields)
    }

    /// Asks for the latest trades.
    pub fn trades(&self, param: PTrade) -> (res: BianResult<HttpRequest>)
        ensures
            self.owes(res, Method::GET, "fapi/v1/trades"@, param.spec_fields()),
    {
        let fields = param.fields();
        self.request(Method::GET, "fapi/v1/trades", &fields)
    }

    /// Asks for older trades.
    pub fn historical_trades(&self, param: PHistoricalTrade) -> (res: BianResult<HttpRequest>)
        ensures
            self.owes(res, Method::GET, "fapi/v1/historicalTrades"@, param.spec_fields()),
    {
        let fields = param.fields();
        self.request(Method::GET, "fapi/v1/historicalTrades", &fields)
    }

    /// Asks for the latest aggregated trades.
    pub fn agg_trades(&self, param: PAggTrade) -> (res: BianResult<HttpRequest>)
        ensures
            self.owes(res, Method::GET, "fapi/v1/aggTrades"@, param.spec_fields()),
    {
        let fields = param.fields();
        self.request(Method::GET, "fapi/v1/aggTrades", &fields)
    }

    /// Asks for candlesticks.
    pub fn klines(&self, param: PKline) -> (res: BianResult<HttpRequest>)
        ensures
            self.owes(res, Method::GET, "fapi/v1/klines"@, param.spec_fields()),
    {
        let fields = param.fields();
        self.request(Method::GET, "fapi/v1/klines", &fields)
    }

    /// Asks for candlesticks of a continuous contract.
    pub fn continuous_klines(&self, param: PContinuousKline) -> (res: BianResult<HttpRequest>)
        ensures
            self.owes(res, Method::GET, "fapi/v1/continuousKlines"@, param.spec_fields()),
    {
        let fields = param.fields();
        self.request(Method::GET, "fapi/v1/continuousKlines", &fields)
    }

    /// Asks for candlesticks of the price index.
    pub fn index_price_klines(&self, param: PIndexPriceKline) -> (res: BianResult<HttpRequest>)
        ensures
            self.owes(res, Method::GET, "fapi/v1/indexPriceKlines"@, param.spec_fields()),
    {
        let fields = param.fields();
        self.request(Method::GET, "fapi/v1/indexPriceKlines", &fields)
    }

    /// Asks for the mark price and funding rate of a symbol.
    pub fn premium_index(&self, param: PSymbol) -> (res: BianResult<HttpRequest>)
        ensures
            self.owes(res, Method::GET, "fapi/v1/premiumIndex"@, param.spec_fields()),
    {
        let fields = param.fields();
        self.request(Method::GET, "fapi/v1/premiumIndex", &fields)
    }

    /// Asks for the mark price and funding rate of every symbol.
    pub fn premium_indexes(&self) -> (res: BianResult<HttpRequest>)
        ensures
            self.owes(res, Method::GET, "fapi/v1/premiumIndex"@, Seq::empty()),
    {
        let fields: Vec<QueryField> = Vec::new();
        self.request(Method::GET, "fapi/v1/premiumIndex", &fields)
    }

    /// Asks for the history of the funding rate.
    pub fn funding_rate(&self, param: PFundingRate) -> (res: BianResult<HttpRequest>)
        ensures
            self.owes(res, Method::GET, "fapi/v1/fundingRate"@, param.spec_fields()),
    {
        let fields = param.fields();
        self.request(Method::GET, "fapi/v1/fundingRate", &fields)
    }

    /// Asks for the price change of a symbol over 24 hours.
    pub fn h24_ticker(&self, param: PSymbol) -> (res: BianResult<HttpRequest>)
        ensures
            self.owes(res, Method::GET, "fapi/v1/ticker/24hr"@, param.spec_fields()),
    {
        let fields = param.fields();
        self.request(Method::GET, "fapi/v1/ticker/24hr", &fields)
    }

    /// Asks for the price change of every symbol over 24 hours.
    pub fn h24_tickers(&self) -> (res: BianResult<HttpRequest>)
        ensures
            self.owes(res, Method::GET, "fapi/v1/ticker/24hr"@, Seq::empty()),
    {
        let fields: Vec<QueryField> = Vec::new();
        self.request(Method::GET, "fapi/v1/ticker/24hr", &fields)
    }

    /// Asks for the latest price of a symbol.
    pub fn price(&self, param: PSymbol) -> (res: BianResult<HttpRequest>)
        ensures
            self.owes(res, Method::GET, "fapi/v1/ticker/price"@, param.spec_fields()),
    {
        let fields = param.fields();
        self.request(Method::GET, "fapi/v1/ticker/price", &fields)
    }

    /// Asks for the latest price of every symbol.
    pub fn prices(&self) -> (res: BianResult<HttpRequest>)
        ensures
            self.owes(res, Method::GET, "fapi/v1/ticker/price"@, Seq::empty()),
    {
        let fields: Vec<QueryField> = Vec::new();
        self.request(Method::GET, "fapi/v1/ticker/price", &fields)
    }

    /// Asks for the best bid and ask of a symbol.
    pub fn book_ticker(&self, param: PSymbol) -> (res: BianResult<HttpRequest>)
        ensures
            self.owes(res, Method::GET, "fapi/v1/ticker/bookTicker"@, param.spec_fields()),
    {
        let fields = param.fields();
        self.request(Method::GET, "fapi/v1/ticker/bookTicker", &fields)
    }

    /// Asks for the best bid and ask of every symbol.
    pub fn book_tickers(&self) -> (res: BianResult<HttpRequest>)
        ensures
            self.owes(res, Method::GET, "fapi/v1/ticker/bookTicker"@, Seq::empty()),
    {
        let fields: Vec<QueryField> = Vec::new();
        self.request(Method::GET, "fapi/v1/ticker/bookTicker", &fields)
    }

    /// Asks for the liquidation orders of the market.
    pub fn all_force_orders(&self, param: PForceOrder) -> (res: BianResult<HttpRequest>)
        ensures
            self.owes(res, Method::GET, "fapi/v1/allForceOrders"@, param.spec_fields()),
    {
        let fields = param.fields();
        self.request(Method::GET, "fapi/v1/allForceOrders", &fields)
    }

    /// Asks for the open interest of a symbol.
    pub fn open_interest(&self, param: PSymbol) -> (res: BianResult<HttpRequest>)
        ensures
            self.owes(res, Method::GET, "fapi/v1/openInterest"@, param.spec_fields()),
    {
        let fields = param.fields();
        self.request(Method::GET, "fapi/v1/openInterest", &fields)
    }

    /// Asks for the history of the open interest.
    pub fn open_interest_hist(&self, param: PFutures) -> (res: BianResult<HttpRequest>)
        ensures
            self.owes(res, Method::GET, "futures/data/openInterestHist"@, param.spec_fields()),
    {
        let fields = param.fields();
        self.request(Method::GET, "futures/data/openInterestHist", &fields)
    }

    /// Asks for the long/short ratio of the top accounts.
    pub fn top_long_short_account_ratio(&self, param: PFutures) -> (res: BianResult<HttpRequest>)
        ensures
            self.owes(
                res,
                Method::GET,
                "futures/data/topLongShortAccountRatio"@,
                param.spec_fields(),
            ),
    {
        let fields = param.fields();
        self.request(Method::GET, "futures/data/topLongShortAccountRatio", &fields)
    }

    /// Asks for the long/short ratio of the top positions.
    pub fn top_long_short_position_ratio(&self, param: PFutures) -> (res: BianResult<HttpRequest>)
        ensures
            self.owes(
                res,
                Method::GET,
                "futures/data/topLongShortPositionRatio"@,
                param.spec_fields(),
            ),
    {
        let fields = param.fields();
        self.request(Method::GET, "futures/data/topLongShortPositionRatio", &fields)
    }

    /// Asks for the long/short ratio of all accounts.
    pub fn global_long_short_position_ratio(
        &self,
        param: PFutures,
    ) -> (res: BianResult<HttpRequest>)
        ensures
            self.owes(
                res,
                Method::GET,
                "futures/data/globalLongShortAccountRatio"@,
                param.spec_fields(),
            ),
    {
        let fields = param.fields();
        self.request(Method::GET, "futures/data/globalLongShortAccountRatio", &fields)
    }

    /// Asks for the buy/sell volume of takers.
    pub fn taker_long_short_ratio(&self, param: PFutures) -> (res: BianResult<HttpRequest>)
        ensures
            self.owes(res, Method::GET, "futures/data/takerlongshortRatio"@, param.spec_fields()),
    {
        let fields = param.fields();
        self.request(Method::GET, "futures/data/takerlongshortRatio", &fields)
    }

    /// Asks for candlesticks of the net value of a leveraged token.
    pub fn lvt_klines(&self, param: PLvtKlines) -> (res: BianResult<HttpRequest>)
        ensures
            self.owes(res, Method::GET, "fapi/v1/lvtKlines"@, param.spec_fields()),
    {
        let fields = param.fields();
        self.request(Method::GET, "fapi/v1/lvtKlines", &fields)
    }

    /// Asks for the composition of one index symbol.
    pub fn index_info(&self, param: PSymbol) -> (res: BianResult<HttpRequest>)
        ensures
            self.owes(res, Method::GET, "fapi/v1/indexInfo"@, param.spec_fields()),
    {
        let fields = param.fields();
        self.request(Method::GET, "fapi/v1/indexInfo", &fields)
    }

    /// Asks for the composition of every index symbol.
    pub fn index_infos(&self) -> (res: BianResult<HttpRequest>)
        ensures
            self.owes(res, Method::GET, "fapi/v1/indexInfo"@, Seq::empty()),
    {
        let fields: Vec<QueryField> = Vec::new();
        self.request(Method::GET, "fapi/v1/indexInfo", &fields)
    }

    /// Changes the position mode.
    pub fn update_position_side(&self, param: PPositionSideDual) -> (res: BianResult<HttpRequest>)
        ensures
            self.owes(res, Method::SPOST, "fapi/v1/positionSide/dual"@, param.spec_fields()),
    {
        let fields = param.fields();
        self.request(Method::SPOST, "fapi/v1/positionSide/dual", &fields)
    }

    /// Asks for the position mode.
    pub fn get_position_side(&self, param: PTimestamp) -> (res: BianResult<HttpRequest>)
        ensures
            self.owes(res, Method::SGET, "fapi/v1/positionSide/dual"@, param.spec_fields()),
    {
        let fields = param.fields();
        self.request(Method::SGET, "fapi/v1/positionSide/dual", &fields)
    }

    /// Places an order.
    pub fn order(&self, param: POrder) -> (res: BianResult<HttpRequest>)
        ensures
            self.owes(res, Method::SPOST, "fapi/v1/order"@, param.spec_fields()),
    {
        let fields = param.fields();
        self.request(Method::SPOST, "fapi/v1/order", &fields)
    }

    /// Places several orders at once.
    pub fn batch_order(&self, param: PBatchOrder) -> (res: BianResult<HttpRequest>)
        ensures
            self.owes(res, Method::SPOST, "fapi/v1/batchOrders"@, param.spec_fields()),
    {
        let fields = param.fields();
        self.request(Method::SPOST, "fapi/v1/batchOrders", &fields)
    }

    /// Asks for one order.
    pub fn query_order(&self, param: PQueryOrder) -> (res: BianResult<HttpRequest>)
        ensures
            self.owes(res, Method::SGET, "fapi/v1/order"@, param.spec_fields()),
    {
        let fields = param.fields();
        self.request(Method::SGET, "fapi/v1/order", &fields)
    }

    /// Cancels an order.
    pub fn cancel_order(&self, param: PQueryOrder) -> (res: BianResult<HttpRequest>)
        ensures
            self.owes(res, Method::SDELETE, "fapi/v1/order"@, param.spec_fields()),
    {
        let fields = param.fields();
        self.request(Method::SDELETE, "fapi/v1/order", &fields)
    }

    /// Cancels all open orders of a symbol.
    pub fn cancel_all_orders(&self, param: PSymbolWithTs) -> (res: BianResult<HttpRequest>)
        ensures
            self.owes(res, Method::SDELETE, "fapi/v1/allOpenOrders"@, param.spec_fields()),
    {
        let fields = param.fields();
        self.request(Method::SDELETE, "fapi/v1/allOpenOrders", &fields)
    }

    /// Cancels several orders at once.
    pub fn batch_cancel_orders(&self, param: PBatchCancelOrder) -> (res: BianResult<HttpRequest>)
        ensures
            self.owes(res, Method::SDELETE, "fapi/v1/batchOrders"@, param.spec_fields()),
    {
        let fields = param.fields();
        self.request(Method::SDELETE, "fapi/v1/batchOrders", &fields)
    }

    /// Sets the countdown after which all orders of a symbol are cancelled.
    pub fn countdown_cancel_all(&self, param: PCountdownCancel) -> (res: BianResult<HttpRequest>)
        ensures
            self.owes(res, Method::SPOST, "fapi/v1/countdownCancelAll"@, param.spec_fields()),
    {
        let fields = param.fields();
        self.request(Method::SPOST, "fapi/v1/countdownCancelAll", &fields)
    }

    /// Asks for one open order.
    pub fn open_order(&self, param: PQueryOrder) -> (res: BianResult<HttpRequest>)
        ensures
            self.owes(res, Method::SGET, "fapi/v1/openOrder"@, param.spec_fields()),
    {
        let fields = param.fields();
        self.request(Method::SGET, "fapi/v1/openOrder", &fields)
    }

    /// Asks for the open orders.
    pub fn open_orders(&self, param: POptionSymbolQuery) -> (res: BianResult<HttpRequest>)
        ensures
            self.owes(res, Method::SGET, "fapi/v1/openOrders"@, param.spec_fields()),
    {
        let fields = param.fields();
        self.request(Method::SGET, "fapi/v1/openOrders", &fields)
    }

    /// Asks for all orders of the account, whatever their state.
    pub fn all_orders(&self, param: PHistOrder) -> (res: BianResult<HttpRequest>)
        ensures
            self.owes(res, Method::SGET, "fapi/v1/allOrders"@, param.spec_fields()),
    {
        let fields = param.fields();
        self.request(Method::SGET, "fapi/v1/allOrders", &fields)
    }

    /// Asks for the balances of the account.
    pub fn account_balance_v2(&self, param: PTimestamp) -> (res: BianResult<HttpRequest>)
        ensures
            self.owes(res, Method::SGET, "fapi/v2/balance"@, param.spec_fields()),
    {
        let fields = param.fields();
        self.request(Method::SGET, "fapi/v2/balance", &fields)
    }

    /// Asks for the state of the account.
    pub fn account_v2(&self, param: PTimestamp) -> (res: BianResult<HttpRequest>)
        ensures
            self.owes(res, Method::SGET, "fapi/v2/account"@, param.spec_fields()),
    {
        let fields = param.fields();
        self.request(Method::SGET, "fapi/v2/account", &fields)
    }

    /// Changes the leverage of a symbol.
    pub fn leverage(&self, param: PLeverage) -> (res: BianResult<HttpRequest>)
        ensures
            self.owes(res, Method::SPOST, "fapi/v1/leverage"@, param.spec_fields()),
    {
        let fields = param.fields();
        self.request(Method::SPOST, "fapi/v1/leverage", &fields)
    }

    /// Changes the margin type of a symbol.
    pub fn margin_type(&self, param: PMarginType) -> (res: BianResult<HttpRequest>)
        ensures
            self.owes(res, Method::SPOST, "fapi/v1/marginType"@, param.spec_fields()),
    {
        let fields = param.fields();
        self.request(Method::SPOST, "fapi/v1/marginType", &fields)
    }

    /// Changes the margin of an isolated position.
    pub fn position_margin(&self, param: PPositionMargin) -> (res: BianResult<HttpRequest>)
        ensures
            self.owes(res, Method::SPOST, "fapi/v1/positionMargin"@, param.spec_fields()),
    {
        let fields = param.fields();
        self.request(Method::SPOST, "fapi/v1/positionMargin", &fields)
    }

    /// Asks for the history of margin changes.
    pub fn position_margin_history(
        &self,
        param: PPositionMarginHist,
    ) -> (res: BianResult<HttpRequest>)
        ensures
            self.owes(res, Method::SGET, "fapi/v1/positionMargin/history"@, param.spec_fields()),
    {
        let fields = param.fields();
        self.request(Method::SGET, "fapi/v1/positionMargin/history", &fields)
    }

    /// Asks for the risk of the positions.
    pub fn position_risk(&self, param: PSymbolWithTs) -> (res: BianResult<HttpRequest>)
        ensures
            self.owes(res, Method::SGET, "fapi/v2/positionRisk"@, param.spec_fields()),
    {
        let fields = param.fields();
        self.request(Method::SGET, "fapi/v2/positionRisk", &fields)
    }

    /// Asks for the trades of the account.
    pub fn user_trades(&self, param: PUserTrade) -> (res: BianResult<HttpRequest>)
        ensures
            self.owes(res, Method::SGET, "fapi/v1/userTrades"@, param.spec_fields()),
    {
        let fields = param.fields();
        self.request(Method::SGET, "fapi/v1/userTrades", &fields)
    }

    /// Asks for a new listen key for the user-data stream.
    /// The call carries the time of the clock and no receive window.
    pub fn create_listen_key(&self) -> (res: BianResult<HttpRequest>)
        ensures
            exists|t: i64|
                self.owes(res, Method::SPOST, "fapi/v1/listenKey"@, stamp_fields(t)),
    {
        let ts = PTimestamp::now();
        proof {
            assert(ts.spec_fields() =~= stamp_fields(ts.timestamp));
        }
        self.stamped_request(Method::SPOST, "fapi/v1/listenKey", ts)
    }

    /// Keeps the listen key of the user-data stream alive.
    /// The call carries the time of the clock and no receive window.
    pub fn update_listen_key(&self) -> (res: BianResult<HttpRequest>)
        ensures
            exists|t: i64|
                self.owes(res, Method::SPUT, "fapi/v1/listenKey"@, stamp_fields(t)),
    {
        let ts = PTimestamp::now();
        proof {
            assert(ts.spec_fields() =~= stamp_fields(ts.timestamp));
        }
        self.stamped_request(Method::SPUT, "fapi/v1/listenKey", ts)
    }

    /// Gives the listen key of the user-data stream up.
    /// The call carries the time of the clock and no receive window.
    pub fn close_listen_key(&self) -> (res: BianResult<HttpRequest>)
        ensures
            exists|t: i64|
                self.owes(res, Method::SDELETE, "fapi/v1/listenKey"@, stamp_fields(t)),
    {
        let ts = PTimestamp::now();
        proof {
            assert(ts.spec_fields() =~= stamp_fields(ts.timestamp));
        }
        self.stamped_request(Method::SDELETE, "fapi/v1/listenKey", ts)
    }
}

/// The streaming client of the USD-margined futures segment.
///
/// Every method names the place to connect to and the framing of the
/// messages; connecting is left to the owner of the socket.
#[derive(Debug, Clone)]
pub struct UFuturesWSClient {
    /// The address of a proxy to connect through, if any.
    pub proxy: Option<String>,
    /// The serialized base URL of the endpoint.
    pub base_url: String,
}

impl UFuturesWSClient {
    /// A client for the default endpoint, through the given proxy if any.
    pub fn default_endpoint(proxy: Option<String>) -> (c: UFuturesWSClient)
        ensures
            c.proxy == proxy,
            c.base_url@ == match url_parse(BASE_WS_URL@) {
                Some(s) => s,
                None => BASE_WS_URL@,
            },
    {
        let base_url = match checked_base_url(BASE_WS_URL) {
            Ok(s) => s,
            Err(_) => String::from_str(BASE_WS_URL),
        };
        UFuturesWSClient { proxy, base_url }
    }

    /// The subscription to one channel of one symbol.
    pub fn build_single(&self, symbol: String, channel: &str) -> (res: BianResult<
        StreamSubscription,
    >)
        ensures
            is_subscription_at(
                res,
                self.base_url@,
                single_path_text(symbol@, channel@),
                StreamMode::Single,
            ),
    {
        subscribe_single(self.base_url.as_str(), symbol.as_str(), channel)
    }

    /// The subscription to one channel of several symbols.
    pub fn build_multi(&self, symbols: Vec<String>, channel: &str) -> (res: BianResult<
        StreamSubscription,
    >)
        ensures
            is_subscription_at(
                res,
                self.base_url@,
                combined_path_text(string_views(symbols@), channel@),
                StreamMode::Combined,
            ),
    {
        subscribe_multi(self.base_url.as_str(), &symbols, channel)
    }

    /// Subscribes to the aggregated trades of a symbol.
    pub fn agg_trade(&self, symbol: String) -> (res: BianResult<StreamSubscription>)
        ensures
            is_subscription_at(
                res,
                self.base_url@,
                single_path_text(symbol@, "aggTrade"@),
                StreamMode::Single,
            ),
    {
        subscribe_single(self.base_url.as_str(), symbol.as_str(), "aggTrade")
    }

    /// Subscribes to the aggregated trades of several symbols.
    pub fn agg_trade_multi(&self, symbols: Vec<String>) -> (res: BianResult<StreamSubscription>)
        ensures
            is_subscription_at(
                res,
                self.base_url@,
                combined_path_text(string_views(symbols@), "aggTrade"@),
                StreamMode::Combined,
            ),
    {
        subscribe_multi(self.base_url.as_str(), &symbols, "aggTrade")
    }

    /// Subscribes to the mark price of a symbol, every second when `freq` is 1.
    pub fn mark_price(&self, symbol: String, freq: usize) -> (res: BianResult<StreamSubscription>)
        ensures
            is_subscription_at(
                res,
                self.base_url@,
                single_path_text(symbol@, mark_price_channel_text(freq)),
                StreamMode::Single,
            ),
    {
        subscribe_single(self.base_url.as_str(), symbol.as_str(), mark_price_channel(freq))
    }

    /// Subscribes to the mark price of several symbols, every second when `freq` is 1.
    pub fn mark_price_multi(
        &self,
        symbols: Vec<String>,
        freq: usize,
    ) -> (res: BianResult<StreamSubscription>)
        ensures
            is_subscription_at(
                res,
                self.base_url@,
                combined_path_text(string_views(symbols@), mark_price_channel_text(freq)),
                StreamMode::Combined,
            ),
    {
        subscribe_multi(self.base_url.as_str(), &symbols, mark_price_channel(freq))
    }

    /// Subscribes to the mark price of the whole market, every second when `freq` is 1.
    pub fn mark_price_arr(&self, freq: usize) -> (res: BianResult<StreamSubscription>)
        ensures
            is_subscription_at(
                res,
                self.base_url@,
                single_path_text(Seq::empty(), mark_price_arr_channel_text(freq)),
                StreamMode::Single,
            ),
    {
        proof {
            reveal_strlit("");
        }
        subscribe_single(self.base_url.as_str(), "", mark_price_arr_channel(freq))
    }

    /// Subscribes to the candlesticks of a symbol.
    pub fn kline(&self, symbol: String, interval: Interval) -> (res: BianResult<StreamSubscription>)
        ensures
            is_subscription_at(
                res,
                self.base_url@,
                single_path_text(symbol@, kline_channel_text(interval)),
                StreamMode::Single,
            ),
    {
        let channel = kline_channel(interval);
        subscribe_single(self.base_url.as_str(), symbol.as_str(), channel.as_str())
    }

    /// Subscribes to the candlesticks of several symbols.
    pub fn kline_multi(
        &self,
        symbols: Vec<String>,
        interval: Interval,
    ) -> (res: BianResult<StreamSubscription>)
        ensures
            is_subscription_at(
                res,
                self.base_url@,
                combined_path_text(string_views(symbols@), kline_channel_text(interval)),
                StreamMode::Combined,
            ),
    {
        let channel = kline_channel(interval);
        subscribe_multi(self.base_url.as_str(), &symbols, channel.as_str())
    }

    /// Subscribes to the candlesticks of a continuous contract.
    pub fn continuous_kline(
        &self,
        pair: String,
        contract_type: ContractType,
        interval: Interval,
    ) -> (res: BianResult<StreamSubscription>)
        ensures
            is_subscription_at(
                res,
                self.base_url@,
                single_path_text(
                    continuous_symbol_text(pair@, contract_type),
                    continuous_kline_channel_text(interval),
                ),
                StreamMode::Single,
            ),
    {
        let symbol = continuous_symbol(pair.as_str(), contract_type);
        let channel = continuous_kline_channel(interval);
        subscribe_single(self.base_url.as_str(), symbol.as_str(), channel.as_str())
    }

    /// Subscribes to the candlesticks of a continuous contract for several pairs.
    pub fn continuous_kline_multi(
        &self,
        pairs: Vec<String>,
        contract_type: ContractType,
        interval: Interval,
    ) -> (res: BianResult<StreamSubscription>)
        ensures
            is_subscription_at(
                res,
                self.base_url@,
                combined_path_text(
                    continuous_symbol_texts(string_views(pairs@), contract_type),
                    continuous_kline_channel_text(interval),
                ),
                StreamMode::Combined,
            ),
    {
        let symbols = continuous_symbols(&pairs, contract_type);
        let channel = continuous_kline_channel(interval);
        subscribe_multi(self.base_url.as_str(), &symbols, channel.as_str())
    }

    /// Subscribes to the short ticker of a symbol.
    pub fn mini_ticker(&self, symbol: String) -> (res: BianResult<StreamSubscription>)
        ensures
            is_subscription_at(
                res,
                self.base_url@,
                single_path_text(symbol@, "miniTicker"@),
                StreamMode::Single,
            ),
    {
        subscribe_single(self.base_url.as_str(), symbol.as_str(), "miniTicker")
    }

    /// Subscribes to the short ticker of several symbols.
    pub fn mini_ticker_multi(&self, symbols: Vec<String>) -> (res: BianResult<StreamSubscription>)
        ensures
            is_subscription_at(
                res,
                self.base_url@,
                combined_path_text(string_views(symbols@), "miniTicker"@),
                StreamMode::Combined,
            ),
    {
        subscribe_multi(self.base_url.as_str(), &symbols, "miniTicker")
    }

    /// Subscribes to the short ticker of the whole market.
    pub fn all_mini_ticker(&self) -> (res: BianResult<StreamSubscription>)
        ensures
            is_subscription_at(
                res,
                self.base_url@,
                single_path_text(Seq::empty(), "!miniTicker@arr"@),
                StreamMode::Single,
            ),
    {
        proof {
            reveal_strlit("");
        }
        subscribe_single(self.base_url.as_str(), "", "!miniTicker@arr")
    }

    /// Subscribes to the full 24-hour ticker of a symbol.
    pub fn symbol_ticker(&self, symbol: String) -> (res: BianResult<StreamSubscription>)
        ensures
            is_subscription_at(
                res,
                self.base_url@,
                single_path_text(symbol@, "ticker"@),
                StreamMode::Single,
            ),
    {
        subscribe_single(self.base_url.as_str(), symbol.as_str(), "ticker")
    }

    /// Subscribes to the full 24-hour ticker of several symbols.
    pub fn symbol_ticker_multi(&self, symbols: Vec<String>) -> (res: BianResult<StreamSubscription>)
        ensures
            is_subscription_at(
                res,
                self.base_url@,
                combined_path_text(string_views(symbols@), "ticker"@),
                StreamMode::Combined,
            ),
    {
        subscribe_multi(self.base_url.as_str(), &symbols, "ticker")
    }

    /// Subscribes to the full 24-hour ticker of the whole market.
    pub fn all_symbol_ticker(&self) -> (res: BianResult<StreamSubscription>)
        ensures
            is_subscription_at(
                res,
                self.base_url@,
                single_path_text(Seq::empty(), "!ticker@arr"@),
                StreamMode::Single,
            ),
    {
        proof {
            reveal_strlit("");
        }
        subscribe_single(self.base_url.as_str(), "", "!ticker@arr")
    }

    /// Subscribes to the best bid and ask of a symbol.
    pub fn book_ticker(&self, symbol: String) -> (res: BianResult<StreamSubscription>)
        ensures
            is_subscription_at(
                res,
                self.base_url@,
                single_path_text(symbol@, "bookTicker"@),
                StreamMode::Single,
            ),
    {
        subscribe_single(self.base_url.as_str(), symbol.as_str(), "bookTicker")
    }

    /// Subscribes to the best bid and ask of several symbols.
    pub fn book_ticker_multi(&self, symbols: Vec<String>) -> (res: BianResult<StreamSubscription>)
        ensures
            is_subscription_at(
                res,
                self.base_url@,
                combined_path_text(string_views(symbols@), "bookTicker"@),
                StreamMode::Combined,
            ),
    {
        subscribe_multi(self.base_url.as_str(), &symbols, "bookTicker")
    }

    /// Subscribes to the best bid and ask of the whole market.
    pub fn all_book_ticker(&self) -> (res: BianResult<StreamSubscription>)
        ensures
            is_subscription_at(
                res,
                self.base_url@,
                single_path_text(Seq::empty(), "!bookTicker"@),
                StreamMode::Single,
            ),
    {
        proof {
            reveal_strlit("");
        }
        subscribe_single(self.base_url.as_str(), "", "!bookTicker")
    }

    /// Subscribes to the liquidation orders of a symbol.
    pub fn force_order(&self, symbol: String) -> (res: BianResult<StreamSubscription>)
        ensures
            is_subscription_at(
                res,
                self.base_url@,
                single_path_text(symbol@, "forceOrder"@),
                StreamMode::Single,
            ),
    {
        subscribe_single(self.base_url.as_str(), symbol.as_str(), "forceOrder")
    }

    /// Subscribes to the liquidation orders of several symbols.
    pub fn force_order_multi(&self, symbols: Vec<String>) -> (res: BianResult<StreamSubscription>)
        ensures
            is_subscription_at(
                res,
                self.base_url@,
                combined_path_text(string_views(symbols@), "forceOrder"@),
                StreamMode::Combined,
            ),
    {
        subscribe_multi(self.base_url.as_str(), &symbols, "forceOrder")
    }

    /// Subscribes to the liquidation orders of the whole market.
    pub fn all_force_order(&self) -> (res: BianResult<StreamSubscription>)
        ensures
            is_subscription_at(
                res,
                self.base_url@,
                single_path_text(Seq::empty(), "!forceOrder@arr"@),
                StreamMode::Single,
            ),
    {
        proof {
            reveal_strlit("");
        }
        subscribe_single(self.base_url.as_str(), "", "!forceOrder@arr")
    }

    /// Subscribes to the top of the order book of a symbol: 5 levels, or 10 or
    /// 20 when asked for, at the default pace or every 100 or 500 milliseconds
    /// when asked for.
    pub fn limit_depth(
        &self,
        symbol: String,
        level: usize,
        freq: usize,
    ) -> (res: BianResult<StreamSubscription>)
        ensures
            is_subscription_at(
                res,
                self.base_url@,
                single_path_text(symbol@, depth_channel_text(level, freq)),
                StreamMode::Single,
            ),
    {
        let channel = depth_channel(level, freq);
        subscribe_single(self.base_url.as_str(), symbol.as_str(), channel.as_str())
    }

    /// Subscribes to the top of the order book of several symbols; levels and
    /// pace as for one symbol.
    pub fn limit_depth_multi(
        &self,
        symbols: Vec<String>,
        level: usize,
        freq: usize,
    ) -> (res: BianResult<StreamSubscription>)
        ensures
            is_subscription_at(
                res,
                self.base_url@,
                combined_path_text(string_views(symbols@), depth_channel_text(level, freq)),
                StreamMode::Combined,
            ),
    {
        let channel = depth_channel(level, freq);
        subscribe_multi(self.base_url.as_str(), &symbols, channel.as_str())
    }

    /// Subscribes to the events of the account. The path of the stream is the
    /// listen key itself.
    pub fn user_data(&self, listen_key: &str) -> (res: BianResult<StreamSubscription>)
        ensures
            is_subscription_at(res, self.base_url@, listen_key@, StreamMode::Single),
    {
        subscribe(self.base_url.as_str(), listen_key, StreamMode::Single)
    }
}

/// The streaming client of the USD-margined futures segment for connections that always go
/// through a proxy.
///
/// Every method names the place to connect to and the framing of the
/// messages; connecting is left to the owner of the socket.
#[derive(Debug, Clone)]
pub struct UFuturesProxyWSClient {
    /// The address of the proxy to connect through.
    pub proxy: String,
    /// The serialized base URL of the endpoint.
    pub base_url: String,
}

impl UFuturesProxyWSClient {
    /// The subscription to one channel of one symbol.
    pub fn build_single(&self, symbol: String, channel: &str) -> (res: BianResult<
        StreamSubscription,
    >)
        ensures
            is_subscription_at(
                res,
                self.base_url@,
                single_path_text(symbol@, channel@),
                StreamMode::Single,
            ),
    {
        subscribe_single(self.base_url.as_str(), symbol.as_str(), channel)
    }

    /// The subscription to one channel of several symbols.
    pub fn build_multi(&self, symbols: Vec<String>, channel: &str) -> (res: BianResult<
        StreamSubscription,
    >)
        ensures
            is_subscription_at(
                res,
                self.base_url@,
                combined_path_text(string_views(symbols@), channel@),
                StreamMode::Combined,
            ),
    {
        subscribe_multi(self.base_url.as_str(), &symbols, channel)
    }

    /// Subscribes to the aggregated trades of a symbol.
    pub fn agg_trade(&self, symbol: String) -> (res: BianResult<StreamSubscription>)
        ensures
            is_subscription_at(
                res,
                self.base_url@,
                single_path_text(symbol@, "aggTrade"@),
                StreamMode::Single,
            ),
    {
        subscribe_single(self.base_url.as_str(), symbol.as_str(), "aggTrade")
    }

    /// Subscribes to the aggregated trades of several symbols.
    pub fn agg_trade_multi(&self, symbols: Vec<String>) -> (res: BianResult<StreamSubscription>)
        ensures
            is_subscription_at(
                res,
                self.base_url@,
                combined_path_text(string_views(symbols@), "aggTrade"@),
                StreamMode::Combined,
            ),
    {
        subscribe_multi(self.base_url.as_str(), &symbols, "aggTrade")
    }

    /// Subscribes to the full 24-hour ticker of a symbol.
    pub fn symbol_ticker(&self, symbol: String) -> (res: BianResult<StreamSubscription>)
        ensures
            is_subscription_at(
                res,
                self.base_url@,
                single_path_text(symbol@, "ticker"@),
                StreamMode::Single,
            ),
    {
        subscribe_single(self.base_url.as_str(), symbol.as_str(), "ticker")
    }

    /// Subscribes to the full 24-hour ticker of several symbols.
    pub fn symbol_ticker_multi(&self, symbols: Vec<String>) -> (res: BianResult<StreamSubscription>)
        ensures
            is_subscription_at(
                res,
                self.base_url@,
                combined_path_text(string_views(symbols@), "ticker"@),
                StreamMode::Combined,
            ),
    {
        subscribe_multi(self.base_url.as_str(), &symbols, "ticker")
    }
}

} // verus!
