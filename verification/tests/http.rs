use bian_rs::client::{SpotHttpClient, UFuturesHttpClient};
use bian_rs::enums::{HttpVerb, Interval, Method};
use bian_rs::error::APIError;
use bian_rs::http::{
    attach_query, build_request, call_query, checked_base_url, conclude, decoded, request_headers, request_to,
    resolve, HttpRequest, Transport,
};
use bian_rs::params::{PDepth, PKline, PSymbol, PSymbolWithTs, PTimestamp};
use bian_rs::query::QueryField;
use bian_rs::sign::signature;

const KEY: &str = "vmPUZE6mv9SD5VNHk4HlWFsOr6aKE2zvsw0MuIgwCIPy6utIco14y7Ju91duEh8A";
const SECRET: &str = "NhqPtmdSJYdKjVHjA7PZj4Mge3R5YNiP1e3UZjInClVN65XAbvqqM6A7H5fATj0j";

fn spot() -> SpotHttpClient {
    SpotHttpClient::new(KEY, SECRET, "https://api.binance.com").unwrap()
}

fn futures() -> UFuturesHttpClient {
    UFuturesHttpClient::new(KEY.to_string(), SECRET.to_string(), "https://fapi.binance.com").unwrap()
}

fn header_pairs(r: &HttpRequest) -> Vec<(String, String)> {
    r.headers.iter().map(|h| (h.name.clone(), h.value.clone())).collect()
}

#[test]
fn base_url_is_kept_in_serialized_form() {
    assert_eq!(spot().base_url, "https://api.binance.com/");
    assert_eq!(checked_base_url("HTTPS://API.Binance.com:443/x/../y").unwrap(), "https://api.binance.com/y");
    assert_eq!(spot().api_key, KEY);
    assert_eq!(spot().secret_key, SECRET);
}

#[test]
fn invalid_base_url_is_refused() {
    let err = SpotHttpClient::new(KEY, SECRET, "api.binance.com").unwrap_err();
    assert!(matches!(&err, APIError::InvalidUrl(text) if text == "api.binance.com"));
    assert!(matches!(UFuturesHttpClient::new(String::new(), String::new(), ""), Err(APIError::InvalidUrl(_))));
    assert!(matches!(checked_base_url("/relative"), Err(APIError::InvalidUrl(_))));
}

#[test]
fn default_endpoint_of_the_futures_client() {
    let client = UFuturesHttpClient::default_endpoint(KEY.to_string(), SECRET.to_string());
    assert_eq!(client.base_url, "https://dapi.binance.com/");
    assert_eq!(client.ping().unwrap().url, "https://dapi.binance.com/fapi/v1/ping");
}

#[test]
fn paths_resolve_against_the_base() {
    assert_eq!(resolve("https://api.binance.com", "api/v3/time").unwrap(), "https://api.binance.com/api/v3/time");
    assert_eq!(resolve("https://api.binance.com/", "api/v3/time").unwrap(), "https://api.binance.com/api/v3/time");
    assert_eq!(resolve("https://host/a/b", "c").unwrap(), "https://host/a/c");
    assert!(matches!(resolve("nonsense", "api/v3/time"), Err(APIError::InvalidUrl(p)) if p == "api/v3/time"));
    assert!(matches!(resolve("https://host", "//"), Err(APIError::InvalidUrl(p)) if p == "//"));
}

#[test]
fn empty_query_adds_no_question_mark() {
    assert_eq!(attach_query("https://h/p".to_string(), ""), "https://h/p");
    assert_eq!(attach_query("https://h/p".to_string(), "a=1"), "https://h/p?a=1");
    let r = spot().ping().unwrap();
    assert_eq!(r.url, "https://api.binance.com/api/v3/ping");
    assert_eq!(r.verb, HttpVerb::Get);
}

#[test]
fn every_call_carries_the_two_headers() {
    let expected = vec![
        ("Content-Type".to_string(), "application/json".to_string()),
        ("X-MBX-APIKEY".to_string(), KEY.to_string()),
    ];
    assert_eq!(header_pairs(&spot().ping().unwrap()), expected);
    assert_eq!(header_pairs(&futures().account_v2(PTimestamp { recv_window: None, timestamp: 1 }).unwrap()), expected);
    let headers = request_headers("k");
    assert_eq!(headers.len(), 2);
    assert_eq!(headers[1].value, "k");
}

#[test]
fn public_call_is_not_signed() {
    let r = spot().depth(PDepth { symbol: "BTCUSDT".to_string(), limit: 5 }).unwrap();
    assert_eq!(r.url, "https://api.binance.com/api/v3/depth?symbol=BTCUSDT&limit=5");
    assert_eq!(r.verb, HttpVerb::Get);
    let r = futures()
        .klines(PKline { symbol: "BTCUSDT".to_string(), interval: Interval::Hour4, start_time: None, end_time: Some(9), limit: None })
        .unwrap();
    assert_eq!(r.url, "https://fapi.binance.com/fapi/v1/klines?symbol=BTCUSDT&interval=4h&endTime=9");
}

#[test]
fn private_call_is_signed_over_its_query() {
    let ts = PTimestamp { recv_window: Some(5000), timestamp: 1499827319559 };
    let query = "symbol=LTCBTC&recvWindow=5000&timestamp=1499827319559";
    let expected_sig = signature(SECRET, query);
    let r = spot().cancel_open_orders(PSymbolWithTs { symbol: "LTCBTC".to_string(), ts: ts.clone() }).unwrap();
    assert_eq!(r.verb, HttpVerb::Delete);
    assert_eq!(r.url, format!("https://api.binance.com/api/v3/openOrders?{}&signature={}", query, expected_sig));
    assert_eq!(spot().sign(&PSymbolWithTs { symbol: "LTCBTC".to_string(), ts }), expected_sig);
}

#[test]
fn typed_order_is_signed_over_its_fields() {
    let spec = bian_rs::params::POrderSpec {
        symbol: "BTCUSDT".to_string(),
        side: bian_rs::enums::OrderSide::Sell,
        position_side: None,
        order_type: bian_rs::enums::OrderType::Market,
        reduce_only: None,
        quantity: Some("0.25".to_string()),
        price: None,
        new_client_order_id: None,
        stop_price: None,
        close_position: None,
        activation_price: None,
        callback_rate: None,
        time_in_force: None,
        working_type: None,
        price_protect: None,
        new_order_resp_type: None,
    };
    let order = bian_rs::params::POrder { spec: spec.clone(), ts: PTimestamp::at(1600000000000) };
    let query = "symbol=BTCUSDT&side=SELL&type=MARKET&quantity=0.25&timestamp=1600000000000";
    let r = futures().order(order).unwrap();
    assert_eq!(r.verb, HttpVerb::Post);
    assert_eq!(r.url, format!("https://fapi.binance.com/fapi/v1/order?{}&signature={}", query, signature(SECRET, query)));

    let batch = bian_rs::params::PBatchOrder { batch_orders: vec![spec], ts: PTimestamp::at(5) };
    let query = "batchOrders[0][symbol]=BTCUSDT&batchOrders[0][side]=SELL&batchOrders[0][type]=MARKET&batchOrders[0][quantity]=0.25&timestamp=5";
    let r = futures().batch_order(batch).unwrap();
    assert_eq!(r.url, format!("https://fapi.binance.com/fapi/v1/batchOrders?{}&signature={}", query, signature(SECRET, query)));
}

#[test]
fn private_call_with_plain_fields() {
    let fields = vec![
        QueryField::text("symbol", "LTCBTC"),
        QueryField::text("side", "BUY"),
        QueryField::text("type", "LIMIT"),
        QueryField::text("timeInForce", "GTC"),
        QueryField::text("quantity", "1"),
        QueryField::text("price", "0.1"),
        QueryField::signed("recvWindow", 5000),
        QueryField::signed("timestamp", 1499827319559),
    ];
    let r = spot().order(fields).unwrap();
    assert_eq!(r.verb, HttpVerb::Post);
    assert_eq!(
        r.url,
        "https://api.binance.com/api/v3/order?symbol=LTCBTC&side=BUY&type=LIMIT&timeInForce=GTC&quantity=1&price=0.1&recvWindow=5000&timestamp=1499827319559&signature=c8db56825ae71d6d79447849e617115f4a920fa2acdcab2b053c4b2838bd6b71"
    );
}

fn stamp_of(url: &str, path: &str) -> i64 {
    let query = url.strip_prefix(path).unwrap().strip_prefix("?timestamp=").unwrap();
    let (stamp, rest) = query.split_once('&').unwrap();
    let sig = rest.strip_prefix("signature=").unwrap();
    assert_eq!(sig.len(), 64);
    assert!(sig.chars().all(|c| c.is_ascii_digit() || ('a'..='f').contains(&c)));
    assert_eq!(sig, signature(SECRET, &format!("timestamp={}", stamp)));
    stamp.parse().unwrap()
}

fn clock() -> i64 {
    std::time::SystemTime::now().duration_since(std::time::UNIX_EPOCH).unwrap().as_millis() as i64
}

#[test]
fn listen_key_calls_are_stamped_and_signed() {
    let path = "https://fapi.binance.com/fapi/v1/listenKey";
    let before = clock();
    let created = futures().create_listen_key().unwrap();
    let kept = futures().update_listen_key().unwrap();
    let closed = futures().close_listen_key().unwrap();
    let after = clock();
    assert_eq!(created.verb, HttpVerb::Post);
    assert_eq!(kept.verb, HttpVerb::Put);
    assert_eq!(closed.verb, HttpVerb::Delete);
    for request in [created, kept, closed] {
        let stamp = stamp_of(&request.url, path);
        assert!(before - 1000 <= stamp && stamp <= after + 1000);
    }
}

#[test]
fn stamped_request_signs_its_time() {
    let at = PTimestamp::at(1499827319559);
    let r = futures().stamped_request(Method::SPOST, "fapi/v1/listenKey", at).unwrap();
    let query = "timestamp=1499827319559";
    assert_eq!(r.verb, HttpVerb::Post);
    assert_eq!(
        r.url,
        format!("https://fapi.binance.com/fapi/v1/listenKey?{}&signature={}", query, signature(SECRET, query))
    );
    let windowed = PTimestamp { recv_window: Some(5000), timestamp: 7 };
    let r = spot().stamped_request(Method::SGET, "api/v3/account", windowed).unwrap();
    let query = "recvWindow=5000&timestamp=7";
    assert_eq!(r.url, format!("https://api.binance.com/api/v3/account?{}&signature={}", query, signature(SECRET, query)));
}

#[test]
fn methods_split_into_verb_and_signing() {
    let table = [
        (Method::GET, HttpVerb::Get, false),
        (Method::POST, HttpVerb::Post, false),
        (Method::PUT, HttpVerb::Put, false),
        (Method::DELETE, HttpVerb::Delete, false),
        (Method::SGET, HttpVerb::Get, true),
        (Method::SPOST, HttpVerb::Post, true),
        (Method::SPUT, HttpVerb::Put, true),
        (Method::SDELETE, HttpVerb::Delete, true),
    ];
    for (method, verb, signed) in table {
        assert_eq!(method.verb(), verb);
        assert_eq!(method.is_signed(), signed);
    }
    assert_eq!(HttpVerb::Get.name(), "GET");
    assert_eq!(HttpVerb::Post.name(), "POST");
    assert_eq!(HttpVerb::Put.name(), "PUT");
    assert_eq!(HttpVerb::Delete.name(), "DELETE");
}

#[test]
fn request_parts() {
    let fields = vec![QueryField::text("symbol", "BTCUSDT")];
    assert_eq!(call_query(false, SECRET, &fields), "symbol=BTCUSDT");
    assert_eq!(call_query(true, SECRET, &fields), format!("symbol=BTCUSDT&signature={}", signature(SECRET, "symbol=BTCUSDT")));
    let r = request_to("https://h/p".to_string(), "key", SECRET, Method::PUT, &fields);
    assert_eq!((r.verb, r.url.as_str()), (HttpVerb::Put, "https://h/p?symbol=BTCUSDT"));
    let r = build_request("https://h", "key", SECRET, Method::GET, "p", &Vec::new()).unwrap();
    assert_eq!(r.url, "https://h/p");
    assert!(matches!(build_request("h", "key", SECRET, Method::GET, "p", &fields), Err(APIError::InvalidUrl(p)) if p == "p"));
}

#[test]
fn same_call_prepared_many_times_is_the_same_request() {
    let client = futures();
    let make = || client.position_risk(PSymbolWithTs { symbol: "BTCUSDT".to_string(), ts: PTimestamp { recv_window: None, timestamp: 1700000000000 } }).unwrap().url;
    let first = make();
    for _ in 0..32 {
        assert_eq!(make(), first);
    }
}

#[test]
fn symbol_endpoints_of_both_segments() {
    let symbol = || PSymbol { symbol: "ETHUSDT".to_string() };
    assert_eq!(spot().avg_price(symbol()).unwrap().url, "https://api.binance.com/api/v3/avgPrice?symbol=ETHUSDT");
    assert_eq!(spot().book_tickers().unwrap().url, "https://api.binance.com/api/v3/ticker/bookTicker");
    assert_eq!(futures().premium_index(symbol()).unwrap().url, "https://fapi.binance.com/fapi/v1/premiumIndex?symbol=ETHUSDT");
    assert_eq!(futures().open_interest(symbol()).unwrap().url, "https://fapi.binance.com/fapi/v1/openInterest?symbol=ETHUSDT");
    assert_eq!(futures().index_infos().unwrap().url, "https://fapi.binance.com/fapi/v1/indexInfo");
}

#[test]
fn outcome_of_a_call() {
    assert_eq!(conclude(Transport::Answered { status: 200, body: "{}".to_string() }).unwrap(), "{}");
    assert!(matches!(conclude(Transport::Answered { status: 429, body: "{}".to_string() }), Err(APIError::FreqWarning)));
    assert!(matches!(conclude(Transport::Answered { status: 502, body: "gw".to_string() }), Err(APIError::ServerSideError(b)) if b == "gw"));
    assert!(matches!(conclude(Transport::Failed("dns".to_string())), Err(APIError::RequestError(m)) if m == "dns"));
    assert_eq!(decoded::<u8>(Ok(3)).unwrap(), 3);
    assert!(matches!(decoded::<u8>(Err("eof".to_string())), Err(APIError::DecodeError(m)) if m == "eof"));
}

#[test]
fn malformed_error_body_is_never_a_decode_failure() {
    let outcome = conclude(Transport::Answered { status: 400, body: "<html>".to_string() });
    assert!(matches!(outcome, Err(APIError::ClientSideError(b)) if b == "<html>"));
}
