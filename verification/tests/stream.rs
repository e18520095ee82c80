use bian_rs::client::SpotWSClient;
use bian_rs::enums::Interval;
use bian_rs::stream::{combined_path, single_path, subscribe_multi, subscribe_single, topic, StreamMode};

#[test]
fn topic_of_a_symbol_and_a_channel() {
    assert_eq!(topic("btcusdt", "aggTrade"), "btcusdt@aggTrade");
}

#[test]
fn topic_of_a_global_feed_has_no_extra_at() {
    assert_eq!(topic("", "!miniTicker@arr"), "!miniTicker@arr");
}

#[test]
fn combined_path_joins_the_topics() {
    let symbols = vec!["btcusdt".to_string(), "ethusdt".to_string()];
    assert_eq!(combined_path(&symbols, "bookTicker"), "stream?streams=btcusdt@bookTicker/ethusdt@bookTicker");
    assert_eq!(combined_path(&vec!["btcusdt".to_string()], "trade"), "stream?streams=btcusdt@trade");
    assert_eq!(combined_path(&Vec::new(), "trade"), "stream?streams=");
    let three = vec!["a".to_string(), "b".to_string(), "c".to_string()];
    assert_eq!(combined_path(&three, "x"), "stream?streams=a@x/b@x/c@x");
}

#[test]
fn single_path_is_under_ws() {
    assert_eq!(single_path("btcusdt", "trade"), "ws/btcusdt@trade");
    assert_eq!(single_path("", "!ticker@arr"), "ws/!ticker@arr");
}

#[test]
fn subscriptions_resolve_against_the_endpoint() {
    let single = subscribe_single("wss://stream.binance.com:9443", "btcusdt", "trade").unwrap();
    assert_eq!(single.url, "wss://stream.binance.com:9443/ws/btcusdt@trade");
    assert_eq!(single.mode, StreamMode::Single);
    let symbols = vec!["btcusdt".to_string(), "ethusdt".to_string()];
    let multi = subscribe_multi("wss://stream.binance.com:9443", &symbols, "trade").unwrap();
    assert_eq!(multi.url, "wss://stream.binance.com:9443/stream?streams=btcusdt@trade/ethusdt@trade");
    assert_eq!(multi.mode, StreamMode::Combined);
}

#[test]
fn spot_streams() {
    let client = SpotWSClient { proxy: None, base_url: "wss://stream.binance.com:9443".to_string() };
    let base = "wss://stream.binance.com:9443";
    let symbols = || vec!["btcusdt".to_string(), "ethusdt".to_string()];
    assert_eq!(client.agg_trade("btcusdt".to_string()).unwrap().url, format!("{}/ws/btcusdt@aggTrade", base));
    assert_eq!(client.agg_trade_multi(symbols()).unwrap().url, format!("{}/stream?streams=btcusdt@aggTrade/ethusdt@aggTrade", base));
    assert_eq!(client.trade("btcusdt".to_string()).unwrap().url, format!("{}/ws/btcusdt@trade", base));
    assert_eq!(client.trade_multi(symbols()).unwrap().mode, StreamMode::Combined);
    assert_eq!(client.kline("btcusdt".to_string(), Interval::Hour1).unwrap().url, format!("{}/ws/btcusdt@kline_1h", base));
    assert_eq!(client.kline_multi(symbols(), Interval::Min3).unwrap().url, format!("{}/stream?streams=btcusdt@kline_3m/ethusdt@kline_3m", base));
    assert_eq!(client.mini_ticker("btcusdt".to_string()).unwrap().url, format!("{}/ws/btcusdt@miniTicker", base));
    assert_eq!(client.mini_ticker_multi(symbols()).unwrap().url, format!("{}/stream?streams=btcusdt@miniTicker/ethusdt@miniTicker", base));
    assert_eq!(client.all_mini_ticker().unwrap().url, format!("{}/ws/!miniTicker@arr", base));
    assert_eq!(client.symbol_ticker("btcusdt".to_string()).unwrap().url, format!("{}/ws/btcusdt@ticker", base));
    assert_eq!(client.symbol_ticker_multi(symbols()).unwrap().url, format!("{}/stream?streams=btcusdt@ticker/ethusdt@ticker", base));
    assert_eq!(client.all_symbol_ticker().unwrap().url, format!("{}/ws/!ticker@arr", base));
    assert_eq!(client.build_single(String::new(), "x").unwrap().url, format!("{}/ws/x", base));
    assert_eq!(client.build_multi(symbols(), "x").unwrap().url, format!("{}/stream?streams=btcusdt@x/ethusdt@x", base));
}
