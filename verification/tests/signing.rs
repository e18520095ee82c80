use bian_rs::query::{canonical_query, QueryField, QueryValue};
use bian_rs::sign::{sign_fields, signature, signed_query};

fn word(key: &str, value: &str) -> QueryField {
    QueryField { key: key.to_string(), path: Vec::new(), value: Some(QueryValue::Text(value.to_string())) }
}

fn whole(key: &str, value: i64) -> QueryField {
    QueryField { key: key.to_string(), path: Vec::new(), value: Some(QueryValue::Int(value)) }
}

fn absent(key: &str) -> QueryField {
    QueryField { key: key.to_string(), path: Vec::new(), value: None }
}

const DOC_SECRET: &str = "NhqPtmdSJYdKjVHjA7PZj4Mge3R5YNiP1e3UZjInClVN65XAbvqqM6A7H5fATj0j";
const DOC_QUERY: &str = "symbol=LTCBTC&side=BUY&type=LIMIT&timeInForce=GTC&quantity=1&price=0.1&recvWindow=5000&timestamp=1499827319559";
const DOC_SIGNATURE: &str = "c8db56825ae71d6d79447849e617115f4a920fa2acdcab2b053c4b2838bd6b71";

#[test]
fn signature_matches_published_vector() {
    assert_eq!(signature(DOC_SECRET, DOC_QUERY), DOC_SIGNATURE);
}

#[test]
fn signature_matches_rfc_vector() {
    assert_eq!(
        signature("Jefe", "what do ya want for nothing?"),
        "5bdcc146bf60754e6a042426089575c75a003f089d2739839dec58b964ec3843"
    );
}

#[test]
fn signed_query_appends_signature_pair() {
    let signed = signed_query(DOC_SECRET, DOC_QUERY);
    assert_eq!(signed, format!("{}&signature={}", DOC_QUERY, DOC_SIGNATURE));
}

#[test]
fn signature_is_lowercase_hex_of_fixed_length() {
    let sig = signature("", "");
    assert_eq!(sig.len(), 64);
    assert!(sig.chars().all(|c| c.is_ascii_digit() || ('a'..='f').contains(&c)));
    assert_eq!(sig, "b613679a0814d9ec772f95d778c35fc5ff1697c493715653c6c712144292c5ad");
}

#[test]
fn signing_twice_gives_identical_bytes() {
    let fields = vec![word("symbol", "BTCUSDT"), absent("recvWindow"), whole("timestamp", 1499827319559)];
    let first = canonical_query(&fields);
    let second = canonical_query(&fields);
    assert_eq!(first, second);
    assert_eq!(first, "symbol=BTCUSDT&timestamp=1499827319559");
    assert_eq!(sign_fields("secret", &fields), sign_fields("secret", &fields));
    assert_eq!(sign_fields("secret", &fields), signature("secret", &first));
}

#[test]
fn repeated_signing_from_many_callers_agrees() {
    let fields = vec![word("symbol", "ETHUSDT"), whole("recvWindow", 5000), whole("timestamp", 1700000000000)];
    let expected = sign_fields(DOC_SECRET, &fields);
    for _ in 0..64 {
        let again = fields.clone();
        assert_eq!(sign_fields(DOC_SECRET, &again), expected);
    }
}

#[test]
fn long_secret_is_accepted() {
    let secret = "k".repeat(200);
    assert_eq!(signature(&secret, "a=1").len(), 64);
    assert_ne!(signature(&secret, "a=1"), signature("k", "a=1"));
}

#[test]
fn signature_is_appended_as_the_last_pair() {
    assert_eq!(bian_rs::sign::with_signature("a=1", "ff"), "a=1&signature=ff");
    assert_eq!(bian_rs::sign::with_signature("", "ff"), "&signature=ff");
}

#[test]
fn shared_client_signs_the_same_for_every_caller() {
    let client = bian_rs::client::SpotHttpClient::new("key", DOC_SECRET, "https://api.binance.com").unwrap();
    let params = || bian_rs::params::PSymbolWithTs {
        symbol: "BTCUSDT".to_string(),
        ts: bian_rs::params::PTimestamp { recv_window: Some(5000), timestamp: 1700000000000 },
    };
    let expected = client.sign(&params());
    assert_eq!(expected.len(), 64);
    let expected_url = client.cancel_open_orders(params()).unwrap().url;
    let callers: Vec<&bian_rs::client::SpotHttpClient> = (0..16).map(|_| &client).collect();
    for caller in callers {
        assert_eq!(caller.sign(&params()), expected);
        assert_eq!(caller.cancel_open_orders(params()).unwrap().url, expected_url);
    }
    assert!(expected_url.ends_with(&format!("&signature={}", expected)));
}
