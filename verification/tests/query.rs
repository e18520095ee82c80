use bian_rs::query::{canonical_query, push_text_items, push_uint_items, to_query, QueryField, QueryValue};
use bian_rs::params::PHistoricalTrade;
use bian_rs::text::{append_decimal, append_signed_decimal, decimal_string};
use std::collections::BTreeMap;

fn one(key: &str, value: QueryValue) -> Vec<QueryField> {
    vec![QueryField { key: key.to_string(), path: Vec::new(), value: Some(value) }]
}

fn encode(value: &str) -> String {
    let query = canonical_query(&one("k", QueryValue::Text(value.to_string())));
    query.strip_prefix("k=").unwrap().to_string()
}

#[test]
fn empty_parameters_give_an_empty_query() {
    assert_eq!(canonical_query(&Vec::new()), "");
    let only_absent = vec![
        QueryField { key: "limit".to_string(), path: Vec::new(), value: None },
        QueryField { key: "fromId".to_string(), path: Vec::new(), value: None },
    ];
    assert_eq!(canonical_query(&only_absent), "");
}

#[test]
fn absent_field_leaves_no_trace() {
    let params = PHistoricalTrade { symbol: "BTCUSDT".to_string(), limit: None, from_id: Some(7) };
    let query = to_query(&params);
    assert_eq!(query, "symbol=BTCUSDT&fromId=7");
    assert!(!query.contains("limit"));
    let full = PHistoricalTrade { symbol: "BTCUSDT".to_string(), limit: Some(5), from_id: Some(7) };
    assert_eq!(to_query(&full), "symbol=BTCUSDT&limit=5&fromId=7");
}

#[test]
fn absent_field_between_present_ones_adds_no_separator() {
    let fields = vec![
        QueryField::text("a", "1"),
        QueryField::opt_text("b", None),
        QueryField::opt_signed("c", None),
        QueryField::text("d", "2"),
        QueryField::opt_unsigned("e", None),
    ];
    assert_eq!(canonical_query(&fields), "a=1&d=2");
}

#[test]
fn fields_keep_their_order() {
    let fields = vec![QueryField::text("z", "1"), QueryField::text("a", "2"), QueryField::text("m", "3")];
    assert_eq!(canonical_query(&fields), "z=1&a=2&m=3");
}

#[test]
fn scalars_are_rendered_in_plain_text() {
    assert_eq!(canonical_query(&one("n", QueryValue::Int(-42))), "n=-42");
    assert_eq!(canonical_query(&one("n", QueryValue::Int(0))), "n=0");
    assert_eq!(canonical_query(&one("n", QueryValue::Int(i64::MIN))), "n=-9223372036854775808");
    assert_eq!(canonical_query(&one("n", QueryValue::Int(i64::MAX))), "n=9223372036854775807");
    assert_eq!(canonical_query(&one("n", QueryValue::Uint(u64::MAX))), "n=18446744073709551615");
    assert_eq!(canonical_query(&one("b", QueryValue::Bool(true))), "b=true");
    assert_eq!(canonical_query(&one("b", QueryValue::Bool(false))), "b=false");
    assert_eq!(canonical_query(&vec![QueryField::flag("dualSidePosition", true)]), "dualSidePosition=true");
    assert_eq!(canonical_query(&vec![QueryField::signed("t", -1), QueryField::unsigned("u", 10)]), "t=-1&u=10");
}

#[test]
fn text_is_form_encoded() {
    assert_eq!(encode("BTCUSDT"), "BTCUSDT");
    assert_eq!(encode("a b"), "a+b");
    assert_eq!(encode("a+b"), "a%2Bb");
    assert_eq!(encode("a&b=c"), "a%26b%3Dc");
    assert_eq!(encode("*-._"), "*-._");
    assert_eq!(encode("~!@/"), "%7E%21%40%2F");
    assert_eq!(encode("é"), "%C3%A9");
    assert_eq!(encode("币安"), "%E5%B8%81%E5%AE%89");
    assert_eq!(encode("\u{0}\u{7f}"), "%00%7F");
    assert_eq!(encode(""), "");
}

#[test]
fn keys_are_form_encoded_too() {
    let fields = vec![QueryField::text("a key", "v"), QueryField::text("x[y]", "w")];
    assert_eq!(canonical_query(&fields), "a+key=v&x%5By%5D=w");
}

#[test]
fn list_elements_carry_their_position() {
    let mut fields = vec![QueryField::text("symbol", "BTCUSDT")];
    push_uint_items(&mut fields, "orderIdList", &vec![11, 22, 33]);
    push_text_items(&mut fields, "names", &vec!["a b".to_string()]);
    assert_eq!(
        canonical_query(&fields),
        "symbol=BTCUSDT&orderIdList[0]=11&orderIdList[1]=22&orderIdList[2]=33&names[0]=a+b"
    );
}

#[test]
fn encoding_agrees_with_the_query_string_crate() {
    let samples = ["plain", "a b", "a+b&c=d", "100%", "é~ü", "[x]", "tab\there", "quote\"s", "semi;colon", "uni\u{1F600}code", "-_.*"];
    for key in samples {
        for value in samples {
            let mut map = BTreeMap::new();
            map.insert(key.to_string(), value.to_string());
            let expected = serde_qs::to_string(&map).unwrap();
            let fields = vec![QueryField::text(key, value)];
            assert_eq!(canonical_query(&fields), expected, "key {:?} value {:?}", key, value);
        }
    }
}

#[test]
fn every_byte_is_encoded_as_the_query_string_crate_does() {
    for byte in 0u8..=127 {
        let value = (byte as char).to_string();
        let mut map = BTreeMap::new();
        map.insert("k".to_string(), value.clone());
        assert_eq!(canonical_query(&vec![QueryField::text("k", &value)]), serde_qs::to_string(&map).unwrap());
    }
}

#[test]
fn several_pairs_agree_with_the_query_string_crate() {
    let mut map = BTreeMap::new();
    map.insert("alpha".to_string(), 1i64);
    map.insert("beta".to_string(), -20i64);
    map.insert("gamma".to_string(), 300i64);
    let fields = vec![QueryField::signed("alpha", 1), QueryField::signed("beta", -20), QueryField::signed("gamma", 300)];
    assert_eq!(canonical_query(&fields), serde_qs::to_string(&map).unwrap());
    assert_eq!(canonical_query(&fields), "alpha=1&beta=-20&gamma=300");
}

#[test]
fn decimal_numerals() {
    assert_eq!(decimal_string(0), "0");
    assert_eq!(decimal_string(9), "9");
    assert_eq!(decimal_string(10), "10");
    assert_eq!(decimal_string(1499827319559), "1499827319559");
    assert_eq!(decimal_string(u64::MAX), u64::MAX.to_string());
    let mut out = "x".to_string();
    append_decimal(&mut out, 120);
    append_signed_decimal(&mut out, -7);
    append_signed_decimal(&mut out, 7);
    assert_eq!(out, "x120-77");
    for n in [1u64, 99, 100, 101, 65535, 1 << 40] {
        assert_eq!(decimal_string(n), n.to_string());
    }
}

#[test]
fn query_splits_into_its_pairs() {
    let fields = vec![
        QueryField::text("a&b", "x=y&z"),
        QueryField::opt_text("gone", None),
        QueryField::text("c=d", "&&"),
        QueryField::signed("n", -5),
        QueryField::text("empty", ""),
    ];
    let query = canonical_query(&fields);
    let pieces: Vec<&str> = query.split('&').collect();
    assert_eq!(pieces, vec!["a%26b=x%3Dy%26z", "c%3Dd=%26%26", "n=-5", "empty="]);
    for piece in pieces {
        assert_eq!(piece.matches('=').count(), 1);
    }
}

#[test]
fn absent_key_starts_no_pair_even_when_its_text_occurs() {
    let fields = vec![
        QueryField::unsigned("orderId", 5),
        QueryField::opt_unsigned("Id", None),
        QueryField::text("note", "Id=7"),
    ];
    let query = canonical_query(&fields);
    assert_eq!(query, "orderId=5&note=Id%3D7");
    assert!(query.split('&').all(|piece| !piece.starts_with("Id=")));
}
