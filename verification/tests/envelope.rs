use bian_rs::error::APIError;
use bian_rs::json::{envelope_outcome, normalize_json, payload, unwrap_envelope};
use bian_rs::response::MultiResponse;
use bian_rs::stream::StreamMode;
use serde_json::Value;

const INNER: &str = r#"{"e":"trade","E":123456789,"s":"BTCUSDT","p":"0.001","q":"100","m":true}"#;

fn value(text: &str) -> Value {
    serde_json::from_str(text).unwrap()
}

#[test]
fn envelope_round_trip() {
    let envelope = format!("{{\"stream\":\"btcusdt@trade\",\"data\":{}}}", INNER);
    let through_combined = payload(StreamMode::Combined, &envelope).unwrap();
    let through_single = payload(StreamMode::Single, INNER).unwrap();
    assert_eq!(value(&through_combined), value(INNER));
    assert_eq!(through_combined, through_single);
}

#[test]
fn envelope_built_by_the_json_crate_round_trips() {
    let mut object = serde_json::Map::new();
    object.insert("stream".to_string(), Value::String("btcusdt@trade".to_string()));
    object.insert("data".to_string(), value(INNER));
    let text = serde_json::to_string(&Value::Object(object)).unwrap();
    assert_eq!(value(&unwrap_envelope(&text).unwrap()), value(INNER));
}

#[test]
fn payload_is_compact_json() {
    assert_eq!(normalize_json(" { \"a\" : [ 1 , 2 ] } ").unwrap(), "{\"a\":[1,2]}");
    assert_eq!(unwrap_envelope("{ \"stream\" : \"t\", \"data\" : [ 1, \"x\" ] }").unwrap(), "[1,\"x\"]");
    assert_eq!(unwrap_envelope(r#"{"data":null,"stream":""}"#).unwrap(), "null");
}

#[test]
fn mode_decides_the_shape_not_the_content() {
    let envelope = format!("{{\"stream\":\"btcusdt@trade\",\"data\":{}}}", INNER);
    let as_single = payload(StreamMode::Single, &envelope).unwrap();
    assert_eq!(value(&as_single), value(&envelope));
    assert!(matches!(payload(StreamMode::Combined, INNER), Err(APIError::DecodeError(_))));
}

#[test]
fn broken_envelopes_are_decode_failures() {
    let message = |text: &str| match unwrap_envelope(text) {
        Err(APIError::DecodeError(m)) => m,
        other => panic!("unexpected {:?}", other),
    };
    assert_eq!(message(r#"{"data":{}}"#), "missing field `stream`");
    assert_eq!(message(r#"{"stream":"t"}"#), "missing field `data`");
    assert_eq!(message(r#"{"stream":5,"data":{}}"#), "invalid type for field `stream`: expected a string");
    assert_eq!(message(r#"[1,2]"#), "missing field `stream`");
    assert!(!message("not json").is_empty());
    assert!(!message("").is_empty());
    assert!(matches!(normalize_json("{"), Err(APIError::DecodeError(_))));
}

#[test]
fn outcome_of_what_was_found() {
    assert_eq!(envelope_outcome(Some(true), Some("{}".to_string())).unwrap(), "{}");
    assert!(matches!(envelope_outcome(Some(true), None), Err(APIError::DecodeError(m)) if m == "missing field `data`"));
    assert!(matches!(envelope_outcome(None, Some("1".to_string())), Err(APIError::DecodeError(m)) if m == "missing field `stream`"));
    assert!(matches!(envelope_outcome(Some(false), Some("1".to_string())), Err(APIError::DecodeError(_))));
}

#[test]
fn envelope_value_hands_out_its_data() {
    let wrapped = MultiResponse { stream: "btcusdt@trade".to_string(), data: 42u32 };
    assert_eq!(wrapped.into_data(), 42);
}
