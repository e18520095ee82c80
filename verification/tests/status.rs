use bian_rs::error::APIError;

fn classify(status: u16) -> Result<String, APIError> {
    APIError::check_resp(status, "the body".to_string())
}

#[test]
fn success_keeps_the_body() {
    assert_eq!(classify(200).unwrap(), "the body");
    assert_eq!(classify(299).unwrap(), "the body");
    assert_eq!(classify(0).unwrap(), "the body");
    assert_eq!(classify(204).unwrap(), "the body");
}

#[test]
fn redirects_are_unknown() {
    assert!(matches!(classify(300), Err(APIError::Unknown(body)) if body == "the body"));
    assert!(matches!(classify(302), Err(APIError::Unknown(_))));
    assert!(matches!(classify(399), Err(APIError::Unknown(_))));
}

#[test]
fn client_side_statuses() {
    assert!(matches!(classify(400), Err(APIError::ClientSideError(body)) if body == "the body"));
    assert!(matches!(classify(404), Err(APIError::ClientSideError(_))));
    assert!(matches!(classify(499), Err(APIError::ClientSideError(_))));
    assert!(matches!(classify(417), Err(APIError::ClientSideError(_))));
    assert!(matches!(classify(419), Err(APIError::ClientSideError(_))));
}

#[test]
fn dedicated_statuses_drop_the_body() {
    assert!(matches!(classify(403), Err(APIError::WAFLimit)));
    assert!(matches!(classify(418), Err(APIError::Banned)));
    assert!(matches!(classify(429), Err(APIError::FreqWarning)));
}

#[test]
fn server_side_statuses() {
    assert!(matches!(classify(500), Err(APIError::ServerSideError(body)) if body == "the body"));
    assert!(matches!(classify(503), Err(APIError::ServerSideError(_))));
    assert!(matches!(classify(599), Err(APIError::ServerSideError(_))));
    assert!(matches!(classify(u16::MAX), Err(APIError::ServerSideError(_))));
}

#[test]
fn every_status_has_exactly_one_outcome() {
    for status in 0..=u16::MAX {
        let outcome = classify(status);
        let expected_ok = status < 300;
        assert_eq!(outcome.is_ok(), expected_ok, "status {}", status);
        if let Err(e) = outcome {
            let fits = match e {
                APIError::WAFLimit => status == 403,
                APIError::FreqWarning => status == 429,
                APIError::Banned => status == 418,
                APIError::ServerSideError(_) => status >= 500,
                APIError::ClientSideError(_) => (400..500).contains(&status) && ![403, 418, 429].contains(&status),
                APIError::Unknown(_) => (300..400).contains(&status),
                _ => false,
            };
            assert!(fits, "status {}", status);
        }
    }
}

#[test]
fn messages_name_the_failure() {
    assert_eq!(APIError::ClientSideError("x".to_string()).message(), "4xx client side error x");
    assert_eq!(APIError::WAFLimit.message(), "403 hit web application firewall(waf)");
    assert_eq!(APIError::FreqWarning.message(), "429 frequency warning");
    assert_eq!(APIError::Banned.message(), "418 banned by api");
    assert_eq!(APIError::ServerSideError("x".to_string()).message(), "server side error x");
    assert_eq!(APIError::RequestError("x".to_string()).message(), "request error x");
    assert_eq!(APIError::DecodeError("x".to_string()).message(), "decode response body error x");
    assert_eq!(APIError::InvalidUrl("x".to_string()).message(), "invalid url x");
    assert_eq!(APIError::Unknown("x".to_string()).message(), "unknown x");
    assert_eq!(APIError::WSConnectError("x".to_string()).message(), "websocket connect error x");
    assert_eq!(APIError::WSClientError("x".to_string()).message(), "websocket client error x");
}

#[test]
fn decode_failure_wraps_the_message() {
    assert!(matches!(APIError::decode_failure("bad".to_string()), APIError::DecodeError(m) if m == "bad"));
}
