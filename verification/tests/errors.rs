use groqai::error::{
    find_header, retry_after_millis, GroqApiError, GroqApiErrorDetails, GroqError, SerdeError,
    TransportError,
};
use groqai::json::Json;
use groqai::text::{decimal_text, parse_u64};
use groqai::transport::{connection_retry_delay, ApiKey, ConnectionRetry, ConnectionStep};

fn headers(pairs: &[(&str, &str)]) -> Vec<(String, String)> {
    pairs.iter().map(|(k, v)| (k.to_string(), v.to_string())).collect()
}

#[test]
fn test_invalid_api_key() {
    let result = ApiKey::new("invalid".to_string());
    assert!(matches!(result, Err(GroqError::InvalidApiKey(_))));
}

#[test]
fn test_with_api_key_invalid() {
    let result = ApiKey::new("invalid_key".to_string());
    assert!(result.is_err());
    if let Err(GroqError::InvalidApiKey(message)) = result {
        assert_eq!(message, "Invalid API key format");
    } else {
        panic!("Expected InvalidApiKey error");
    }
}

#[test]
fn test_with_api_key() {
    let result = ApiKey::new("gsk_test_key_12345".to_string());
    assert!(result.is_ok());
    assert_eq!(result.unwrap().as_str(), "gsk_test_key_12345");
}

#[test]
fn api_key_may_stand_after_white_space() {
    let key = ApiKey::new(" \t\u{a0}\u{3000}gsk_abc \n".to_string()).unwrap();
    assert_eq!(key.as_str(), " \t\u{a0}\u{3000}gsk_abc \n");
    assert_eq!(key.redacted(), "ApiKey(redacted)");
}

#[test]
fn api_key_is_refused_without_its_prefix() {
    for bad in ["", "   ", "gsk", "GSK_abc", "xgsk_abc", "g sk_abc", "\u{200b}gsk_abc"] {
        assert!(matches!(ApiKey::new(bad.to_string()), Err(GroqError::InvalidApiKey(_))), "{:?}", bad);
    }
    assert!(ApiKey::new("gsk_".to_string()).is_ok());
}

#[test]
fn error_classification() {
    assert!(GroqError::RateLimited.is_retryable());
    assert!(GroqError::RateLimited.is_rate_limited());
    assert!(!GroqError::RateLimited.is_auth_error());
    let key = GroqError::InvalidApiKey("bad key".to_string());
    assert!(!key.is_retryable());
    assert!(!key.is_rate_limited());
    assert!(key.is_auth_error());
    let transport = GroqError::Transport(TransportError::new("reset".to_string()));
    assert!(!transport.is_retryable());
    assert!(!transport.is_rate_limited());
    assert!(!transport.is_auth_error());
    let serde = GroqError::Serde(SerdeError::new("eof".to_string()));
    assert!(!serde.is_retryable());
    let api = GroqError::Api(GroqApiError::from_response(429, "x".to_string(), &vec![]));
    assert!(!api.is_retryable());
    assert!(!api.is_rate_limited());
    assert!(!GroqError::InvalidMessage("m".to_string()).is_retryable());
    assert!(!GroqError::UrlParse("u".to_string()).is_auth_error());
    assert!(!GroqError::Backoff("b".to_string()).is_retryable());
}

#[test]
fn errors_are_made_from_their_parts() {
    let api = GroqApiError::from_response(500, "x".to_string(), &vec![]);
    assert!(matches!(GroqError::from(api), GroqError::Api(e) if e.status == 500));
    let transport = TransportError::new("t".to_string());
    assert!(matches!(GroqError::from(transport), GroqError::Transport(e) if e.message() == "t"));
    let serde = SerdeError::new("s".to_string());
    assert!(matches!(GroqError::from(serde), GroqError::Serde(e) if e.message() == "s"));
}

#[test]
fn error_body_with_details() {
    let body = "{\"error\":{\"message\":\"Rate limit exceeded\",\"type\":\"rate_limit_exceeded\",\"code\":null,\"extra\":1}}";
    let err = GroqApiError::from_response(
        429,
        body.to_string(),
        &headers(&[("retry-after", "1"), ("x-request-id", "req_42")]),
    );
    assert_eq!(err.status, 429);
    assert_eq!(err.request_id, Some("req_42".to_string()));
    assert_eq!(err.error.message, "Rate limit exceeded");
    assert_eq!(err.error.error_type, Some("rate_limit_exceeded".to_string()));
    assert_eq!(err.error.code, None);
    assert_eq!(err.error.param, None);
    assert_eq!(err.retry_after, Some(1000));
}

#[test]
fn error_body_that_is_not_the_expected_json_becomes_the_message() {
    for body in [
        "Service Unavailable",
        "",
        "{\"error\":\"flat\"}",
        "{\"error\":{\"type\":\"no message\"}}",
        "{\"error\":{\"message\":5}}",
        "{\"error\":{\"message\":\"m\",\"code\":7}}",
        "{\"message\":\"not under error\"}",
        "[1,2]",
    ] {
        let err = GroqApiError::from_response(503, body.to_string(), &vec![]);
        assert_eq!(err.error.message, body);
        assert_eq!(err.error.error_type, None);
        assert_eq!(err.error.code, None);
        assert_eq!(err.error.param, None);
        assert_eq!(err.retry_after, None);
        assert_eq!(err.request_id, None);
    }
}

#[test]
fn details_from_a_document_given_by_hand() {
    let doc = Json::Object(vec![(
        "error".to_string(),
        Json::Object(vec![
            ("message".to_string(), Json::String("m".to_string())),
            ("param".to_string(), Json::String("p".to_string())),
        ]),
    )]);
    let details = GroqApiErrorDetails::from_document("raw".to_string(), Some(&doc));
    assert_eq!(details.message, "m");
    assert_eq!(details.param, Some("p".to_string()));
    let plain = GroqApiErrorDetails::from_document("raw".to_string(), None);
    assert_eq!(plain.message, "raw");
    let other = Json::Array(vec![]);
    assert_eq!(GroqApiErrorDetails::from_document("raw".to_string(), Some(&other)).message, "raw");
}

#[test]
fn retry_after_header() {
    assert_eq!(retry_after_millis(&headers(&[("retry-after", "30")])), Some(30_000));
    assert_eq!(retry_after_millis(&headers(&[("retry-after", "0")])), Some(0));
    assert_eq!(retry_after_millis(&headers(&[("retry-after", "+7")])), Some(7000));
    assert_eq!(retry_after_millis(&headers(&[("content-type", "x"), ("retry-after", "2")])), Some(2000));
    assert_eq!(retry_after_millis(&headers(&[("retry-after", "2"), ("retry-after", "9")])), Some(2000));
    assert_eq!(retry_after_millis(&headers(&[("retry-after", "soon")])), None);
    assert_eq!(retry_after_millis(&headers(&[("retry-after", "1.5")])), None);
    assert_eq!(retry_after_millis(&headers(&[("retry-after", " 1")])), None);
    assert_eq!(retry_after_millis(&headers(&[("retry-after", "-1")])), None);
    assert_eq!(retry_after_millis(&headers(&[("retry-after", "")])), None);
    assert_eq!(retry_after_millis(&headers(&[("Retry-After", "1")])), None);
    assert_eq!(retry_after_millis(&headers(&[])), None);
    assert_eq!(
        retry_after_millis(&headers(&[("retry-after", "18446744073709551615")])),
        Some(u64::MAX)
    );
    assert_eq!(
        retry_after_millis(&headers(&[("retry-after", "18446744073709551")])),
        Some(18446744073709551000)
    );
    assert_eq!(retry_after_millis(&headers(&[("retry-after", "18446744073709551616")])), None);
}

#[test]
fn header_lookup_takes_the_first() {
    let list = headers(&[("a", "1"), ("b", "2"), ("a", "3")]);
    assert_eq!(find_header(&list, "a"), Some(&"1".to_string()));
    assert_eq!(find_header(&list, "b"), Some(&"2".to_string()));
    assert_eq!(find_header(&list, "c"), None);
}

#[test]
fn decimal_numbers() {
    assert_eq!(parse_u64("0"), Some(0));
    assert_eq!(parse_u64("007"), Some(7));
    assert_eq!(parse_u64("+12"), Some(12));
    assert_eq!(parse_u64("18446744073709551615"), Some(u64::MAX));
    assert_eq!(parse_u64("18446744073709551616"), None);
    assert_eq!(parse_u64("99999999999999999999999"), None);
    assert_eq!(parse_u64(""), None);
    assert_eq!(parse_u64("+"), None);
    assert_eq!(parse_u64("++1"), None);
    assert_eq!(parse_u64("-1"), None);
    assert_eq!(parse_u64("1 "), None);
    assert_eq!(parse_u64("1a"), None);
    assert_eq!(parse_u64("\u{0661}"), None);
    for text in ["0", "42", "+5", "x", "", "18446744073709551616", "00", "+", "-0"] {
        assert_eq!(parse_u64(text), text.parse::<u64>().ok(), "{:?}", text);
    }
}

#[test]
fn reconnect_delays_double() {
    assert_eq!(connection_retry_delay(0), 100);
    assert_eq!(connection_retry_delay(1), 200);
    assert_eq!(connection_retry_delay(2), 400);
    assert_eq!(connection_retry_delay(3), 800);
    assert_eq!(connection_retry_delay(10), 102_400);
    assert_eq!(connection_retry_delay(57), 100 * (1u64 << 57));
    assert_eq!(connection_retry_delay(58), u64::MAX);
    assert_eq!(connection_retry_delay(u32::MAX), u64::MAX);
}

#[test]
fn stream_is_opened_again_as_often_as_allowed() {
    let mut retry = ConnectionRetry::new(2);
    let fail = |n: u32| GroqError::Transport(TransportError::new(format!("attempt {}", n)));
    assert!(matches!(retry.on_failure(fail(1)), ConnectionStep::RetryAfter(200)));
    assert!(matches!(retry.on_failure(fail(2)), ConnectionStep::RetryAfter(400)));
    assert_eq!(retry.failures(), 2);
    match retry.on_failure(fail(3)) {
        ConnectionStep::GiveUp(GroqError::Transport(e)) => assert_eq!(e.message(), "attempt 3"),
        other => panic!("expected to give up, got {:?}", other),
    }
    assert_eq!(retry.failures(), 2);
}

#[test]
fn stream_without_retries_gives_up_at_once() {
    let mut retry = ConnectionRetry::new(0);
    assert!(matches!(
        retry.on_failure(GroqError::RateLimited),
        ConnectionStep::GiveUp(GroqError::RateLimited)
    ));
}

#[test]
fn failures_in_words() {
    assert_eq!(GroqError::InvalidApiKey("k".to_string()).to_string(), "Invalid API key: k");
    assert_eq!(GroqError::InvalidMessage("m".to_string()).to_string(), "Invalid message: m");
    assert_eq!(GroqError::RateLimited.to_string(), "Rate limited - too many requests");
    let api = GroqApiError::from_response(404, "gone".to_string(), &vec![]);
    assert_eq!(api.to_string(), "Groq API error (404): gone");
    assert_eq!(GroqError::Api(api).to_string(), "API error: Groq API error (404): gone");
    assert_eq!(
        GroqError::Transport(TransportError::new("reset".to_string())).to_string(),
        "Transport error: HTTP transport error: reset"
    );
    assert_eq!(
        GroqError::Serde(SerdeError::new("eof".to_string())).to_string(),
        "Serialization error: JSON serialization error: eof"
    );
    assert_eq!(GroqError::UrlParse("empty host".to_string()).to_string(), "URL parse error: empty host");
    assert_eq!(GroqError::Backoff("b".to_string()).to_string(), "Backoff error: b");
}

#[test]
fn numbers_in_decimal() {
    assert_eq!(decimal_text(0), "0");
    assert_eq!(decimal_text(7), "7");
    assert_eq!(decimal_text(10), "10");
    assert_eq!(decimal_text(429), "429");
    assert_eq!(decimal_text(1234567890), "1234567890");
    assert_eq!(decimal_text(u64::MAX), "18446744073709551615");
    for n in [0u64, 9, 10, 99, 100, 65535, u64::MAX] {
        assert_eq!(parse_u64(&decimal_text(n)), Some(n));
    }
}

#[test]
fn outside_errors_become_failures_of_the_client() {
    let parse = serde_json::from_str::<serde_json::Value>("{").unwrap_err();
    let words = parse.to_string();
    assert!(matches!(GroqError::from(parse), GroqError::Serde(e) if *e.message() == words));
    let parse = serde_json::from_str::<serde_json::Value>("]").unwrap_err();
    let words = parse.to_string();
    assert_eq!(*SerdeError::from(parse).message(), words);
    let bad = url::Url::parse("not a url").unwrap_err();
    let words = bad.to_string();
    assert!(matches!(GroqError::from(bad), GroqError::UrlParse(m) if m == words));
    let refused = reqwest::Client::new().get("not a url").build().unwrap_err();
    let words = refused.to_string();
    assert!(matches!(GroqError::from(refused), GroqError::Transport(e) if *e.message() == words));
    let refused = reqwest::Client::new().get("::").build().unwrap_err();
    let words = refused.to_string();
    assert_eq!(*TransportError::from(refused).message(), words);
}
