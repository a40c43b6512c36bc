use media_collector::http::{HttpError, RequestConfig, RetryConfig};
use media_collector::retry::{
    backoff_delay_ms, decide, missing_body_text, parse_retry_after, retry_after_ms, AttemptOutcome,
    FetchRetry,
    RetryDecision,
};

fn response(status: u16, retry_after_secs: Option<u64>, body: &str) -> AttemptOutcome {
    AttemptOutcome::Response { status, retry_after_secs, body: body.to_string() }
}

#[test]
fn always_throttled_makes_max_retries_plus_one_attempts() {
    let policy = RetryConfig { max_retries: 2, base_delay_ms: 100, max_delay_ms: 60000 };
    let mut f = FetchRetry::new(policy);
    let mut delays = Vec::new();
    let mut attempts = 0;
    let last = loop {
        attempts += 1;
        assert_eq!(f.attempt(), attempts);
        match f.on_outcome(response(429, None, "slow down")) {
            RetryDecision::Retry { delay_ms } => delays.push(delay_ms),
            other => break other,
        }
    };
    assert_eq!(attempts, 3);
    assert_eq!(delays, vec![100, 200]);
    assert_eq!(
        last,
        RetryDecision::Fail(HttpError::RateLimited {
            retry_after_secs: None,
            message: "slow down".to_string()
        })
    );
    assert!(f.is_done());
}

#[test]
fn not_found_is_terminal_after_one_attempt() {
    let mut f = FetchRetry::new(RetryConfig::default());
    let d = f.on_outcome(response(404, None, "missing"));
    assert_eq!(d, RetryDecision::Fail(HttpError::NotFound("missing".to_string())));
    assert_eq!(f.attempt(), 1);
    assert!(f.is_done());
}

#[test]
fn ok_response_decodes_on_first_attempt() {
    let mut f = FetchRetry::new(RetryConfig::default());
    let body = "{\"id\":5}";
    assert_eq!(f.on_outcome(response(200, None, body)), RetryDecision::Decode);
    assert_eq!(f.attempt(), 1);
    let v: serde_json::Value = serde_json::from_str(body).unwrap();
    assert_eq!(v["id"].as_i64(), Some(5));
}

#[test]
fn forbidden_retries_with_retry_after() {
    let policy = RetryConfig { max_retries: 1, base_delay_ms: 100, max_delay_ms: 1000 };
    let mut f = FetchRetry::new(policy);
    assert_eq!(f.on_outcome(response(403, Some(3), "")), RetryDecision::Retry { delay_ms: 3000 });
    assert_eq!(
        f.on_outcome(response(403, Some(3), "no")),
        RetryDecision::Fail(HttpError::RateLimited { retry_after_secs: Some(3), message: "no".to_string() })
    );
}

#[test]
fn other_failures_are_terminal() {
    let p = RetryConfig::default();
    assert_eq!(
        decide(1, &p, AttemptOutcome::TransportFailed("refused".to_string())),
        RetryDecision::Fail(HttpError::RequestFailed("refused".to_string()))
    );
    assert_eq!(
        decide(1, &p, response(500, None, "oops")),
        RetryDecision::Fail(HttpError::UnexpectedStatus { status: 500, message: "oops".to_string() })
    );
}

#[test]
fn backoff_doubles_and_caps() {
    let p = RetryConfig { max_retries: 200, base_delay_ms: 1000, max_delay_ms: 60000 };
    assert_eq!(backoff_delay_ms(&p, 1), 1000);
    assert_eq!(backoff_delay_ms(&p, 2), 2000);
    assert_eq!(backoff_delay_ms(&p, 6), 32000);
    assert_eq!(backoff_delay_ms(&p, 7), 60000);
    assert_eq!(backoff_delay_ms(&p, 150), 60000);
    let huge = RetryConfig { max_retries: 3, base_delay_ms: u64::MAX / 2 + 1, max_delay_ms: u64::MAX };
    assert_eq!(backoff_delay_ms(&huge, 3), u64::MAX);
    let small_cap = RetryConfig { max_retries: 3, base_delay_ms: 500, max_delay_ms: 100 };
    assert_eq!(backoff_delay_ms(&small_cap, 1), 100);
}

#[test]
fn retry_after_seconds_to_millis() {
    assert_eq!(retry_after_ms(2), 2000);
    assert_eq!(retry_after_ms(u64::MAX), u64::MAX);
}

#[test]
fn retry_after_header_parsing() {
    assert_eq!(parse_retry_after("120"), Some(120));
    assert_eq!(parse_retry_after("+5"), Some(5));
    assert_eq!(parse_retry_after("0"), Some(0));
    assert_eq!(parse_retry_after(""), None);
    assert_eq!(parse_retry_after("+"), None);
    assert_eq!(parse_retry_after("-1"), None);
    assert_eq!(parse_retry_after("1.5"), None);
    assert_eq!(parse_retry_after("Wed, 21 Oct 2015 07:28:00 GMT"), None);
    assert_eq!(parse_retry_after("18446744073709551615"), Some(u64::MAX));
    assert_eq!(parse_retry_after("18446744073709551616"), None);
}

#[test]
fn default_retry_policy() {
    let d = RetryConfig::default();
    assert_eq!(d, RetryConfig { max_retries: 3, base_delay_ms: 1000, max_delay_ms: 60000 });
    assert_eq!(RequestConfig::new().effective_retry(), d);
}

#[test]
fn request_headers() {
    let c = RequestConfig::new()
        .with_header("Accept", "application/json")
        .with_api_key("k1")
        .with_header("Accept", "text/plain");
    assert_eq!(c.header_count(), 2);
    assert_eq!(c.header("Accept"), Some("text/plain".to_string()));
    assert_eq!(c.header("X-API-Key"), Some("k1".to_string()));
    assert_eq!(c.header("Missing"), None);
    let b = RequestConfig::new().with_bearer_token("tok");
    assert_eq!(b.header("Authorization"), Some("Bearer tok".to_string()));
    let basic = b.with_basic_auth("user", "pass");
    assert_eq!(basic.header("Authorization"), Some("Basic dXNlcjpwYXNz".to_string()));
    assert_eq!(basic.header_count(), 1);
    let pairs = basic.headers();
    assert_eq!(pairs, vec![("Authorization".to_string(), "Basic dXNlcjpwYXNz".to_string())]);
}

#[test]
fn request_retry_override() {
    let p = RetryConfig { max_retries: 1, base_delay_ms: 10, max_delay_ms: 20 };
    let c = RequestConfig::new().with_api_key("k").with_retry_config(p);
    assert_eq!(c.retry_config(), Some(p));
    assert_eq!(c.effective_retry(), p);
    assert_eq!(c.header("X-API-Key"), Some("k".to_string()));
}

#[test]
fn unreadable_body_texts() {
    assert_eq!(missing_body_text(404), "No error message");
    assert_eq!(missing_body_text(429), "Rate limit exceeded");
    assert_eq!(missing_body_text(403), "Rate limit exceeded");
    assert_eq!(missing_body_text(500), "Unknown error");
}
