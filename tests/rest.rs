use descord::ratelimit::RateLimitTracker;
use descord::rest::{get_headers, parse_seconds_millis, record_response, RestCall, RetryDecision};

#[test]
fn exhausted_bucket_waits_until_reset() {
    let mut t = RateLimitTracker::new();
    assert_eq!(t.limited_delay("channels/1/messages", 1_000), 0);
    t.record("channels/1/messages", "bucket-a", 0, 5_000);
    assert_eq!(t.limited_delay("channels/1/messages", 1_000), 4_000);
    assert_eq!(t.limited_delay("channels/1/messages", 4_999), 1);
    assert_eq!(t.limited_delay("channels/1/messages", 5_000), 0);
    assert_eq!(t.limited_delay("channels/1/messages", 9_000), 0);
    assert_eq!(t.limited_delay("channels/2/messages", 1_000), 0);
}

#[test]
fn bucket_with_calls_left_does_not_wait() {
    let mut t = RateLimitTracker::new();
    t.record("e", "b", 3, 5_000);
    assert_eq!(t.limited_delay("e", 1_000), 0);
    t.record("f", "b", 0, 5_000);
    assert_eq!(t.limited_delay("e", 1_000), 4_000);
}

#[test]
fn seconds_read_as_millis() {
    assert_eq!(parse_seconds_millis("0.2"), Some(200));
    assert_eq!(parse_seconds_millis("12"), Some(12_000));
    assert_eq!(parse_seconds_millis("1470173023.123"), Some(1_470_173_023_123));
    assert_eq!(parse_seconds_millis("1.23456"), Some(1_234));
    assert_eq!(parse_seconds_millis("0.05"), Some(50));
    assert_eq!(parse_seconds_millis(".5"), None);
    assert_eq!(parse_seconds_millis("1."), None);
    assert_eq!(parse_seconds_millis("1.2.3"), None);
    assert_eq!(parse_seconds_millis("abc"), None);
    assert_eq!(parse_seconds_millis(""), None);
    assert_eq!(parse_seconds_millis("99999999999999999999"), None);
}

#[test]
fn retry_once_then_done() {
    let mut call = RestCall::new();
    assert_eq!(call.on_response(429, Some("0.2")), RetryDecision::RetryAfter(200));
    assert_eq!(call.retries, 1);
    assert_eq!(call.on_response(200, None), RetryDecision::Done);
}

#[test]
fn retry_without_hint_and_give_up() {
    let mut call = RestCall::new();
    assert_eq!(call.on_response(429, None), RetryDecision::RetryAfter(0));
    assert_eq!(call.on_response(429, Some("soon")), RetryDecision::RetryAfter(0));
    for _ in 2..call.max_retries {
        assert_eq!(call.on_response(429, Some("1")), RetryDecision::RetryAfter(1000));
    }
    assert_eq!(call.on_response(429, Some("1")), RetryDecision::GiveUp);
    assert_eq!(call.on_response(404, None), RetryDecision::Done);
}

#[test]
fn response_headers_feed_tracker() {
    let mut t = RateLimitTracker::new();
    record_response(&mut t, "guilds/1", None, Some("0"), Some("10"));
    assert_eq!(t.limited_delay("guilds/1", 0), 0);
    record_response(&mut t, "guilds/1", Some("abc"), Some("0"), Some("10.5"));
    assert_eq!(t.limited_delay("guilds/1", 500), 10_000);
    record_response(&mut t, "guilds/1", Some("abc"), Some("bad"), Some("10.5"));
    assert_eq!(t.limited_delay("guilds/1", 500), 10_000);
    record_response(&mut t, "guilds/1", Some("abc"), Some("4"), Some("10.5"));
    assert_eq!(t.limited_delay("guilds/1", 500), 0);
}

#[test]
fn auth_headers() {
    let h = get_headers("secret");
    assert_eq!(h.len(), 2);
    assert_eq!(h[0], ("Content-Type".to_string(), "application/json".to_string()));
    assert_eq!(h[1], ("Authorization".to_string(), "Bot secret".to_string()));
}

#[test]
fn rate_limited_call_waits_then_succeeds() {
    // A transport that answers 429 with `retry-after: 0.2` once, then 200.
    let mut answers = vec![(200u16, None), (429u16, Some("0.2"))];
    let started = std::time::Instant::now();
    let mut call = RestCall::new();
    let status = loop {
        let (status, retry_after) = answers.pop().unwrap();
        match call.on_response(status, retry_after) {
            RetryDecision::RetryAfter(ms) => {
                let until = std::time::Instant::now() + std::time::Duration::from_millis(ms);
                while std::time::Instant::now() < until {}
            }
            RetryDecision::Done => break status,
            RetryDecision::GiveUp => panic!("gave up"),
        }
    };
    assert_eq!(status, 200);
    assert!(started.elapsed() >= std::time::Duration::from_millis(200));
}
