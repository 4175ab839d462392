use weather_services::errors::AppError;
use weather_services::http_client::{
    http_failure, Attempt, Body, HttpClient, HttpStatus, RetryStep, DEFAULT_MAX_RETRIES,
    DEFAULT_TIMEOUT_SECS,
};
use weather_services::weather::rate_limit::RateLimiter;

fn status(code: u16) -> HttpStatus {
    HttpStatus::new(code).unwrap()
}

#[test]
fn client_defaults() {
    let c = HttpClient::default();
    assert_eq!(c.timeout_secs, 2);
    assert_eq!(c.max_retries, 2);
    assert_eq!(DEFAULT_TIMEOUT_SECS, 2);
    assert_eq!(DEFAULT_MAX_RETRIES, 2);
    assert_eq!(HttpClient::new(7, 4), HttpClient { max_retries: 4, timeout_secs: 7 });
}

#[test]
fn status_codes() {
    assert!(HttpStatus::new(99).is_none());
    assert!(HttpStatus::new(1000).is_none());
    assert!(HttpStatus::new(0).is_none());
    assert_eq!(status(100).code(), 100);
    assert_eq!(status(999).code(), 999);
    assert!(status(200).is_success());
    assert!(status(299).is_success());
    assert!(!status(199).is_success());
    assert!(!status(300).is_success());
    assert_eq!(status(500).describe(), "500 Internal Server Error");
    assert_eq!(status(404).describe(), "404 Not Found");
    assert_eq!(status(200).describe(), "200 OK");
    assert_eq!(status(799).describe(), "799 <unknown status code>");
}

#[test]
fn classify_timeout() {
    let r: Result<u8, AppError> = HttpClient::fetch_with_timeout("http://x/slow", Attempt::TimedOut);
    let e = r.unwrap_err();
    assert!(matches!(e, AppError::TimeoutError(_)));
    assert_eq!(e.message(), "Timeout error: Request to http://x/slow timed out");
    assert_eq!(e.status_code(), 504);
}

#[test]
fn classify_transport_failures() {
    let r: Result<u8, AppError> = HttpClient::fetch_with_timeout(
        "http://x/a",
        Attempt::TransportFailed { timed_out: true, detail: "deadline".to_string() },
    );
    assert_eq!(r.unwrap_err().message(), "Timeout error: Request to http://x/a timed out");
    let r: Result<u8, AppError> = HttpClient::fetch_with_timeout(
        "http://x/a",
        Attempt::TransportFailed { timed_out: false, detail: "connection refused".to_string() },
    );
    let e = r.unwrap_err();
    assert!(matches!(e, AppError::NetworkError(_)));
    assert_eq!(e.message(), "Network error: connection refused");
    assert_eq!(e.status_code(), 502);
}

#[test]
fn classify_http_error() {
    let r: Result<u8, AppError> = HttpClient::fetch_with_timeout(
        "http://x/error",
        Attempt::Responded { status: status(500), body: Body::Parsed(1) },
    );
    let e = r.unwrap_err();
    match &e {
        AppError::HttpError { status, message } => {
            assert_eq!(*status, 500);
            assert_eq!(message, "HTTP error: 500 Internal Server Error");
        }
        other => panic!("unexpected {:?}", other),
    }
    assert_eq!(e.message(), "HTTP error: 500 Internal Server Error");
    assert_eq!(e.status_code(), 500);
    let r: Result<u8, AppError> = HttpClient::fetch_with_timeout(
        "http://x/error",
        Attempt::Responded { status: status(304), body: Body::Unreadable(String::new()) },
    );
    assert_eq!(r.unwrap_err().message(), "HTTP error: 304 Not Modified");
}

#[test]
fn classify_bodies() {
    let r: Result<u8, AppError> = HttpClient::fetch_with_timeout(
        "u",
        Attempt::Responded { status: status(200), body: Body::Unreadable("reset".to_string()) },
    );
    assert_eq!(r.unwrap_err().message(), "Network error: reset");
    let r: Result<u8, AppError> = HttpClient::fetch_with_timeout(
        "u",
        Attempt::Responded { status: status(200), body: Body::Malformed("eof".to_string()) },
    );
    let e = r.unwrap_err();
    assert!(matches!(e, AppError::ParseError(_)));
    assert_eq!(e.message(), "JSON parse error: eof");
    assert_eq!(e.status_code(), 400);
    let r: Result<u8, AppError> = HttpClient::fetch_with_timeout(
        "u",
        Attempt::Responded { status: status(204), body: Body::Parsed(42) },
    );
    assert_eq!(r.unwrap(), 42);
}

#[test]
fn backoff_doubles_from_100() {
    assert_eq!(HttpClient::backoff_ms(0), 100);
    assert_eq!(HttpClient::backoff_ms(1), 200);
    assert_eq!(HttpClient::backoff_ms(2), 400);
    assert_eq!(HttpClient::backoff_ms(10), 102_400);
    assert_eq!(HttpClient::backoff_ms(57), 100 * (1u64 << 57));
    assert_eq!(HttpClient::backoff_ms(58), u64::MAX);
    assert_eq!(HttpClient::backoff_ms(u32::MAX), u64::MAX);
}

#[test]
fn retry_until_exhausted() {
    let c = HttpClient::default();
    match c.after_attempt::<u8>(0, Err(AppError::network("a"))) {
        RetryStep::Retry { after_ms } => assert_eq!(after_ms, 100),
        other => panic!("unexpected {:?}", other),
    }
    match c.after_attempt::<u8>(1, Err(AppError::parse("b"))) {
        RetryStep::Retry { after_ms } => assert_eq!(after_ms, 200),
        other => panic!("unexpected {:?}", other),
    }
    match c.after_attempt::<u8>(2, Err(AppError::timeout("last"))) {
        RetryStep::Done(Err(e)) => assert_eq!(e.message(), "Timeout error: last"),
        other => panic!("unexpected {:?}", other),
    }
    match c.after_attempt::<u8>(0, Ok(9)) {
        RetryStep::Done(Ok(v)) => assert_eq!(v, 9),
        other => panic!("unexpected {:?}", other),
    }
    let none = HttpClient::new(2, 0);
    match none.after_attempt::<u8>(0, Err(AppError::network("only"))) {
        RetryStep::Done(Err(e)) => assert_eq!(e.message(), "Network error: only"),
        other => panic!("unexpected {:?}", other),
    }
}

#[test]
fn limiter_sizes() {
    let l = RateLimiter::new(60);
    assert_eq!(l.available_permits(), 60);
    assert_eq!(l.min_interval_ms(), 1_000);
    let zero = RateLimiter::new(0);
    assert_eq!(zero.available_permits(), 1);
    assert_eq!(zero.min_interval_ms(), 60_000);
    let seven = RateLimiter::new(7);
    assert_eq!(seven.min_interval_ms(), 8_571);
    let fast = RateLimiter::new(100_000);
    assert_eq!(fast.min_interval_ms(), 0);
    assert_eq!(fast.available_permits(), 100_000);
}

#[test]
fn limiter_permits_bound_calls_in_flight() {
    let mut l = RateLimiter::new(2);
    assert!(l.try_acquire());
    assert!(l.try_acquire());
    assert!(!l.try_acquire());
    assert_eq!(l.available_permits(), 0);
    assert!(l.release());
    assert_eq!(l.available_permits(), 1);
    assert!(l.try_acquire());
    assert!(l.release());
    assert!(l.release());
    assert!(!l.release());
    assert_eq!(l.available_permits(), 2);
}

#[test]
fn single_permit_serialises() {
    let mut l = RateLimiter::new(1);
    assert!(l.try_acquire());
    assert!(!l.try_acquire());
    assert!(!l.try_acquire());
    assert!(l.release());
    assert!(l.try_acquire());
}

#[test]
fn debounce_spaces_calls() {
    let mut l = RateLimiter::new(60);
    assert_eq!(l.debounce(5_000), 0);
    assert_eq!(l.debounce(5_300), 700);
    assert_eq!(l.debounce(6_000), 1_000);
    assert_eq!(l.debounce(8_000), 0);
    assert_eq!(l.debounce(8_999), 1);
    assert_eq!(l.debounce(20_000), 0);
    assert_eq!(l.debounce(10_000), 11_000);
    assert_eq!(l.debounce(22_000), 0);
}

#[test]
fn calls_made_ready_while_another_waits_queue_up() {
    let mut l = RateLimiter::new(60);
    let ready = [0u64, 100, 200, 250];
    let fires: Vec<u64> = ready.iter().map(|now| now + l.debounce(*now)).collect();
    assert_eq!(fires, vec![0, 1_000, 2_000, 3_000]);
    let mut waits = RateLimiter::new(60);
    assert_eq!(waits.debounce(0), 0);
    assert_eq!(waits.debounce(100), 900);
    assert_eq!(waits.debounce(200), 1_800);
}

#[test]
fn debounce_fire_times_are_an_interval_apart() {
    let mut l = RateLimiter::new(120);
    let mut now: u64 = 10;
    let mut last_fire: Option<u64> = None;
    for step in [0u64, 1, 499, 500, 501, 3, 2_000, 0, 0, 7, 10_000, 1] {
        now += step;
        let fire = now + l.debounce(now);
        if let Some(prev) = last_fire {
            assert!(fire >= prev + 500);
        }
        last_fire = Some(fire);
    }
}

#[test]
fn debounce_at_the_end_of_the_clock() {
    let mut l = RateLimiter::new(1);
    assert_eq!(l.debounce(u64::MAX - 70_000), 0);
    assert_eq!(l.debounce(u64::MAX - 70_000), 60_000);
    assert_eq!(l.debounce(u64::MAX - 70_000), 70_000);
    assert_eq!(l.debounce(u64::MAX - 70_000), 70_000);
    assert_eq!(l.debounce(u64::MAX), 0);
}

#[test]
fn failure_of_a_rejected_fetch() {
    let e = http_failure(status(503), "503 Service Unavailable");
    match &e {
        AppError::HttpError { status, message } => {
            assert_eq!(*status, 503);
            assert_eq!(message, "HTTP error: 503 Service Unavailable");
        }
        other => panic!("unexpected {:?}", other),
    }
    assert_eq!(e.status_code(), 503);
}
