use solana_wasm_client::{
    rate_limit_wait_ms, HttpSender, HttpVerdict, StatsUpdater, TransportStats,
    DEFAULT_RATE_LIMIT_WAIT_MS, MAX_RATE_LIMIT_RETRIES, TOO_MANY_REQUESTS,
};

#[test]
fn retry_after_ten_seconds_is_used() {
    assert_eq!(rate_limit_wait_ms(Some("10")), 10_000);
}

#[test]
fn retry_after_at_or_above_bound_falls_back() {
    assert_eq!(rate_limit_wait_ms(Some("500")), DEFAULT_RATE_LIMIT_WAIT_MS);
    assert_eq!(rate_limit_wait_ms(Some("120")), 500);
    assert_eq!(rate_limit_wait_ms(Some("119")), 119_000);
}

#[test]
fn retry_after_non_numeric_falls_back() {
    assert_eq!(rate_limit_wait_ms(Some("soon")), 500);
    assert_eq!(rate_limit_wait_ms(Some("")), 500);
    assert_eq!(rate_limit_wait_ms(Some("-1")), 500);
    assert_eq!(rate_limit_wait_ms(Some("1.5")), 500);
    assert_eq!(rate_limit_wait_ms(None), 500);
}

#[test]
fn retry_after_with_plus_sign_and_zero() {
    assert_eq!(rate_limit_wait_ms(Some("+7")), 7_000);
    assert_eq!(rate_limit_wait_ms(Some("0")), 0);
}

#[test]
fn rate_limited_five_times_then_fails() {
    let mut u = StatsUpdater::new(1_000);
    assert_eq!(u.too_many_requests_retries, MAX_RATE_LIMIT_RETRIES);
    for _ in 0..5 {
        assert_eq!(
            u.on_response(TOO_MANY_REQUESTS, None),
            HttpVerdict::Retry { wait_ms: 500 }
        );
    }
    assert_eq!(u.on_response(429, Some("1")), HttpVerdict::Fail { status: 429 });
    assert_eq!(u.rate_limited_ms, 2_500);
    assert_eq!(u.too_many_requests_retries, 0);

    let mut stats = TransportStats::new();
    u.finish(4_000, &mut stats);
    assert_eq!(
        stats,
        TransportStats { request_count: 1, elapsed_ms: 3_000, rate_limited_ms: 2_500 }
    );
}

#[test]
fn retry_waits_follow_headers() {
    let mut u = StatsUpdater::new(0);
    assert_eq!(u.on_response(429, Some("10")), HttpVerdict::Retry { wait_ms: 10_000 });
    assert_eq!(u.on_response(429, Some("500")), HttpVerdict::Retry { wait_ms: 500 });
    assert_eq!(u.rate_limited_ms, 10_500);
    assert_eq!(u.on_response(200, None), HttpVerdict::Accept);
    assert_eq!(u.rate_limited_ms, 10_500);
}

#[test]
fn success_and_other_statuses() {
    let mut u = StatsUpdater::new(0);
    assert_eq!(u.on_response(200, None), HttpVerdict::Accept);
    assert_eq!(u.on_response(299, None), HttpVerdict::Accept);
    assert_eq!(u.on_response(404, Some("3")), HttpVerdict::Fail { status: 404 });
    assert_eq!(u.on_response(500, None), HttpVerdict::Fail { status: 500 });
    assert_eq!(u.on_response(199, None), HttpVerdict::Fail { status: 199 });
    assert_eq!(u.rate_limited_ms, 0);
    assert_eq!(u.too_many_requests_retries, 5);
}

#[test]
fn add_rate_limited_time_saturates() {
    let mut u = StatsUpdater::new(0);
    u.add_rate_limited_time(700);
    assert_eq!(u.rate_limited_ms, 700);
    u.add_rate_limited_time(u64::MAX);
    assert_eq!(u.rate_limited_ms, u64::MAX);
}

#[test]
fn one_request_counted_per_call() {
    let mut sender = HttpSender::new("http://localhost:8899".to_string());
    assert_eq!(sender.url(), "http://localhost:8899");
    let mut u = StatsUpdater::new(10);
    u.on_response(429, None);
    u.on_response(429, Some("2"));
    u.on_response(200, None);
    sender.commit(&u, 3_000);
    let stats = sender.get_transport_stats();
    assert_eq!(stats.request_count, 1);
    assert_eq!(stats.elapsed_ms, 2_990);
    assert_eq!(stats.rate_limited_ms, 2_500);

    let u2 = StatsUpdater::new(5_000);
    sender.commit(&u2, 5_040);
    let stats = sender.get_transport_stats();
    assert_eq!(
        stats,
        TransportStats { request_count: 2, elapsed_ms: 3_030, rate_limited_ms: 2_500 }
    );
}

#[test]
fn clock_going_back_counts_no_time() {
    let u = StatsUpdater::new(100);
    let mut stats = TransportStats::new();
    u.finish(50, &mut stats);
    assert_eq!(stats.elapsed_ms, 0);
    assert_eq!(stats.request_count, 1);
}

#[test]
fn record_saturates_counters() {
    let mut stats = TransportStats {
        request_count: u64::MAX,
        elapsed_ms: u64::MAX - 1,
        rate_limited_ms: 3,
    };
    stats.record(10, 4);
    assert_eq!(
        stats,
        TransportStats { request_count: u64::MAX, elapsed_ms: u64::MAX, rate_limited_ms: 7 }
    );
}

#[test]
fn request_ids_increase() {
    let mut sender = HttpSender::new("u".to_string());
    assert_eq!(sender.next_request_id(), Some(0));
    assert_eq!(sender.next_request_id(), Some(1));
    assert_eq!(sender.next_request_id(), Some(2));
    assert_eq!(sender.get_transport_stats(), TransportStats::new());
}

#[test]
fn request_ids_run_out_at_the_top() {
    let mut ids = solana_wasm_client::RequestIds { next: u64::MAX - 1 };
    assert_eq!(ids.issue(), Some(u64::MAX - 1));
    assert_eq!(ids.issue(), None);
    assert_eq!(ids.next, u64::MAX);
}
