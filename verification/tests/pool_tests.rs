use winter_paintboard_sdk::config::Config;
use winter_paintboard_sdk::error::PaintboardError;
use winter_paintboard_sdk::http::{board_from_response, board_url, check_http_status, token_from_response, token_url, ws_connect_url};
use winter_paintboard_sdk::models::auth::{TokenData, TokenResponse};
use winter_paintboard_sdk::pool::plan_execute_retry;
use winter_paintboard_sdk::pool::{
    categorize_error, is_connection_healthy, plan_retry, should_retry_on_error, CircuitBreaker, ConnectionPool,
    HealthProbe, PoolMetrics,
};

#[test]
fn breaker_opens_and_recovers() {
    let mut b = CircuitBreaker::new(3, 1000, 0);
    assert!(!b.is_open(0));
    b.record_failure(10);
    b.record_failure(20);
    assert!(!b.is_open(20));
    b.record_failure(30);
    assert!(b.is_open(500));
    assert!(b.is_open(1030));
    assert!(!b.is_open(1031));
    b.record_failure(2000);
    assert!(!b.is_open(2000));
    b.record_failure(2001);
    b.record_failure(2002);
    assert!(b.is_open(2002));
    b.record_success();
    assert!(!b.is_open(2003));
}

#[test]
fn retry_classification() {
    let (r, k) = should_retry_on_error(&PaintboardError::Http(404));
    assert!(!r);
    assert_eq!(k, "http_404");
    let (r, k) = should_retry_on_error(&PaintboardError::Http(503));
    assert!(r);
    assert_eq!(k, "http_503");
    assert_eq!(should_retry_on_error(&PaintboardError::Timeout), (true, "transient".to_string()));
    assert_eq!(should_retry_on_error(&PaintboardError::Auth("x".into())), (false, "auth".to_string()));
    assert_eq!(should_retry_on_error(&PaintboardError::RateLimit), (true, "other".to_string()));
    assert_eq!(should_retry_on_error(&PaintboardError::Http(302)), (true, "other".to_string()));
    assert_eq!(categorize_error(&PaintboardError::Http(404)), "client_error");
    assert_eq!(categorize_error(&PaintboardError::Http(500)), "server_error");
    assert_eq!(categorize_error(&PaintboardError::ConnectionClosed), "connection_closed");
    assert_eq!(categorize_error(&PaintboardError::JsonParse("x".into())), "unknown");
}

#[test]
fn retry_plans() {
    let p = plan_retry(&PaintboardError::Timeout, 1);
    assert_eq!(p.counter, "network");
    assert!(p.mark_broken);
    assert_eq!(p.retry_after_ms, Some(200));
    assert_eq!(plan_retry(&PaintboardError::Timeout, 2).retry_after_ms, Some(400));
    assert_eq!(plan_retry(&PaintboardError::Timeout, 3).retry_after_ms, None);
    let p = plan_retry(&PaintboardError::Http(500), 1);
    assert_eq!(p.counter, "http");
    assert!(!p.mark_broken);
    assert_eq!(p.retry_after_ms, Some(200));
    assert_eq!(plan_retry(&PaintboardError::Http(404), 1).retry_after_ms, None);
    assert_eq!(plan_retry(&PaintboardError::Auth("a".into()), 1).retry_after_ms, None);
    assert_eq!(plan_retry(&PaintboardError::InvalidData, 1).counter, "other");
}

#[test]
fn health_probe_results() {
    assert!(is_connection_healthy(&HealthProbe::Succeeded));
    assert!(!is_connection_healthy(&HealthProbe::TimedOut));
    assert!(!is_connection_healthy(&HealthProbe::Failed(PaintboardError::Network("x".into()))));
    assert!(is_connection_healthy(&HealthProbe::Failed(PaintboardError::Http(500))));
}

#[test]
fn metrics_counters() {
    let mut m = PoolMetrics::new();
    assert_eq!(m.total_requests, 0);
    m.record_request(3);
    m.record_batch_request(5);
    m.record_error();
    m.record_retry(true);
    m.record_retry(false);
    m.record_created();
    m.record_released(true);
    m.record_usage();
    assert_eq!(m.total_requests, 1);
    assert_eq!(m.total_packets, 8);
    assert_eq!(m.batch_requests, 1);
    assert_eq!(m.retry_count, 2);
    assert_eq!(m.retry_success_count, 1);
    assert_eq!(m.broken_count, 1);
    m.apply_error_type("transient");
    m.apply_error_type("http_404");
    m.apply_error_type("http_405");
    m.apply_error_type("http_503");
    m.apply_error_type("http_600");
    m.apply_error_type("weird");
    assert_eq!(m.network_errors, 1);
    assert_eq!(m.client_errors, 1);
    assert_eq!(m.server_errors, 2);
    assert_eq!(m.http_errors, 1);
    assert_eq!(m.other_errors, 1);
}

#[test]
fn pool_keeps_at_most_min_idle() {
    let mut p: ConnectionPool<u32> = ConnectionPool::new(Config::default(), 1, 3);
    p.set_auth(5, "tok".to_string());
    p.note_acquired();
    p.note_acquired();
    assert!(p.release(10, false, 100));
    assert!(!p.release(11, false, 100));
    assert_eq!(p.get_pool_stats(), (1, 0));
    assert!(!p.release(12, true, 100));
    assert!(p.add_connection_to_pool(13, 200));
    assert!(p.add_connection_to_pool(14, 300));
    assert!(!p.add_connection_to_pool(15, 300));
    assert_eq!(p.cleanup_inactive_connections(400, 150), 2);
    assert_eq!(p.pool_size(), 1);
    let first = p.take_idle().unwrap();
    assert_eq!(first.client, 14);
    assert!(p.take_idle().is_none());
    assert_eq!(p.active_count(), 0);
}

#[test]
fn http_decisions() {
    assert!(check_http_status(200).is_ok());
    assert!(check_http_status(299).is_ok());
    assert!(matches!(check_http_status(404), Err(PaintboardError::Http(404))));
    assert!(matches!(board_from_response(vec![0; 10]), Err(PaintboardError::InvalidData)));
    assert_eq!(board_from_response(vec![0; 1_800_000]).unwrap().width, 1000);
    let ok = TokenResponse { status_code: 200, data: TokenData { token: "t".into() } };
    assert_eq!(token_from_response(ok).unwrap(), "t");
    let bad = TokenResponse { status_code: -12, data: TokenData { token: "t".into() } };
    match token_from_response(bad) {
        Err(PaintboardError::Auth(m)) => assert_eq!(m, "API returned error status -12: token data"),
        other => panic!("unexpected {:?}", other),
    }
    let bad = TokenResponse { status_code: 401, data: TokenData { token: "t".into() } };
    match token_from_response(bad) {
        Err(PaintboardError::Auth(m)) => assert_eq!(m, "API returned error status 401: token data"),
        other => panic!("unexpected {:?}", other),
    }
    assert_eq!(board_url("http://a"), "http://a/api/paintboard/getboard");
    assert_eq!(token_url("http://a"), "http://a/api/auth/gettoken");
}

#[test]
fn ws_urls() {
    let mut c = Config::default();
    c.connection_mode = winter_paintboard_sdk::config::ConnectionMode::ReadOnly;
    let u = ws_connect_url(&c).unwrap();
    assert_eq!(u.as_str(), "wss://paintboard.luogu.me/api/paintboard/ws?readonly=1");
    c.connection_mode = winter_paintboard_sdk::config::ConnectionMode::ReadWrite;
    assert_eq!(ws_connect_url(&c).unwrap().as_str(), "wss://paintboard.luogu.me/api/paintboard/ws");
    c.ws_url = "not a url".to_string();
    match ws_connect_url(&c) {
        Err(PaintboardError::InvalidUrl(m)) => assert_eq!(m, "relative URL without a base"),
        other => panic!("unexpected {:?}", other),
    }
}

#[test]
fn breaker_opens_exactly_at_max_failures() {
    let mut b = CircuitBreaker::new(4, 1000, 0);
    for t in 1..4u64 {
        b.record_failure(t);
        assert!(!b.is_open(t));
    }
    b.record_failure(4);
    assert!(b.is_open(5));
    assert!(b.is_open(1004));
    assert!(!b.is_open(1005));
}

#[test]
fn execute_retry_steps() {
    let s = plan_execute_retry(&PaintboardError::Network("x".to_string()), 1);
    assert_eq!(s.counter, "transient");
    assert!(s.mark_broken && !s.record_failure);
    assert_eq!(s.retry_after_ms, Some(200));
    let s = plan_execute_retry(&PaintboardError::Network("x".to_string()), 2);
    assert_eq!(s.retry_after_ms, Some(400));
    let s = plan_execute_retry(&PaintboardError::Network("x".to_string()), 3);
    assert!(s.mark_broken && s.record_failure);
    assert_eq!(s.retry_after_ms, None);
    let s = plan_execute_retry(&PaintboardError::Auth("bad".to_string()), 1);
    assert_eq!(s.counter, "auth");
    assert!(!s.mark_broken && s.record_failure);
    assert_eq!(s.retry_after_ms, None);
}
