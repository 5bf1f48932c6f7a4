use std::time::Duration;

use winter_paintboard_sdk::actor::{reconnect_step, ReconnectStep};
use winter_paintboard_sdk::reconnect::{WsReconnectManager, WsReconnectStrategy};

#[test]
fn test_default_and_backoff() {
    let mut s = WsReconnectStrategy::default();
    assert!(s.should_reconnect());
    let d1 = s.next_delay();
    assert_eq!(Duration::from_millis(d1), Duration::from_secs(1));
    let d2 = s.next_delay();
    assert_eq!(Duration::from_millis(d2), Duration::from_secs(2));
    s.reset();
    assert_eq!(Duration::from_millis(s.current_delay()), Duration::from_secs(1));
    s.disable_reconnect();
    assert!(!s.should_reconnect());
}

#[test]
fn backoff_is_capped() {
    let mut s = WsReconnectStrategy::new(1000, 5000);
    let got: Vec<u64> = (0..6).map(|_| s.next_delay()).collect();
    assert_eq!(got, vec![1000, 2000, 4000, 5000, 5000, 5000]);
}

#[test]
fn backoff_initial_above_cap() {
    let mut s = WsReconnectStrategy::new(9000, 5000);
    assert_eq!(s.next_delay(), 9000);
    assert_eq!(s.next_delay(), 5000);
    assert_eq!(s.current_delay(), 5000);
}

#[test]
fn backoff_near_u64_max_does_not_overflow() {
    let mut s = WsReconnectStrategy::new(u64::MAX - 1, u64::MAX);
    assert_eq!(s.next_delay(), u64::MAX - 1);
    assert_eq!(s.current_delay(), u64::MAX);
}

#[test]
fn manager_drives_strategy() {
    let mut m = WsReconnectManager::default();
    assert!(m.should_reconnect());
    assert_eq!(m.next_delay(), 1000);
    assert_eq!(m.current_delay(), 2000);
    m.reset();
    assert_eq!(m.current_delay(), 1000);
    assert_eq!(reconnect_step(&mut m), ReconnectStep::WaitThenConnect(1000));
    m.disable_reconnect();
    assert!(!m.should_reconnect());
    assert_eq!(reconnect_step(&mut m), ReconnectStep::Stop);
    let m2 = WsReconnectManager::new(10, 20);
    assert_eq!(m2.current_delay(), 10);
}
