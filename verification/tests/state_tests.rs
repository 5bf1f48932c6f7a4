use std::sync::Arc;

use winter_paintboard_sdk::actor::{
    action_for_frame, action_for_message, after_attempt, paint_gate, paint_result_from_wait,
    probe_marks_disconnected, result_message, AfterAttempt, AttemptOutcome, FrameAction, MessageAction,
    PongDecision, ProbeOutcome, SendDecision, WaitOutcome, WsActorState, WsFrame,
};
use winter_paintboard_sdk::actor::event_from_frame;
use winter_paintboard_sdk::client::{require_credentials, AsyncClient, BatchHelper};
use winter_paintboard_sdk::config::{Config, ConnectionMode};
use winter_paintboard_sdk::error::PaintboardError;
use winter_paintboard_sdk::error_stats::{status_name, status_of_code, ErrorStats};
use winter_paintboard_sdk::models::paint::{PaintResult, PaintStatus};
use winter_paintboard_sdk::models::protocol::ProtocolMessage;
use winter_paintboard_sdk::models::{Pos, Rgb};
use winter_paintboard_sdk::tracker::WsResponseTracker;

#[test]
fn actor_connection_lifecycle() {
    let mut s = WsActorState::new();
    assert_eq!(s.decide_send(), SendDecision::RejectNoSender);
    s.on_connected();
    assert_eq!(s.decide_send(), SendDecision::Forward);
    assert_eq!(s.decide_pong(), PongDecision::RejectNoSender);
    assert!(!s.connected);
    s.on_connected();
    assert!(s.on_mark_disconnected());
    assert_eq!(s.decide_send(), SendDecision::RejectNotConnected);
    assert!(s.on_start_reconnect(false));
    assert!(s.reconnecting);
    assert!(!s.on_mark_disconnected());
    assert!(!s.on_start_reconnect(true));
    s.on_reconnect_stopped();
    assert!(!s.reconnecting);
    s.on_close();
    assert_eq!(s.decide_pong(), PongDecision::RejectNotConnected);
}

#[test]
fn message_actions() {
    match action_for_message(ProtocolMessage::HeartbeatPing) {
        MessageAction::SendBinary(b) => assert_eq!(b, vec![0xfb]),
        other => panic!("unexpected {:?}", other),
    }
    match action_for_message(ProtocolMessage::PaintResult { drawing_id: 5, status: 0xee }) {
        MessageAction::CompleteRequest { drawing_id, result } => {
            assert_eq!(drawing_id, 5);
            assert_eq!(result.status, PaintStatus::Cooldown);
            assert_eq!(result.message, "Paint result received with status: 0xee");
        }
        other => panic!("unexpected {:?}", other),
    }
    assert!(matches!(
        action_for_message(ProtocolMessage::PaintEvent { pos: Pos::new(1, 1).unwrap(), color: Rgb::new(1, 1, 1) }),
        MessageAction::PostPixelUpdate { .. }
    ));
    assert!(matches!(
        action_for_message(ProtocolMessage::Unknown { opcode: 1, data: vec![] }),
        MessageAction::Ignore
    ));
    assert_eq!(result_message(0x0a), "Paint result received with status: 0x0a");
}

#[test]
fn frame_actions() {
    assert!(matches!(action_for_frame(WsFrame::Binary(vec![1])), FrameAction::HandleBinary(ref d) if d == &vec![1]));
    assert!(matches!(action_for_frame(WsFrame::Ping(vec![2])), FrameAction::SendPong(ref d) if d == &vec![2]));
    assert!(matches!(action_for_frame(WsFrame::Close), FrameAction::Stop));
    assert!(matches!(action_for_frame(WsFrame::Text), FrameAction::Ignore));
}

#[test]
fn loop_and_probe_decisions() {
    assert_eq!(after_attempt(AttemptOutcome::Connected), AfterAttempt::ResetAndStop);
    assert_eq!(after_attempt(AttemptOutcome::Failed), AfterAttempt::Retry);
    assert_eq!(after_attempt(AttemptOutcome::ActorGone), AfterAttempt::Stop);
    assert!(!probe_marks_disconnected(ProbeOutcome::Answered(PaintStatus::InvalidToken)));
    assert!(probe_marks_disconnected(ProbeOutcome::Answered(PaintStatus::Success)));
    assert!(probe_marks_disconnected(ProbeOutcome::TimedOut));
    assert!(probe_marks_disconnected(ProbeOutcome::ChannelClosed));
}

#[test]
fn paint_gate_and_wait() {
    let dropped = paint_gate(false, true, false).unwrap().unwrap();
    assert_eq!(dropped.drawing_id, 0);
    assert_eq!(dropped.status, PaintStatus::Success);
    assert_eq!(dropped.message, "Request dropped due to rate limiting");
    assert!(matches!(paint_gate(true, true, true), Err(PaintboardError::ConnectionClosed)));
    assert!(matches!(paint_gate(true, false, false), Err(PaintboardError::ConnectionClosed)));
    assert!(matches!(paint_gate(true, false, true), Ok(None)));
    let r = PaintResult { drawing_id: 3, status: PaintStatus::Success, message: "x".to_string() };
    assert_eq!(paint_result_from_wait(WaitOutcome::Received(r)).unwrap().drawing_id, 3);
    assert!(matches!(paint_result_from_wait(WaitOutcome::ChannelClosed), Err(PaintboardError::ResponseChannelClosed)));
    assert!(matches!(paint_result_from_wait(WaitOutcome::TimedOut), Err(PaintboardError::Timeout)));
}

#[test]
fn tracker_register_complete_cleanup() {
    let mut t: WsResponseTracker<&'static str> = WsResponseTracker::new_local();
    t.register_request(1, "a", 100);
    t.register_request(2, "b", 150);
    t.register_request(3, "c", 190);
    assert_eq!(t.pending_count(), 3);
    assert_eq!(t.complete_request(2), Some("b"));
    assert_eq!(t.complete_request(2), None);
    assert!(t.remove_request(3));
    assert!(!t.remove_request(3));
    t.register_request(4, "d", 250);
    let mut removed = t.cleanup_expired_requests(200, 60);
    removed.sort();
    assert_eq!(removed, vec![(1, "a")]);
    assert_eq!(t.pending_count(), 1);
    assert!(t.cleanup_expired_requests(10, 0).is_empty());
}

#[test]
fn health_flag_follows_results() {
    let mut c = AsyncClient::from_parts((), (), Arc::new(Config::default()));
    assert!(c.is_healthy());
    c.mark_unhealthy();
    assert!(!c.is_healthy());
    c.reset_health();
    assert!(c.is_healthy());
    let r: Result<u8, PaintboardError> = c.handle_result(Err(PaintboardError::Timeout));
    assert!(r.is_err());
    assert!(!c.is_healthy());
    assert_eq!(c.handle_result::<u8>(Ok(4)).unwrap(), 4);
    assert!(c.is_healthy());
    assert_eq!(c.get_config().max_batch_size, 100);
}

#[test]
fn batch_helper_limits() {
    let mut cfg = Config::default();
    cfg.max_batch_size = 2;
    let mut b = BatchHelper::new(Arc::new(cfg));
    let p = Pos::new(1, 1).unwrap();
    let c = Rgb::new(0, 0, 0);
    assert!(b.add_paint(p, c).is_ok());
    assert!(b.add_paint(p, c).is_ok());
    assert!(matches!(b.add_paint(p, c), Err(PaintboardError::RateLimit)));
    assert_eq!(b.pending_count(), 2);
    let res = b.execute_batch().unwrap();
    assert_eq!(res.len(), 2);
    assert_eq!(res[1].drawing_id, 1);
    assert_eq!(res[0].message, "Batch operation successful");
    assert_eq!(b.pending_count(), 0);
    b.add_paint(p, c).unwrap();
    b.clear();
    assert_eq!(b.pending_count(), 0);
}

#[test]
fn error_stats_breakdown() {
    let mut s = ErrorStats::new();
    s.record(&PaintStatus::Success);
    s.record(&PaintStatus::Cooldown);
    s.record(&PaintStatus::Cooldown);
    s.record(&PaintStatus::InvalidToken);
    assert_eq!(s.total(), 4);
    assert_eq!(s.success(), 1);
    let b = s.error_breakdown();
    assert_eq!(b, vec![(1, 2), (2, 1)]);
    assert_eq!(status_name(status_of_code(1)), "Cooldown");
    s.reset();
    assert_eq!(s.total(), 0);
    assert!(s.error_breakdown().is_empty());
}

#[test]
fn config_defaults_and_modes() {
    let c = Config::default();
    assert_eq!(c.api_base_url, "https://paintboard.luogu.me");
    assert_eq!(c.ws_url, "wss://paintboard.luogu.me/api/paintboard/ws");
    assert_eq!(c.heartbeat_interval, std::time::Duration::from_secs(30));
    assert_eq!(c.batch_timeout, std::time::Duration::from_millis(20));
    assert_eq!(c.max_retries, 3);
    assert_eq!(c.connection_mode, ConnectionMode::ReadWrite);
    assert_eq!(ConnectionMode::ReadOnly.query(), Some("readonly=1"));
    assert_eq!(ConnectionMode::WriteOnly.query(), Some("writeonly=1"));
    assert_eq!(ConnectionMode::ReadWrite.query(), None);
}

#[test]
fn stats_count_each_result_once() {
    let mut s = ErrorStats::new();
    let statuses = [
        PaintStatus::Success,
        PaintStatus::Cooldown,
        PaintStatus::Success,
        PaintStatus::Cooldown,
        PaintStatus::Timeout,
        PaintStatus::Success,
    ];
    for st in statuses.iter() {
        s.record(st);
    }
    assert_eq!(s.total(), 6);
    assert_eq!(s.success(), 3);
    assert_eq!(s.error_breakdown(), vec![(1u8, 2u64), (6u8, 1u64)]);
    assert_eq!(status_name(status_of_code(6)), "Timeout");
    s.reset();
    assert_eq!(s.total(), 0);
    assert!(s.error_breakdown().is_empty());
}

#[test]
fn frames_become_events() {
    let ev = event_from_frame(Some(WsFrame::Binary(vec![0xfa, 0x0a, 0x00, 0x14, 0x00, 1, 2, 3]))).unwrap();
    assert!(matches!(ev, ProtocolMessage::PaintEvent { pos, color } if pos.x == 10 && pos.y == 20 && color.b == 3));
    assert!(matches!(event_from_frame(None), Err(PaintboardError::ConnectionClosed)));
    assert!(matches!(event_from_frame(Some(WsFrame::Close)), Err(PaintboardError::ConnectionClosed)));
    assert!(matches!(event_from_frame(Some(WsFrame::Text)), Err(PaintboardError::InvalidData)));
    assert!(matches!(event_from_frame(Some(WsFrame::Binary(vec![]))), Err(PaintboardError::InvalidData)));
}

#[test]
fn credentials_are_required_in_order() {
    assert!(matches!(require_credentials(None, &None), Err(PaintboardError::Auth(m)) if m == "UID not set"));
    assert!(matches!(require_credentials(Some(5), &None), Err(PaintboardError::Auth(m)) if m == "Token not set"));
    let (u, t) = require_credentials(Some(5), &Some("tok".to_string())).unwrap();
    assert_eq!(u, 5);
    assert_eq!(t, "tok");
}
