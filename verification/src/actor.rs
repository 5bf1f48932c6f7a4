//! Decisions of the WebSocket actor: connection bookkeeping, what to do with
//! each received frame and message, the reconnect loop and the health check.

use vstd::prelude::*;
use vstd::string::*;

use crate::error::PaintboardError;
use crate::models::common::{Pos, Rgb};
use crate::models::paint::{spec_status_from_byte, PaintResult, PaintStatus};
use crate::models::protocol::{ProtocolMessage, SpecMessage};

verus! {

/// Connection bookkeeping of the actor.
#[derive(Debug, Clone, Copy, PartialEq, Eq)]
pub struct WsActorState {
    /// The connection is believed to be up.
    pub connected: bool,
    /// A reconnect task is running.
    pub reconnecting: bool,
    /// The channel to the sending task exists.
    pub has_send_channel: bool,
    /// The direct WebSocket sender is held (used for pongs).
    pub has_ws_sender: bool,
    /// The receiving half of the stream is held.
    pub has_receiver: bool,
}

/// What the actor does with a request to send binary data.
#[derive(Debug, Clone, Copy, PartialEq, Eq)]
pub enum SendDecision {
    /// Hand the data to the sending task.
    Forward,
    /// Refuse: the connection is down or being re-established.
    RejectNotConnected,
    /// Refuse: there is no sending task.
    RejectNoSender,
}

/// What the actor does with a request to send a pong.
#[derive(Debug, Clone, Copy, PartialEq, Eq)]
pub enum PongDecision {
    /// Send it on the WebSocket sender.
    Send,
    /// Refuse: the connection is down.
    RejectNotConnected,
    /// Refuse: no WebSocket sender is held.
    RejectNoSender,
}

/// The state once a connection is established.
pub open spec fn spec_after_connected(s: WsActorState) -> WsActorState {
    WsActorState { connected: true, reconnecting: false, has_send_channel: true, has_ws_sender: false, has_receiver: true }
}

/// The state once the connection is found broken.
pub open spec fn spec_after_mark_disconnected(s: WsActorState) -> WsActorState {
    WsActorState { connected: false, has_ws_sender: false, has_receiver: false, ..s }
}

/// The state once the connection is closed on request.
pub open spec fn spec_after_close(s: WsActorState) -> WsActorState {
    WsActorState { connected: false, has_ws_sender: false, has_receiver: false, ..s }
}

/// What a send request is answered with in state `s`.
pub open spec fn spec_send_decision(s: WsActorState) -> SendDecision {
    if !s.has_send_channel {
        SendDecision::RejectNoSender
    } else if s.connected && !s.reconnecting {
        SendDecision::Forward
    } else {
        SendDecision::RejectNotConnected
    }
}

impl WsActorState {
    /// The state of a fresh actor: nothing connected, nothing running.
    pub fn new() -> (s: Self)
        ensures
            !s.connected && !s.reconnecting && !s.has_send_channel && !s.has_ws_sender && !s.has_receiver,
    {
        WsActorState {
            connected: false,
            reconnecting: false,
            has_send_channel: false,
            has_ws_sender: false,
            has_receiver: false,
        }
    }

    /// A connection was established: the send channel and receiver are in
    /// place, the connection is up and no longer being re-established.
    pub fn on_connected(&mut self)
        ensures
            *final(self) == spec_after_connected(*old(self)),
    {
        self.has_send_channel = true;
        self.has_ws_sender = false;
        self.has_receiver = true;
        self.connected = true;
        self.reconnecting = false;
    }

    /// The connection was found broken: it is marked down and the stream
    /// halves dropped. The result says whether a reconnect must be started
    /// (only when none is running).
    pub fn on_mark_disconnected(&mut self) -> (start_reconnect: bool)
        ensures
            *final(self) == spec_after_mark_disconnected(*old(self)),
            start_reconnect == !old(self).reconnecting,
    {
        self.connected = false;
        self.has_ws_sender = false;
        self.has_receiver = false;
        !self.reconnecting
    }

    /// The connection was closed on request.
    pub fn on_close(&mut self)
        ensures
            *final(self) == spec_after_close(*old(self)),
    {
        self.has_ws_sender = false;
        self.connected = false;
        self.has_receiver = false;
    }

    /// Decides a send request; without a sending task the connection is also
    /// marked down.
    pub fn decide_send(&mut self) -> (d: SendDecision)
        ensures
            d == spec_send_decision(*old(self)),
            old(self).has_send_channel ==> *final(self) == *old(self),
            !old(self).has_send_channel ==> *final(self) == (WsActorState { connected: false, ..*old(self) }),
    {
        if self.has_send_channel {
            if !self.connected || self.reconnecting {
                SendDecision::RejectNotConnected
            } else {
                SendDecision::Forward
            }
        } else {
            self.connected = false;
            SendDecision::RejectNoSender
        }
    }

    /// Decides a pong request; without a WebSocket sender the connection is
    /// also marked down.
    pub fn decide_pong(&mut self) -> (d: PongDecision)
        ensures
            !old(self).connected ==> d == PongDecision::RejectNotConnected && *final(self) == *old(self),
            old(self).connected && old(self).has_ws_sender ==> d == PongDecision::Send && *final(self) == *old(self),
            old(self).connected && !old(self).has_ws_sender ==> d == PongDecision::RejectNoSender
                && *final(self) == (WsActorState { connected: false, ..*old(self) }),
    {
        if !self.connected {
            return PongDecision::RejectNotConnected;
        }
        if self.has_ws_sender {
            PongDecision::Send
        } else {
            self.connected = false;
            PongDecision::RejectNoSender
        }
    }

    /// Starting the reconnect task: skipped while one is still running,
    /// otherwise the state records that reconnection is in progress. The
    /// result says whether a task must be spawned.
    pub fn on_start_reconnect(&mut self, task_running: bool) -> (spawn: bool)
        ensures
            spawn == !task_running,
            task_running ==> *final(self) == *old(self),
            !task_running ==> *final(self) == (WsActorState { reconnecting: true, ..*old(self) }),
    {
        if task_running {
            false
        } else {
            self.reconnecting = true;
            true
        }
    }

    /// The reconnect task stopped without reconnecting.
    pub fn on_reconnect_stopped(&mut self)
        ensures
            *final(self) == (WsActorState { reconnecting: false, ..*old(self) }),
    {
        self.reconnecting = false;
    }
}

/// Sends follow the connection: once it is found broken or closed, no send
/// request is forwarded (until it is re-established), and once a connection
/// is established, every send request is forwarded.
pub proof fn law_sends_follow_connection(s: WsActorState)
    ensures
        spec_send_decision(spec_after_mark_disconnected(s)) != SendDecision::Forward,
        spec_send_decision(spec_after_close(s)) != SendDecision::Forward,
        spec_send_decision(spec_after_connected(s)) == SendDecision::Forward,
        spec_send_decision(spec_after_mark_disconnected(spec_after_connected(s))) != SendDecision::Forward,
{
}

/// What the actor does with one protocol message from the server.
#[derive(Debug)]
pub enum MessageAction {
    /// Answer a heartbeat ping with these bytes (the pong code).
    SendBinary(Vec<u8>),
    /// Record the status and hand the result to the request `drawing_id`.
    CompleteRequest { drawing_id: u32, result: PaintResult },
    /// Publish a pixel update.
    PostPixelUpdate { pos: Pos, color: Rgb },
    /// Nothing to do (logged).
    Ignore,
}

/// The hexadecimal digit of a value below 16, lower case.
pub open spec fn spec_hex_digit(v: u8) -> char {
    if v < 10 {
        (('0' as u8) + v) as char
    } else {
        (('a' as u8) + v - 10) as char
    }
}

/// The message attached to a paint result received with status byte `status`:
/// "Paint result received with status: 0x" and two lower-case hex digits.
pub open spec fn spec_result_message(status: u8) -> Seq<char> {
    "Paint result received with status: 0x"@ + seq![spec_hex_digit(status / 16), spec_hex_digit(status % 16)]
}

fn hex_digit(v: u8) -> (s: &'static str)
    requires
        v < 16,
    ensures
        s@ == seq![spec_hex_digit(v)],
{
    proof {
        reveal_strlit("0");
        reveal_strlit("1");
        reveal_strlit("2");
        reveal_strlit("3");
        reveal_strlit("4");
        reveal_strlit("5");
        reveal_strlit("6");
        reveal_strlit("7");
        reveal_strlit("8");
        reveal_strlit("9");
        reveal_strlit("a");
        reveal_strlit("b");
        reveal_strlit("c");
        reveal_strlit("d");
        reveal_strlit("e");
        reveal_strlit("f");
    }
    let s = if v == 0 {
        "0"
    } else if v == 1 {
        "1"
    } else if v == 2 {
        "2"
    } else if v == 3 {
        "3"
    } else if v == 4 {
        "4"
    } else if v == 5 {
        "5"
    } else if v == 6 {
        "6"
    } else if v == 7 {
        "7"
    } else if v == 8 {
        "8"
    } else if v == 9 {
        "9"
    } else if v == 10 {
        "a"
    } else if v == 11 {
        "b"
    } else if v == 12 {
        "c"
    } else if v == 13 {
        "d"
    } else if v == 14 {
        "e"
    } else {
        "f"
    };
    assert(s@ =~= seq![spec_hex_digit(v)]);
    s
}

/// The message attached to a paint result with this status byte.
pub fn result_message(status: u8) -> (m: String)
    ensures
        m@ == spec_result_message(status),
{
    let mut m = String::from_str("Paint result received with status: 0x");
    m.append(hex_digit(status / 16));
    m.append(hex_digit(status % 16));
    assert(m@ =~= spec_result_message(status));
    m
}

/// What the actor does with a protocol message: answer pings with the pong
/// code, route paint results to their request, publish pixel updates, and
/// ignore the rest.
pub fn action_for_message(msg: ProtocolMessage) -> (a: MessageAction)
    ensures
        match msg@ {
            SpecMessage::HeartbeatPing => a matches MessageAction::SendBinary(b) && b@ == seq![0xfbu8],
            SpecMessage::PaintResult { drawing_id, status } => a matches MessageAction::CompleteRequest { drawing_id: d, result }
                && d == drawing_id && result.drawing_id == drawing_id
                && result.status == spec_status_from_byte(status)
                && result.message@ == spec_result_message(status),
            SpecMessage::PaintEvent { pos, color } => a matches MessageAction::PostPixelUpdate { pos: p, color: c }
                && p == pos && c == color,
            _ => a is Ignore,
        },
{
    match msg {
        ProtocolMessage::HeartbeatPing => {
            let mut v: Vec<u8> = Vec::new();
            v.push(0xfbu8);
            assert(v@ =~= seq![0xfbu8]);
            MessageAction::SendBinary(v)
        },
        ProtocolMessage::PaintResult { drawing_id, status } => {
            let result = PaintResult { drawing_id, status: PaintStatus::from(status), message: result_message(status) };
            MessageAction::CompleteRequest { drawing_id, result }
        },
        ProtocolMessage::PaintEvent { pos, color } => MessageAction::PostPixelUpdate { pos, color },
        _ => MessageAction::Ignore,
    }
}

/// Kinds of WebSocket frames the actor receives.
#[derive(Debug)]
pub enum WsFrame {
    Binary(Vec<u8>),
    Ping(Vec<u8>),
    Pong,
    Close,
    Text,
    Other,
}

/// What the receive loop does with a frame.
#[derive(Debug)]
pub enum FrameAction {
    /// Parse the data as a sticky packet and act on each message.
    HandleBinary(Vec<u8>),
    /// Answer with a WebSocket pong carrying this payload.
    SendPong(Vec<u8>),
    /// Stop reading: the connection is closing.
    Stop,
    /// Nothing to do (logged).
    Ignore,
}

/// The receive loop's decision for one frame.
pub fn action_for_frame(frame: WsFrame) -> (a: FrameAction)
    ensures
        match frame {
            WsFrame::Binary(d) => a matches FrameAction::HandleBinary(x) && x@ == d@,
            WsFrame::Ping(p) => a matches FrameAction::SendPong(x) && x@ == p@,
            WsFrame::Close => a is Stop,
            _ => a is Ignore,
        },
{
    match frame {
        WsFrame::Binary(d) => FrameAction::HandleBinary(d),
        WsFrame::Ping(p) => FrameAction::SendPong(p),
        WsFrame::Close => FrameAction::Stop,
        _ => FrameAction::Ignore,
    }
}

/// One step of the reconnect loop.
#[derive(Debug, Clone, Copy, PartialEq, Eq)]
pub enum ReconnectStep {
    /// Reconnection is disabled: stop and clear the reconnecting flag.
    Stop,
    /// Wait this many milliseconds, then ask for a connection.
    WaitThenConnect(u64),
}

/// Outcome of a reconnect attempt.
#[derive(Debug, Clone, Copy, PartialEq, Eq)]
pub enum AttemptOutcome {
    Connected,
    Failed,
    ActorGone,
}

/// What the loop does after an attempt.
#[derive(Debug, Clone, Copy, PartialEq, Eq)]
pub enum AfterAttempt {
    /// Reconnected: reset the backoff and stop.
    ResetAndStop,
    /// Try again.
    Retry,
    /// The actor is gone: clear the reconnecting flag and stop.
    Stop,
}

/// The reconnect loop's next step, drawing the delay from the manager.
pub fn reconnect_step(manager: &mut crate::reconnect::WsReconnectManager) -> (s: ReconnectStep)
    ensures
        !old(manager).spec_strategy().spec_enabled() ==> s == ReconnectStep::Stop && *final(manager) == *old(manager),
        old(manager).spec_strategy().spec_enabled() ==> s == ReconnectStep::WaitThenConnect(old(manager).spec_strategy().spec_current())
            && final(manager).spec_strategy().spec_current() == crate::reconnect::spec_backoff_step(
                old(manager).spec_strategy().spec_current() as int,
                old(manager).spec_strategy().spec_max() as int,
            )
            && final(manager).spec_strategy().spec_enabled()
            && final(manager).spec_strategy().spec_max() == old(manager).spec_strategy().spec_max()
            && final(manager).spec_strategy().spec_initial() == old(manager).spec_strategy().spec_initial(),
{
    if !manager.should_reconnect() {
        ReconnectStep::Stop
    } else {
        ReconnectStep::WaitThenConnect(manager.next_delay())
    }
}

/// What the loop does after an attempt.
pub fn after_attempt(outcome: AttemptOutcome) -> (a: AfterAttempt)
    ensures
        outcome == AttemptOutcome::Connected ==> a == AfterAttempt::ResetAndStop,
        outcome == AttemptOutcome::Failed ==> a == AfterAttempt::Retry,
        outcome == AttemptOutcome::ActorGone ==> a == AfterAttempt::Stop,
{
    match outcome {
        AttemptOutcome::Connected => AfterAttempt::ResetAndStop,
        AttemptOutcome::Failed => AfterAttempt::Retry,
        AttemptOutcome::ActorGone => AfterAttempt::Stop,
    }
}

/// Outcome of a health-check probe (an invalid paint whose answer is awaited).
#[derive(Debug, Clone, Copy, PartialEq, Eq)]
pub enum ProbeOutcome {
    /// An answer with this status came back.
    Answered(PaintStatus),
    /// The response channel closed.
    ChannelClosed,
    /// No answer in time.
    TimedOut,
}

/// Whether the health check must mark the connection down: any outcome but
/// the expected "invalid token" answer.
pub fn probe_marks_disconnected(outcome: ProbeOutcome) -> (down: bool)
    ensures
        down == !(outcome == ProbeOutcome::Answered(PaintStatus::InvalidToken)),
{
    match outcome {
        ProbeOutcome::Answered(s) => match s {
            PaintStatus::InvalidToken => false,
            _ => true,
        },
        _ => true,
    }
}

/// Outcome of waiting for the answer to a paint request.
#[derive(Debug)]
pub enum WaitOutcome {
    Received(PaintResult),
    ChannelClosed,
    TimedOut,
}

/// The result of a single paint after waiting: the answer, or the error for a
/// closed channel or a timeout (after a timeout the request must be dropped
/// from the tracker).
pub fn paint_result_from_wait(outcome: WaitOutcome) -> (r: Result<PaintResult, PaintboardError>)
    ensures
        match outcome {
            WaitOutcome::Received(p) => r matches Ok(q) && q.drawing_id == p.drawing_id && q.status == p.status && q.message@ == p.message@,
            WaitOutcome::ChannelClosed => r == Err::<PaintResult, PaintboardError>(PaintboardError::ResponseChannelClosed),
            WaitOutcome::TimedOut => r == Err::<PaintResult, PaintboardError>(PaintboardError::Timeout),
        },
{
    match outcome {
        WaitOutcome::Received(p) => Ok(p),
        WaitOutcome::ChannelClosed => Err(PaintboardError::ResponseChannelClosed),
        WaitOutcome::TimedOut => Err(PaintboardError::Timeout),
    }
}

/// Checks made before a single paint. When the rate limiter refuses it, the
/// paint is skipped and reported as a success with id 0 and a note; otherwise
/// the connection must be up and not reconnecting.
pub fn paint_gate(allowed: bool, reconnecting: bool, connected: bool) -> (r: Result<Option<PaintResult>, PaintboardError>)
    ensures
        !allowed ==> (r matches Ok(Some(p)) && p.drawing_id == 0 && p.status == PaintStatus::Success
            && p.message@ == "Request dropped due to rate limiting"@),
        allowed && (reconnecting || !connected) ==> r == Err::<Option<PaintResult>, PaintboardError>(PaintboardError::ConnectionClosed),
        allowed && !reconnecting && connected ==> r matches Ok(None),
{
    if !allowed {
        return Ok(Some(PaintResult {
            drawing_id: 0,
            status: PaintStatus::Success,
            message: String::from_str("Request dropped due to rate limiting"),
        }));
    }
    if reconnecting || !connected {
        return Err(PaintboardError::ConnectionClosed);
    }
    Ok(None)
}


/// What a direct read of the next event gives for the frame received (`None`
/// when the stream ended): binary data is parsed as one message, a close frame
/// or the end of the stream means the connection closed, any other frame is
/// not protocol data.
pub fn event_from_frame(frame: Option<WsFrame>) -> (r: Result<ProtocolMessage, PaintboardError>)
    ensures
        match frame {
            Some(WsFrame::Binary(d)) => match r {
                Ok(m) => crate::models::protocol::spec_parse(d@) == Ok::<SpecMessage, PaintboardError>(m@),
                Err(e) => crate::models::protocol::spec_parse(d@) == Err::<SpecMessage, PaintboardError>(e),
            },
            Some(WsFrame::Close) | None => r == Err::<ProtocolMessage, PaintboardError>(PaintboardError::ConnectionClosed),
            _ => r == Err::<ProtocolMessage, PaintboardError>(PaintboardError::InvalidData),
        },
{
    match frame {
        Some(WsFrame::Binary(d)) => ProtocolMessage::parse(d.as_slice()),
        Some(WsFrame::Close) | None => Err(PaintboardError::ConnectionClosed),
        _ => Err(PaintboardError::InvalidData),
    }
}

} // verus!
