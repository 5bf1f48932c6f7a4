use vstd::prelude::*;

verus! {

/// Kinds of protocol violation reported by the server.
#[derive(Debug, Clone, Copy, PartialEq, Eq)]
pub enum ProtocolViolation {
    UnexpectedPong,
    UnknownPacketType,
    DuplicatePingState,
}

/// WebSocket close codes.
#[derive(Debug, Clone, Copy, PartialEq, Eq)]
pub enum ConnectionCloseCode {
    Normal,
    /// Ping timeout.
    GoingAway,
    ProtocolViolation,
    /// IP connection limit exceeded.
    IPRateLimitExceeded,
    ServerError,
    /// Network trouble (never sent by the server).
    NetworkError,
}

/// The numeric value of a close code.
pub open spec fn spec_close_code(c: ConnectionCloseCode) -> u16 {
    match c {
        ConnectionCloseCode::Normal => 1000,
        ConnectionCloseCode::GoingAway => 1001,
        ConnectionCloseCode::ProtocolViolation => 1002,
        ConnectionCloseCode::IPRateLimitExceeded => 1008,
        ConnectionCloseCode::ServerError => 1011,
        ConnectionCloseCode::NetworkError => 1006,
    }
}

impl ConnectionCloseCode {
    /// The numeric close code (what the code displays as).
    pub fn code(&self) -> (n: u16)
        ensures
            n == spec_close_code(*self),
    {
        match self {
            ConnectionCloseCode::Normal => 1000,
            ConnectionCloseCode::GoingAway => 1001,
            ConnectionCloseCode::ProtocolViolation => 1002,
            ConnectionCloseCode::IPRateLimitExceeded => 1008,
            ConnectionCloseCode::ServerError => 1011,
            ConnectionCloseCode::NetworkError => 1006,
        }
    }
}

/// Errors that can occur when using the Winter Paintboard SDK.
#[derive(Debug)]
pub enum PaintboardError {
    Network(String),
    WebSocket(String),
    JsonParse(String),
    InvalidCoordinate,
    IndexOutOfRange,
    InvalidData,
    Http(u16),
    InvalidUrl(String),
    ClientNotInitialized,
    Timeout,
    Auth(String),
    RateLimit,
    ConnectionClosed,
    ResponseChannelClosed,
    Internal(String),
    ProtocolViolation(ProtocolViolation),
    ConnectionClosedWithCode(u16, String),
}

} // verus!
