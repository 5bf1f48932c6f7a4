//! Data models of the Winter Paintboard API.

pub mod auth;
pub mod board;
pub mod common;
pub mod paint;

pub use board::{Board, Pixel};
pub use common::{Pos, Rgb};
pub use paint::{PaintOperation, PaintResult, PaintStatus};
pub mod protocol;

pub use protocol::{OpCode, ProtocolMessage};
pub use auth::{AuthRequest, TokenData, TokenResponse};
