//! Winter Paintboard SDK: the verified core of a client for the Winter
//! Paintboard API (binary WebSocket protocol, board model, batching,
//! reconnection and connection-health bookkeeping).

pub mod actor;
pub mod client;
pub mod config;
pub mod error;
pub mod error_stats;
pub mod event;
pub mod http;
pub mod models;
pub mod pool;
pub mod reconnect;
pub mod sending;
pub mod tracker;
pub mod utils;

pub use client::{AsyncClient, BatchHelper};
pub use error::PaintboardError;
pub use models::{Board, PaintResult, Pos, Rgb};
