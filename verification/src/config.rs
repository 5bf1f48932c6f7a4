use vstd::prelude::*;

use std::time::Duration;

verus! {

/// WebSocket connection mode.
#[derive(Debug, Clone, Copy, PartialEq, Eq)]
pub enum ConnectionMode {
    ReadWrite,
    ReadOnly,
    WriteOnly,
}

/// The query string a connection mode adds to the WebSocket URL.
pub open spec fn spec_mode_query(mode: ConnectionMode) -> Option<Seq<char>> {
    match mode {
        ConnectionMode::ReadOnly => Some("readonly=1"@),
        ConnectionMode::WriteOnly => Some("writeonly=1"@),
        ConnectionMode::ReadWrite => None,
    }
}

impl ConnectionMode {
    /// The query string this mode adds to the WebSocket URL, if any.
    pub fn query(&self) -> (q: Option<&'static str>)
        ensures
            match q {
                Some(s) => spec_mode_query(*self) == Some(s@),
                None => spec_mode_query(*self) is None,
            },
    {
        match self {
            ConnectionMode::ReadOnly => Some("readonly=1"),
            ConnectionMode::WriteOnly => Some("writeonly=1"),
            ConnectionMode::ReadWrite => None,
        }
    }
}

/// Client configuration.
#[derive(Debug, Clone)]
pub struct Config {
    pub api_base_url: String,
    pub ws_url: String,
    pub heartbeat_interval: Duration,
    pub max_retries: u32,
    pub retry_delay: Duration,
    pub batch_timeout: Duration,
    pub max_batch_size: usize,
    pub connection_mode: ConnectionMode,
}

/// `Duration` is `Copy`; its `Clone` hands back the same value.
pub assume_specification[ <std::time::Duration as std::clone::Clone>::clone ](d: &Duration) -> (r: Duration)
    ensures
        r == *d,
;

/// Name for the duration `std::time::Duration::from_secs` makes of a number
/// of seconds.
pub uninterp spec fn duration_of_secs(secs: u64) -> Duration;

/// Name for the duration `std::time::Duration::from_millis` makes of a number
/// of milliseconds.
pub uninterp spec fn duration_of_millis(millis: u64) -> Duration;

/// Calls `std::time::Duration::from_secs`; the result is the duration named
/// for `secs` (the call is a pure constructor).
#[verifier::external_body]
fn duration_from_secs(secs: u64) -> (d: Duration)
    ensures
        d == duration_of_secs(secs),
{
    Duration::from_secs(secs)
}

/// Calls `std::time::Duration::from_millis`; the result is the duration
/// named for `millis` (the call is a pure constructor).
#[verifier::external_body]
fn duration_from_millis(millis: u64) -> (d: Duration)
    ensures
        d == duration_of_millis(millis),
{
    Duration::from_millis(millis)
}

impl Config {
    /// A configuration made of the given values.
    pub fn new(
        api_base_url: String,
        ws_url: String,
        heartbeat_interval: Duration,
        max_retries: u32,
        retry_delay: Duration,
        batch_timeout: Duration,
        max_batch_size: usize,
        connection_mode: ConnectionMode,
    ) -> (c: Self)
        ensures
            c.api_base_url@ == api_base_url@,
            c.ws_url@ == ws_url@,
            c.heartbeat_interval == heartbeat_interval,
            c.max_retries == max_retries,
            c.retry_delay == retry_delay,
            c.batch_timeout == batch_timeout,
            c.max_batch_size == max_batch_size,
            c.connection_mode == connection_mode,
    {
        Config {
            api_base_url,
            ws_url,
            heartbeat_interval,
            max_retries,
            retry_delay,
            batch_timeout,
            max_batch_size,
            connection_mode,
        }
    }
}

impl Default for Config {
    /// The public paintboard endpoints, 3 retries, batches of at most 100
    /// pixels, read-write mode; heartbeat 30 s, retry delay 1 s, batch timeout 20 ms.
    fn default() -> (c: Self)
        ensures
            c.api_base_url@ == "https://paintboard.luogu.me"@,
            c.ws_url@ == "wss://paintboard.luogu.me/api/paintboard/ws"@,
            c.heartbeat_interval == duration_of_secs(30),
            c.max_retries == 3,
            c.retry_delay == duration_of_secs(1),
            c.batch_timeout == duration_of_millis(20),
            c.max_batch_size == 100,
            c.connection_mode == ConnectionMode::ReadWrite,
    {
        Config {
            api_base_url: "https://paintboard.luogu.me".to_string(),
            ws_url: "wss://paintboard.luogu.me/api/paintboard/ws".to_string(),
            heartbeat_interval: duration_from_secs(30),
            max_retries: 3,
            retry_delay: duration_from_secs(1),
            batch_timeout: duration_from_millis(20),
            max_batch_size: 100,
            connection_mode: ConnectionMode::ReadWrite,
        }
    }
}

} // verus!
