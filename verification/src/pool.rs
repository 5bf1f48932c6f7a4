//! Connection-pool bookkeeping: the circuit breaker, pool metrics, retry
//! classification of errors and the decisions about pooled connections.

use vstd::prelude::*;
use vstd::string::*;

use crate::error::PaintboardError;

verus! {

/// Milliseconds between `since` and `now`, zero when the clock went back.
pub open spec fn spec_elapsed(since: u64, now: u64) -> int {
    if now > since {
        now - since
    } else {
        0
    }
}

/// Circuit breaker: opens after `max_failures` consecutive failures and
/// closes again once `reset_timeout` ms have passed since the last failure.
#[derive(Debug)]
pub struct CircuitBreaker {
    open: bool,
    failure_count: usize,
    last_failure_time: u64,
    max_failures: usize,
    reset_timeout: u64,
}

/// Mathematical state of a circuit breaker.
pub struct BreakerView {
    pub open: bool,
    pub failure_count: usize,
    pub last_failure_time: u64,
    pub max_failures: usize,
    pub reset_timeout: u64,
}

impl View for CircuitBreaker {
    type V = BreakerView;

    closed spec fn view(&self) -> BreakerView {
        BreakerView {
            open: self.open,
            failure_count: self.failure_count,
            last_failure_time: self.last_failure_time,
            max_failures: self.max_failures,
            reset_timeout: self.reset_timeout,
        }
    }
}

impl CircuitBreaker {
    /// A closed breaker with no failure, created at time `now`.
    pub fn new(max_failures: usize, reset_timeout: u64, now: u64) -> (b: Self)
        ensures
            b@ == (BreakerView { open: false, failure_count: 0, last_failure_time: now, max_failures, reset_timeout }),
    {
        CircuitBreaker { open: false, failure_count: 0, last_failure_time: now, max_failures, reset_timeout }
    }

    /// Counts a failure at time `now` (the counter wraps like an atomic
    /// counter); reaching `max_failures` opens the breaker.
    pub fn record_failure(&mut self, now: u64)
        ensures
            final(self)@ == spec_after_failure(old(self)@, now),
    {
        let count = self.failure_count.wrapping_add(1);
        self.failure_count = count;
        self.last_failure_time = now;
        if count >= self.max_failures {
            self.open = true;
        }
    }

    /// A success closes the breaker and clears the failure count.
    pub fn record_success(&mut self)
        ensures
            final(self)@ == (BreakerView { open: false, failure_count: 0, ..old(self)@ }),
    {
        self.failure_count = 0;
        self.open = false;
    }

    /// Whether requests are refused at time `now`. An open breaker whose
    /// timeout has passed closes (and clears its count) and lets requests through.
    pub fn is_open(&mut self, now: u64) -> (o: bool)
        ensures
            !old(self)@.open ==> !o && final(self)@ == old(self)@,
            old(self)@.open && spec_elapsed(old(self)@.last_failure_time, now) > old(self)@.reset_timeout ==> !o
                && final(self)@ == (BreakerView { open: false, failure_count: 0, ..old(self)@ }),
            old(self)@.open && spec_elapsed(old(self)@.last_failure_time, now) <= old(self)@.reset_timeout ==> o
                && final(self)@ == old(self)@,
    {
        if self.open {
            let elapsed: u64 = if now > self.last_failure_time { now - self.last_failure_time } else { 0 };
            if elapsed > self.reset_timeout {
                self.open = false;
                self.failure_count = 0;
                false
            } else {
                true
            }
        } else {
            false
        }
    }
}

/// The breaker after one failure at time `now`.
pub open spec fn spec_after_failure(v: BreakerView, now: u64) -> BreakerView {
    let count = v.failure_count.wrapping_add(1);
    BreakerView { open: v.open || count >= v.max_failures, failure_count: count, last_failure_time: now, ..v }
}

/// The breaker after failures at the times `times`, in order, with no success
/// in between.
pub open spec fn spec_after_failures(v: BreakerView, times: Seq<u64>) -> BreakerView
    decreases times.len(),
{
    if times.len() == 0 {
        v
    } else {
        spec_after_failure(spec_after_failures(v, times.drop_last()), times.last())
    }
}

/// A closed breaker with no failure counted opens exactly when it has seen
/// `max_failures` failures in a row (and at least one): fewer leave it closed.
/// Its settings stay as they were, and it remembers the time of the last
/// failure.
pub proof fn law_breaker_opens_after_failures(v: BreakerView, times: Seq<u64>)
    requires
        !v.open,
        v.failure_count == 0,
        times.len() < usize::MAX,
    ensures
        spec_after_failures(v, times).failure_count == times.len(),
        spec_after_failures(v, times).open == (times.len() >= 1 && times.len() >= v.max_failures),
        spec_after_failures(v, times).max_failures == v.max_failures,
        spec_after_failures(v, times).reset_timeout == v.reset_timeout,
        times.len() > 0 ==> spec_after_failures(v, times).last_failure_time == times.last(),
        times.len() == 0 ==> spec_after_failures(v, times).last_failure_time == v.last_failure_time,
    decreases times.len(),
{
    if times.len() > 0 {
        law_breaker_opens_after_failures(v, times.drop_last());
    }
}

/// Calls `std::time::SystemTime::now`; the result depends on the clock and
/// nothing is stated of it.
#[verifier::external_body]
fn system_time_now() -> std::time::SystemTime {
    std::time::SystemTime::now()
}

/// Declares `std::time::SystemTime` to Verus (opaque).
#[verifier::external_type_specification]
#[verifier::external_body]
pub struct ExSystemTime(std::time::SystemTime);

/// `SystemTime` is `Copy`; its `Clone` hands back the same value.
pub assume_specification[ <std::time::SystemTime as std::clone::Clone>::clone ](t: &std::time::SystemTime) -> (r: std::time::SystemTime)
    ensures
        r == *t,
;

/// Counters of a connection pool.
#[derive(Debug, Clone)]
pub struct PoolMetrics {
    pub pool_size: usize,
    pub active_count: usize,
    pub min_connections: usize,
    pub max_connections: usize,
    pub total_usage_count: u64,
    pub created_count: u64,
    pub released_count: u64,
    pub broken_count: u64,
    pub total_requests: u64,
    pub total_packets: u64,
    pub batch_requests: u64,
    pub total_errors: u64,
    pub retry_count: u64,
    pub retry_success_count: u64,
    pub retry_failed_count: u64,
    pub network_errors: u64,
    pub http_errors: u64,
    pub auth_errors: u64,
    pub other_errors: u64,
    pub circuit_breaker_tripped: u64,
    pub transient_errors: u64,
    pub client_errors: u64,
    pub server_errors: u64,
    pub timestamp: std::time::SystemTime,
}

/// The counter fields of the metrics, in declaration order.
pub open spec fn spec_counters(m: PoolMetrics) -> Seq<int> {
    seq![
        m.pool_size as int,
        m.active_count as int,
        m.min_connections as int,
        m.max_connections as int,
        m.total_usage_count as int,
        m.created_count as int,
        m.released_count as int,
        m.broken_count as int,
        m.total_requests as int,
        m.total_packets as int,
        m.batch_requests as int,
        m.total_errors as int,
        m.retry_count as int,
        m.retry_success_count as int,
        m.retry_failed_count as int,
        m.network_errors as int,
        m.http_errors as int,
        m.auth_errors as int,
        m.other_errors as int,
        m.circuit_breaker_tripped as int,
        m.transient_errors as int,
        m.client_errors as int,
        m.server_errors as int,
    ]
}

impl PoolMetrics {
    /// All counters at zero, stamped with the current time.
    pub fn new() -> (m: Self)
        ensures
            spec_counters(m) == Seq::new(23, |i: int| 0int),
    {
        let m = PoolMetrics {
            pool_size: 0,
            active_count: 0,
            min_connections: 0,
            max_connections: 0,
            total_usage_count: 0,
            created_count: 0,
            released_count: 0,
            broken_count: 0,
            total_requests: 0,
            total_packets: 0,
            batch_requests: 0,
            total_errors: 0,
            retry_count: 0,
            retry_success_count: 0,
            retry_failed_count: 0,
            network_errors: 0,
            http_errors: 0,
            auth_errors: 0,
            other_errors: 0,
            circuit_breaker_tripped: 0,
            transient_errors: 0,
            client_errors: 0,
            server_errors: 0,
            timestamp: system_time_now(),
        };
        assert(spec_counters(m) =~= Seq::new(23, |i: int| 0int));
        m
    }

    /// One request that sent `packet_count` packets.
    pub fn record_request(&mut self, packet_count: u64)
        requires
            old(self).total_requests < u64::MAX,
            old(self).total_packets + packet_count <= u64::MAX,
        ensures
            *final(self) == (PoolMetrics {
                total_requests: (old(self).total_requests + 1) as u64,
                total_packets: (old(self).total_packets + packet_count) as u64,
                ..*old(self)
            }),
    {
        self.total_requests = self.total_requests + 1;
        self.total_packets = self.total_packets + packet_count;
    }

    /// One batch request of `operations_count` operations.
    pub fn record_batch_request(&mut self, operations_count: u64)
        requires
            old(self).batch_requests < u64::MAX,
            old(self).total_packets + operations_count <= u64::MAX,
        ensures
            *final(self) == (PoolMetrics {
                batch_requests: (old(self).batch_requests + 1) as u64,
                total_packets: (old(self).total_packets + operations_count) as u64,
                ..*old(self)
            }),
    {
        self.batch_requests = self.batch_requests + 1;
        self.total_packets = self.total_packets + operations_count;
    }

    /// One failed request.
    pub fn record_error(&mut self)
        requires
            old(self).total_errors < u64::MAX,
        ensures
            *final(self) == (PoolMetrics { total_errors: (old(self).total_errors + 1) as u64, ..*old(self) }),
    {
        self.total_errors = self.total_errors + 1;
    }

    /// One retry, successful or not.
    pub fn record_retry(&mut self, success: bool)
        requires
            old(self).retry_count < u64::MAX,
            old(self).retry_success_count < u64::MAX,
            old(self).retry_failed_count < u64::MAX,
        ensures
            success ==> *final(self) == (PoolMetrics {
                retry_count: (old(self).retry_count + 1) as u64,
                retry_success_count: (old(self).retry_success_count + 1) as u64,
                ..*old(self)
            }),
            !success ==> *final(self) == (PoolMetrics {
                retry_count: (old(self).retry_count + 1) as u64,
                retry_failed_count: (old(self).retry_failed_count + 1) as u64,
                ..*old(self)
            }),
    {
        self.retry_count = self.retry_count + 1;
        if success {
            self.retry_success_count = self.retry_success_count + 1;
        } else {
            self.retry_failed_count = self.retry_failed_count + 1;
        }
    }

    /// One connection created.
    pub fn record_created(&mut self)
        requires
            old(self).created_count < u64::MAX,
        ensures
            *final(self) == (PoolMetrics { created_count: (old(self).created_count + 1) as u64, ..*old(self) }),
    {
        self.created_count = self.created_count + 1;
    }

    /// One connection released, possibly broken.
    pub fn record_released(&mut self, is_broken: bool)
        requires
            old(self).released_count < u64::MAX,
            old(self).broken_count < u64::MAX,
        ensures
            is_broken ==> *final(self) == (PoolMetrics {
                released_count: (old(self).released_count + 1) as u64,
                broken_count: (old(self).broken_count + 1) as u64,
                ..*old(self)
            }),
            !is_broken ==> *final(self) == (PoolMetrics {
                released_count: (old(self).released_count + 1) as u64,
                ..*old(self)
            }),
    {
        self.released_count = self.released_count + 1;
        if is_broken {
            self.broken_count = self.broken_count + 1;
        }
    }

    /// One use of a pooled connection.
    pub fn record_usage(&mut self)
        requires
            old(self).total_usage_count < u64::MAX,
        ensures
            *final(self) == (PoolMetrics { total_usage_count: (old(self).total_usage_count + 1) as u64, ..*old(self) }),
    {
        self.total_usage_count = self.total_usage_count + 1;
    }

    /// Counts an error under the counter its type names: "network" and
    /// "transient" are network errors, "auth" auth errors, "http" HTTP errors,
    /// "other" other errors; a type starting with "http_" counts as a client
    /// error when it holds a '4' and no '5', as a server error when it holds a
    /// '5', and as an HTTP error otherwise; anything else is an other error.
    pub fn apply_error_type(&mut self, error_type: &str)
        requires
            old(self).network_errors < u64::MAX,
            old(self).auth_errors < u64::MAX,
            old(self).http_errors < u64::MAX,
            old(self).other_errors < u64::MAX,
            old(self).client_errors < u64::MAX,
            old(self).server_errors < u64::MAX,
        ensures
            *final(self) == spec_apply_error_type(*old(self), error_type@),
    {
        proof {
            reveal_strlit("network");
            reveal_strlit("transient");
            reveal_strlit("auth");
            reveal_strlit("http");
            reveal_strlit("other");
            reveal_strlit("http_");
        }
        if str_eq(error_type, "network") || str_eq(error_type, "transient") {
            self.network_errors = self.network_errors + 1;
        } else if str_eq(error_type, "auth") {
            self.auth_errors = self.auth_errors + 1;
        } else if str_eq(error_type, "http") {
            self.http_errors = self.http_errors + 1;
        } else if str_eq(error_type, "other") {
            self.other_errors = self.other_errors + 1;
        } else if starts_with(error_type, "http_") {
            if contains_char(error_type, '4') && !contains_char(error_type, '5') {
                self.client_errors = self.client_errors + 1;
            } else if contains_char(error_type, '5') {
                self.server_errors = self.server_errors + 1;
            } else {
                self.http_errors = self.http_errors + 1;
            }
        } else {
            self.other_errors = self.other_errors + 1;
        }
    }
}

/// The metrics after counting an error of type `t`.
pub open spec fn spec_apply_error_type(m: PoolMetrics, t: Seq<char>) -> PoolMetrics {
    if t == "network"@ || t == "transient"@ {
        PoolMetrics { network_errors: (m.network_errors + 1) as u64, ..m }
    } else if t == "auth"@ {
        PoolMetrics { auth_errors: (m.auth_errors + 1) as u64, ..m }
    } else if t == "http"@ {
        PoolMetrics { http_errors: (m.http_errors + 1) as u64, ..m }
    } else if t == "other"@ {
        PoolMetrics { other_errors: (m.other_errors + 1) as u64, ..m }
    } else if t.len() >= 5 && t.take(5) == "http_"@ {
        if t.contains('4') && !t.contains('5') {
            PoolMetrics { client_errors: (m.client_errors + 1) as u64, ..m }
        } else if t.contains('5') {
            PoolMetrics { server_errors: (m.server_errors + 1) as u64, ..m }
        } else {
            PoolMetrics { http_errors: (m.http_errors + 1) as u64, ..m }
        }
    } else {
        PoolMetrics { other_errors: (m.other_errors + 1) as u64, ..m }
    }
}

/// Whether two strings have the same characters.
pub fn str_eq(a: &str, b: &str) -> (r: bool)
    ensures
        r == (a@ == b@),
{
    let n = a.unicode_len();
    if n != b.unicode_len() {
        return false;
    }
    let mut i: usize = 0;
    while i < n
        invariant
            i <= n,
            n == a@.len(),
            n == b@.len(),
            forall|k: int| 0 <= k < i ==> a@[k] == b@[k],
        decreases n - i,
    {
        if a.get_char(i) != b.get_char(i) {
            return false;
        }
        i = i + 1;
    }
    assert(a@ =~= b@);
    true
}

/// Whether `s` starts with `prefix`.
pub fn starts_with(s: &str, prefix: &str) -> (r: bool)
    ensures
        r == (s@.len() >= prefix@.len() && s@.take(prefix@.len() as int) == prefix@),
{
    let n = prefix.unicode_len();
    if s.unicode_len() < n {
        return false;
    }
    let mut i: usize = 0;
    while i < n
        invariant
            i <= n,
            n == prefix@.len(),
            n <= s@.len(),
            forall|k: int| 0 <= k < i ==> s@[k] == prefix@[k],
        decreases n - i,
    {
        if s.get_char(i) != prefix.get_char(i) {
            assert(s@.take(n as int)[i as int] != prefix@[i as int]);
            return false;
        }
        i = i + 1;
    }
    assert(s@.take(n as int) =~= prefix@);
    true
}

/// Whether `s` holds the character `c`.
pub fn contains_char(s: &str, c: char) -> (r: bool)
    ensures
        r == s@.contains(c),
{
    let n = s.unicode_len();
    let mut i: usize = 0;
    while i < n
        invariant
            i <= n,
            n == s@.len(),
            forall|k: int| 0 <= k < i ==> s@[k] != c,
        decreases n - i,
    {
        if s.get_char(i) == c {
            return true;
        }
        i = i + 1;
    }
    false
}


/// The decimal digits of a number.
pub open spec fn spec_decimal(n: nat) -> Seq<char>
    decreases n,
{
    if n < 10 {
        seq![(('0' as u8) + n) as char]
    } else {
        spec_decimal(n / 10) + seq![(('0' as u8) + (n % 10)) as char]
    }
}

fn decimal_digit(d: u16) -> (s: &'static str)
    requires
        d < 10,
    ensures
        s@ == seq![(('0' as u8) + d) as char],
{
    proof {
        reveal_strlit("0");
        reveal_strlit("1");
        reveal_strlit("2");
        reveal_strlit("3");
        reveal_strlit("4");
        reveal_strlit("5");
        reveal_strlit("6");
        reveal_strlit("7");
        reveal_strlit("8");
        reveal_strlit("9");
    }
    let s = if d == 0 {
        "0"
    } else if d == 1 {
        "1"
    } else if d == 2 {
        "2"
    } else if d == 3 {
        "3"
    } else if d == 4 {
        "4"
    } else if d == 5 {
        "5"
    } else if d == 6 {
        "6"
    } else if d == 7 {
        "7"
    } else if d == 8 {
        "8"
    } else {
        "9"
    };
    assert(s@ =~= seq![(('0' as u8) + d) as char]);
    s
}

/// Appends the decimal digits of `n` to `out`.
pub fn append_decimal_u64(out: &mut String, n: u64)
    ensures
        final(out)@ == old(out)@ + spec_decimal(n as nat),
    decreases n,
{
    if n < 10 {
        out.append(decimal_digit(n as u16));
    } else {
        append_decimal_u64(out, n / 10);
        out.append(decimal_digit((n % 10) as u16));
        assert(final(out)@ =~= old(out)@ + spec_decimal(n as nat));
    }
}

/// The counter key an error is counted under when deciding on a retry.
pub open spec fn spec_retry_key(e: PaintboardError) -> Seq<char> {
    match e {
        PaintboardError::Network(_) | PaintboardError::WebSocket(_) | PaintboardError::ConnectionClosed
        | PaintboardError::Timeout | PaintboardError::ResponseChannelClosed => "transient"@,
        PaintboardError::Http(status) => if status >= 400 {
            "http_"@ + spec_decimal(status as nat)
        } else {
            "other"@
        },
        PaintboardError::Auth(_) => "auth"@,
        _ => "other"@,
    }
}

/// Whether an operation that failed with `e` is worth retrying: network-like
/// failures and server errors are, client errors (4xx) and auth errors are not,
/// anything else is.
pub open spec fn spec_should_retry(e: PaintboardError) -> bool {
    match e {
        PaintboardError::Http(status) => !(400 <= status < 500),
        PaintboardError::Auth(_) => false,
        _ => true,
    }
}

/// Decides whether to retry after `error`, and the counter key to count it under.
pub fn should_retry_on_error(error: &PaintboardError) -> (r: (bool, String))
    ensures
        r.0 == spec_should_retry(*error),
        r.1@ == spec_retry_key(*error),
{
    proof {
        reveal_strlit("transient");
        reveal_strlit("http_");
        reveal_strlit("auth");
        reveal_strlit("other");
    }
    match error {
        PaintboardError::Network(_) | PaintboardError::WebSocket(_) | PaintboardError::ConnectionClosed
        | PaintboardError::Timeout | PaintboardError::ResponseChannelClosed => {
            (true, String::from_str("transient"))
        },
        PaintboardError::Http(status) => {
            if *status >= 400 {
                let mut key = String::from_str("http_");
                append_decimal_u64(&mut key, *status as u64);
                (*status >= 500, key)
            } else {
                (true, String::from_str("other"))
            }
        },
        PaintboardError::Auth(_) => (false, String::from_str("auth")),
        _ => (true, String::from_str("other")),
    }
}

/// The category name of an error.
pub open spec fn spec_error_category(e: PaintboardError) -> Seq<char> {
    match e {
        PaintboardError::Network(_) => "network"@,
        PaintboardError::WebSocket(_) => "websocket"@,
        PaintboardError::ConnectionClosed => "connection_closed"@,
        PaintboardError::Timeout => "timeout"@,
        PaintboardError::ResponseChannelClosed => "response_channel_closed"@,
        PaintboardError::Http(status) => if 400 <= status < 500 {
            "client_error"@
        } else if status >= 500 {
            "server_error"@
        } else {
            "unknown"@
        },
        PaintboardError::Auth(_) => "authentication"@,
        PaintboardError::InvalidCoordinate => "invalid_coordinate"@,
        PaintboardError::IndexOutOfRange => "index_out_of_range"@,
        PaintboardError::InvalidData => "invalid_data"@,
        PaintboardError::InvalidUrl(_) => "invalid_url"@,
        PaintboardError::ClientNotInitialized => "client_not_initialized"@,
        PaintboardError::RateLimit => "rate_limit"@,
        PaintboardError::Internal(_) => "internal"@,
        _ => "unknown"@,
    }
}

/// The category name of an error, for metrics and logs.
pub fn categorize_error(error: &PaintboardError) -> (c: &'static str)
    ensures
        c@ == spec_error_category(*error),
{
    match error {
        PaintboardError::Network(_) => "network",
        PaintboardError::WebSocket(_) => "websocket",
        PaintboardError::ConnectionClosed => "connection_closed",
        PaintboardError::Timeout => "timeout",
        PaintboardError::ResponseChannelClosed => "response_channel_closed",
        PaintboardError::Http(status) => {
            if *status >= 400 && *status < 500 {
                "client_error"
            } else if *status >= 500 {
                "server_error"
            } else {
                "unknown"
            }
        },
        PaintboardError::Auth(_) => "authentication",
        PaintboardError::InvalidCoordinate => "invalid_coordinate",
        PaintboardError::IndexOutOfRange => "index_out_of_range",
        PaintboardError::InvalidData => "invalid_data",
        PaintboardError::InvalidUrl(_) => "invalid_url",
        PaintboardError::ClientNotInitialized => "client_not_initialized",
        PaintboardError::RateLimit => "rate_limit",
        PaintboardError::Internal(_) => "internal",
        _ => "unknown",
    }
}

/// Whether an error from a health-check request shows the connection is broken.
pub open spec fn spec_error_breaks_connection(e: PaintboardError) -> bool {
    match e {
        PaintboardError::Network(_) | PaintboardError::WebSocket(_) | PaintboardError::ConnectionClosed
        | PaintboardError::Timeout => true,
        _ => false,
    }
}

/// Outcome of a health-check request on a pooled connection.
#[derive(Debug)]
pub enum HealthProbe {
    Succeeded,
    Failed(PaintboardError),
    TimedOut,
}

/// Whether a pooled connection is healthy after its health-check request:
/// unhealthy on a timeout or a network-like error, healthy otherwise.
pub fn is_connection_healthy(probe: &HealthProbe) -> (healthy: bool)
    ensures
        healthy == match probe {
            HealthProbe::Succeeded => true,
            HealthProbe::Failed(e) => !spec_error_breaks_connection(*e),
            HealthProbe::TimedOut => false,
        },
{
    match probe {
        HealthProbe::Succeeded => true,
        HealthProbe::Failed(e) => match e {
            PaintboardError::Network(_) | PaintboardError::WebSocket(_) | PaintboardError::ConnectionClosed
            | PaintboardError::Timeout => false,
            _ => true,
        },
        HealthProbe::TimedOut => false,
    }
}

/// Most attempts a pooled operation makes.
pub const MAX_ATTEMPTS: u32 = 3;

/// What the pooled client does after an attempt failed.
#[derive(Debug)]
pub struct RetryPlan {
    /// Counter key to count the error under.
    pub counter: &'static str,
    /// Whether the connection used is returned as broken.
    pub mark_broken: bool,
    /// `None`: give up with the error; `Some(ms)`: retry after that delay.
    pub retry_after_ms: Option<u64>,
}

/// Counter key, broken mark and whether the error ends the attempts at once.
pub open spec fn spec_pool_error_class(e: PaintboardError) -> (Seq<char>, bool, bool) {
    match e {
        PaintboardError::Network(_) | PaintboardError::WebSocket(_) | PaintboardError::ConnectionClosed
        | PaintboardError::Timeout | PaintboardError::ResponseChannelClosed => ("network"@, true, false),
        PaintboardError::Http(status) => if status >= 500 {
            ("http"@, false, false)
        } else if status >= 400 {
            ("http"@, false, true)
        } else {
            ("other"@, true, false)
        },
        PaintboardError::Auth(_) => ("auth"@, false, true),
        _ => ("other"@, true, false),
    }
}

/// Exponential retry delay after `attempts` failed attempts: 100 ms * 2^attempts.
pub open spec fn spec_retry_delay(attempts: u32) -> int {
    (100 * vstd::arithmetic::power2::pow2(attempts as nat)) as int
}

/// The pooled client's decision after its `attempts`-th failed attempt (counted
/// from 1): client and auth errors end at once, otherwise it gives up after
/// `MAX_ATTEMPTS` attempts and retries after an exponential delay before that.
pub fn plan_retry(error: &PaintboardError, attempts: u32) -> (p: RetryPlan)
    requires
        1 <= attempts,
    ensures
        p.counter@ == spec_pool_error_class(*error).0,
        p.mark_broken == spec_pool_error_class(*error).1,
        (spec_pool_error_class(*error).2 || attempts >= MAX_ATTEMPTS) ==> p.retry_after_ms is None,
        !(spec_pool_error_class(*error).2 || attempts >= MAX_ATTEMPTS) ==> p.retry_after_ms == Some(spec_retry_delay(attempts) as u64),
{
    proof {
        reveal_strlit("network");
        reveal_strlit("http");
        reveal_strlit("auth");
        reveal_strlit("other");
    }
    let (counter, mark_broken, fatal): (&'static str, bool, bool) = match error {
        PaintboardError::Network(_) | PaintboardError::WebSocket(_) | PaintboardError::ConnectionClosed
        | PaintboardError::Timeout | PaintboardError::ResponseChannelClosed => ("network", true, false),
        PaintboardError::Http(status) => {
            if *status >= 500 {
                ("http", false, false)
            } else if *status >= 400 {
                ("http", false, true)
            } else {
                ("other", true, false)
            }
        },
        PaintboardError::Auth(_) => ("auth", false, true),
        _ => ("other", true, false),
    };
    if fatal || attempts >= MAX_ATTEMPTS {
        return RetryPlan { counter, mark_broken, retry_after_ms: None };
    }
    proof {
        vstd::arithmetic::power2::lemma2_to64();
    }
    let delay: u64 = if attempts == 1 { 200 } else { 400 };
    RetryPlan { counter, mark_broken, retry_after_ms: Some(delay) }
}


/// A pooled connection with its bookkeeping.
#[derive(Debug)]
pub struct PoolItem<C> {
    pub client: C,
    /// Time (ms) of the last use.
    pub last_used: u64,
    pub usage_count: u64,
    pub is_broken: bool,
}

/// Idle connections waiting in the pool (oldest first), the number handed
/// out, and the credentials every handed-out connection gets.
pub struct ConnectionPool<C> {
    pub items: std::collections::VecDeque<PoolItem<C>>,
    pub active: usize,
    pub min_connections: usize,
    pub max_connections: usize,
    pub config: crate::config::Config,
    pub uid: Option<u32>,
    pub token: Option<String>,
}

impl<C> ConnectionPool<C> {
    /// The idle connections, oldest first.
    pub open spec fn spec_items(&self) -> Seq<PoolItem<C>> {
        self.items@
    }

    /// The number of connections handed out.
    pub open spec fn spec_active(&self) -> usize {
        self.active
    }

    /// An empty pool keeping between `min_connections` and `max_connections`.
    pub fn new(config: crate::config::Config, min_connections: usize, max_connections: usize) -> (p: Self)
        ensures
            p.spec_items() == Seq::<PoolItem<C>>::empty(),
            p.spec_active() == 0,
            p.min_connections == min_connections,
            p.max_connections == max_connections,
            p.config == config,
            p.uid is None,
            p.token is None,
    {
        ConnectionPool {
            items: std::collections::VecDeque::new(),
            active: 0,
            min_connections,
            max_connections,
            config,
            uid: None,
            token: None,
        }
    }

    /// Sets the credentials handed-out connections get.
    pub fn set_auth(&mut self, uid: u32, token: String)
        ensures
            final(self).uid == Some(uid),
            final(self).token == Some(token),
            final(self).spec_items() == old(self).spec_items(),
            final(self).spec_active() == old(self).spec_active(),
            final(self).min_connections == old(self).min_connections,
            final(self).max_connections == old(self).max_connections,
    {
        self.uid = Some(uid);
        self.token = Some(token);
    }

    /// Takes the oldest idle connection out of the pool, if any.
    pub fn take_idle(&mut self) -> (item: Option<PoolItem<C>>)
        ensures
            old(self).spec_items().len() == 0 ==> item is None && final(self).spec_items() == old(self).spec_items(),
            old(self).spec_items().len() > 0 ==> item == Some(old(self).spec_items()[0])
                && final(self).spec_items() == old(self).spec_items().drop_first(),
            final(self).spec_active() == old(self).spec_active(),
            final(self).min_connections == old(self).min_connections,
            final(self).max_connections == old(self).max_connections,
    {
        let r = self.items.pop_front();
        proof {
            if old(self).spec_items().len() > 0 {
                assert(self.items@ =~= old(self).spec_items().drop_first());
            }
        }
        r
    }

    /// Counts a connection as handed out.
    pub fn note_acquired(&mut self)
        requires
            old(self).spec_active() < usize::MAX,
        ensures
            final(self).spec_active() == old(self).spec_active() + 1,
            final(self).spec_items() == old(self).spec_items(),
            final(self).min_connections == old(self).min_connections,
            final(self).max_connections == old(self).max_connections,
    {
        self.active = self.active + 1;
    }

    /// Takes a connection back at time `now`: it is no longer counted as handed
    /// out, and it goes back into the pool only when it is not broken and the
    /// pool holds fewer than `min_connections`. Says whether it was kept.
    pub fn release(&mut self, client: C, is_broken: bool, now: u64) -> (kept: bool)
        ensures
            final(self).spec_active() == if old(self).spec_active() > 0 { old(self).spec_active() - 1 } else { 0 },
            kept == (!is_broken && old(self).spec_items().len() < old(self).min_connections),
            kept ==> final(self).spec_items() == old(self).spec_items().push(
                PoolItem { client, last_used: now, usage_count: 0, is_broken: false },
            ),
            !kept ==> final(self).spec_items() == old(self).spec_items(),
            final(self).min_connections == old(self).min_connections,
            final(self).max_connections == old(self).max_connections,
    {
        if self.active > 0 {
            self.active = self.active - 1;
        }
        if !is_broken && self.items.len() < self.min_connections {
            self.items.push_back(PoolItem { client, last_used: now, usage_count: 0, is_broken: false });
            true
        } else {
            false
        }
    }

    /// Adds a fresh connection at time `now` when the pool holds fewer than
    /// `max_connections`. Says whether it was added.
    pub fn add_connection_to_pool(&mut self, client: C, now: u64) -> (added: bool)
        ensures
            added == (old(self).spec_items().len() < old(self).max_connections),
            added ==> final(self).spec_items() == old(self).spec_items().push(
                PoolItem { client, last_used: now, usage_count: 0, is_broken: false },
            ),
            !added ==> final(self).spec_items() == old(self).spec_items(),
            final(self).spec_active() == old(self).spec_active(),
            final(self).min_connections == old(self).min_connections,
            final(self).max_connections == old(self).max_connections,
    {
        if self.items.len() < self.max_connections {
            self.items.push_back(PoolItem { client, last_used: now, usage_count: 0, is_broken: false });
            true
        } else {
            false
        }
    }

    /// Number of idle connections in the pool.
    pub fn pool_size(&self) -> (n: usize)
        ensures
            n == self.spec_items().len(),
    {
        self.items.len()
    }

    /// Number of connections handed out.
    pub fn active_count(&self) -> (n: usize)
        ensures
            n == self.spec_active(),
    {
        self.active
    }

    /// Idle and handed-out counts.
    pub fn get_pool_stats(&self) -> (r: (usize, usize))
        ensures
            r == (self.spec_items().len() as usize, self.spec_active()),
    {
        (self.items.len(), self.active)
    }

    /// Drops the idle connections unused for more than `max_idle` ms at time
    /// `now`, keeping the others in order. Says how many were dropped.
    pub fn cleanup_inactive_connections(&mut self, now: u64, max_idle: u64) -> (removed: usize)
        ensures
            final(self).spec_items() == old(self).spec_items().filter(
                |it: PoolItem<C>| spec_elapsed(it.last_used, now) <= max_idle,
            ),
            removed == old(self).spec_items().len() - final(self).spec_items().len(),
            final(self).spec_active() == old(self).spec_active(),
            final(self).min_connections == old(self).min_connections,
            final(self).max_connections == old(self).max_connections,
    {
        let ghost orig = self.items@;
        let ghost keep = |it: PoolItem<C>| spec_elapsed(it.last_used, now) <= max_idle;
        let n = self.items.len();
        let mut kept: std::collections::VecDeque<PoolItem<C>> = std::collections::VecDeque::new();
        let mut i: usize = 0;
        while i < n
            invariant
                n == orig.len(),
                i <= n,
                self.items@ == orig.skip(i as int),
                kept@ == orig.take(i as int).filter(keep),
                keep == (|it: PoolItem<C>| spec_elapsed(it.last_used, now) <= max_idle),
                self.active == old(self).active,
                self.min_connections == old(self).min_connections,
                self.max_connections == old(self).max_connections,
            decreases n - i,
        {
            let ghost before = self.items@;
            match self.items.pop_front() {
                Some(it) => {
                    let ghost cur = orig[i as int];
                    assert(it == cur);
                    let elapsed: u64 = if now > it.last_used { now - it.last_used } else { 0 };
                    let keep_it = elapsed <= max_idle;
                    assert(elapsed == spec_elapsed(cur.last_used, now));
                    assert(keep(cur) == (spec_elapsed(cur.last_used, now) <= max_idle));
                    assert(keep_it == keep(cur));
                    let ghost kept_before = kept@;
                    if keep_it {
                        kept.push_back(it);
                    }
                    proof {
                        let t1 = orig.take(i + 1);
                        assert(t1.drop_last() =~= orig.take(i as int));
                        assert(t1.last() == cur);
                        reveal_with_fuel(Seq::<_>::filter, 1);
                        assert(t1.filter(keep) == if keep(cur) { orig.take(i as int).filter(keep).push(cur) } else { orig.take(i as int).filter(keep) });
                        assert(kept@ =~= t1.filter(keep));
                    }
                    assert(self.items@ =~= orig.skip(i + 1));
                    i = i + 1;
                },
                None => {
                    assert(false);
                    i = i + 1;
                },
            }
        }
        assert(orig.take(n as int) =~= orig);
        let removed = n - kept.len();
        self.items = kept;
        removed
    }
}


/// What `execute_with_connection` does after its `attempts`-th failed attempt.
#[derive(Debug)]
pub struct ExecuteStep {
    /// Counter key the error is counted under.
    pub counter: String,
    /// Whether the connection used goes back as broken.
    pub mark_broken: bool,
    /// Whether the circuit breaker records a failure.
    pub record_failure: bool,
    /// `None`: give up with the error; `Some(ms)`: retry after that delay.
    pub retry_after_ms: Option<u64>,
}

/// The decision after a failed attempt of an operation run through the pool:
/// errors not worth retrying end at once and count against the breaker;
/// otherwise the connection is marked broken, and after `MAX_ATTEMPTS`
/// attempts the breaker records a failure and the error is returned, before
/// that the operation is retried after an exponential delay.
pub fn plan_execute_retry(error: &PaintboardError, attempts: u32) -> (s: ExecuteStep)
    requires
        1 <= attempts,
    ensures
        s.counter@ == spec_retry_key(*error),
        !spec_should_retry(*error) ==> !s.mark_broken && s.record_failure && s.retry_after_ms is None,
        spec_should_retry(*error) && attempts >= MAX_ATTEMPTS ==> s.mark_broken && s.record_failure && s.retry_after_ms is None,
        spec_should_retry(*error) && attempts < MAX_ATTEMPTS ==> s.mark_broken && !s.record_failure
            && s.retry_after_ms == Some(spec_retry_delay(attempts) as u64),
{
    let (retry, counter) = should_retry_on_error(error);
    if !retry {
        return ExecuteStep { counter, mark_broken: false, record_failure: true, retry_after_ms: None };
    }
    if attempts >= MAX_ATTEMPTS {
        return ExecuteStep { counter, mark_broken: true, record_failure: true, retry_after_ms: None };
    }
    proof {
        vstd::arithmetic::power2::lemma2_to64();
    }
    let delay: u64 = if attempts == 1 { 200 } else { 400 };
    ExecuteStep { counter, mark_broken: true, record_failure: false, retry_after_ms: Some(delay) }
}

/// Whether an error is network-like: the connection failed, closed or did
/// not answer in time.
pub open spec fn spec_network_like(e: PaintboardError) -> bool {
    e is Network || e is WebSocket || e is ConnectionClosed || e is Timeout || e is ResponseChannelClosed
}

/// The pooled client retries every error but auth errors and HTTP client
/// errors (4xx) while attempts remain, after 100 ms * 2^attempts (200 ms,
/// then 400 ms); a network-like error is counted as "network", drops the
/// connection and is retried.
pub proof fn law_retry_plan(e: PaintboardError, attempts: u32)
    requires
        1 <= attempts,
    ensures
        spec_pool_error_class(e).2 <==> (e is Auth || (e matches PaintboardError::Http(s) && 400 <= s < 500)),
        spec_network_like(e) ==> spec_pool_error_class(e) == ("network"@, true, false),
        spec_retry_delay(attempts) == 100 * vstd::arithmetic::power2::pow2(attempts as nat),
        attempts == 1 ==> spec_retry_delay(attempts) == 200,
        attempts == 2 ==> spec_retry_delay(attempts) == 400,
        MAX_ATTEMPTS == 3,
{
    vstd::arithmetic::power2::lemma2_to64();
}

/// An error counted as "network" or "transient" adds one to the network
/// errors and changes nothing else; so do the counter keys the pooled
/// client gives network-like errors.
pub proof fn law_network_errors_counted_as_network(m: PoolMetrics, e: PaintboardError)
    ensures
        spec_apply_error_type(m, "network"@) == (PoolMetrics { network_errors: (m.network_errors + 1) as u64, ..m }),
        spec_apply_error_type(m, "transient"@) == (PoolMetrics { network_errors: (m.network_errors + 1) as u64, ..m }),
        spec_network_like(e) ==> spec_apply_error_type(m, spec_pool_error_class(e).0)
            == (PoolMetrics { network_errors: (m.network_errors + 1) as u64, ..m }),
        spec_network_like(e) ==> spec_apply_error_type(m, spec_retry_key(e))
            == (PoolMetrics { network_errors: (m.network_errors + 1) as u64, ..m }),
{
}

} // verus!
