use vstd::prelude::*;

verus! {

/// The delay after one backoff step: doubled, but never above `max`.
pub open spec fn spec_backoff_step(current: int, max: int) -> int {
    if 2 * current < max {
        2 * current
    } else {
        max
    }
}

/// The delay after `k` backoff steps from `initial`.
pub open spec fn spec_backoff(initial: int, max: int, k: nat) -> int
    decreases k,
{
    if k == 0 {
        initial
    } else {
        spec_backoff_step(spec_backoff(initial, max, (k - 1) as nat), max)
    }
}

/// Reconnection strategy: exponential backoff (delays in milliseconds) and a
/// switch that turns reconnection off.
#[derive(Debug)]
pub struct WsReconnectStrategy {
    should_reconnect: bool,
    current_delay: u64,
    max_delay: u64,
    initial_delay: u64,
}

impl WsReconnectStrategy {
    /// Whether reconnection is still allowed.
    pub closed spec fn spec_enabled(&self) -> bool {
        self.should_reconnect
    }

    /// The delay the next attempt will wait.
    pub closed spec fn spec_current(&self) -> u64 {
        self.current_delay
    }

    /// The cap of the backoff.
    pub closed spec fn spec_max(&self) -> u64 {
        self.max_delay
    }

    /// The delay that `reset` goes back to.
    pub closed spec fn spec_initial(&self) -> u64 {
        self.initial_delay
    }

    /// A strategy that starts at `initial_delay` and doubles up to `max_delay`.
    pub fn new(initial_delay: u64, max_delay: u64) -> (s: Self)
        ensures
            s.spec_enabled(),
            s.spec_current() == initial_delay,
            s.spec_max() == max_delay,
            s.spec_initial() == initial_delay,
    {
        WsReconnectStrategy { should_reconnect: true, current_delay: initial_delay, max_delay, initial_delay }
    }

    /// The default strategy: from 1 s (1000 ms) up to 60 s (60000 ms).
    pub fn default() -> (s: Self)
        ensures
            s.spec_enabled(),
            s.spec_current() == 1000,
            s.spec_max() == 60000,
            s.spec_initial() == 1000,
    {
        Self::new(1000, 60000)
    }

    /// Whether reconnection attempts are allowed.
    pub fn should_reconnect(&self) -> (b: bool)
        ensures
            b == self.spec_enabled(),
    {
        self.should_reconnect
    }

    /// Turns reconnection off for good.
    pub fn disable_reconnect(&mut self)
        ensures
            !final(self).spec_enabled(),
            final(self).spec_current() == old(self).spec_current(),
            final(self).spec_max() == old(self).spec_max(),
            final(self).spec_initial() == old(self).spec_initial(),
    {
        self.should_reconnect = false;
    }

    /// Hands out the current delay and doubles it for next time, capped at the maximum.
    pub fn next_delay(&mut self) -> (d: u64)
        ensures
            d == old(self).spec_current(),
            final(self).spec_current() == spec_backoff_step(old(self).spec_current() as int, old(self).spec_max() as int),
            final(self).spec_enabled() == old(self).spec_enabled(),
            final(self).spec_max() == old(self).spec_max(),
            final(self).spec_initial() == old(self).spec_initial(),
    {
        let next = self.current_delay;
        if self.current_delay > self.max_delay / 2 {
            self.current_delay = self.max_delay;
        } else if self.current_delay * 2 < self.max_delay {
            self.current_delay = self.current_delay * 2;
        } else {
            self.current_delay = self.max_delay;
        }
        next
    }

    /// Goes back to the initial delay.
    pub fn reset(&mut self)
        ensures
            final(self).spec_current() == old(self).spec_initial(),
            final(self).spec_enabled() == old(self).spec_enabled(),
            final(self).spec_max() == old(self).spec_max(),
            final(self).spec_initial() == old(self).spec_initial(),
    {
        self.current_delay = self.initial_delay;
    }

    /// The current delay, without advancing it.
    pub fn current_delay(&self) -> (d: u64)
        ensures
            d == self.spec_current(),
    {
        self.current_delay
    }
}

/// Reconnection manager around a strategy.
pub struct WsReconnectManager {
    strategy: WsReconnectStrategy,
}

impl WsReconnectManager {
    /// The strategy the manager drives.
    pub closed spec fn spec_strategy(&self) -> WsReconnectStrategy {
        self.strategy
    }

    /// A manager whose strategy goes from `initial_delay` up to `max_delay`.
    pub fn new(initial_delay: u64, max_delay: u64) -> (m: Self)
        ensures
            m.spec_strategy().spec_enabled(),
            m.spec_strategy().spec_current() == initial_delay,
            m.spec_strategy().spec_max() == max_delay,
            m.spec_strategy().spec_initial() == initial_delay,
    {
        WsReconnectManager { strategy: WsReconnectStrategy::new(initial_delay, max_delay) }
    }

    /// A manager with the default strategy (1 s up to 60 s).
    pub fn default() -> (m: Self)
        ensures
            m.spec_strategy().spec_enabled(),
            m.spec_strategy().spec_current() == 1000,
            m.spec_strategy().spec_max() == 60000,
            m.spec_strategy().spec_initial() == 1000,
    {
        WsReconnectManager { strategy: WsReconnectStrategy::default() }
    }

    /// Whether reconnection attempts are allowed.
    pub fn should_reconnect(&self) -> (b: bool)
        ensures
            b == self.spec_strategy().spec_enabled(),
    {
        self.strategy.should_reconnect()
    }

    /// Turns reconnection off for good.
    pub fn disable_reconnect(&mut self)
        ensures
            !final(self).spec_strategy().spec_enabled(),
            final(self).spec_strategy().spec_current() == old(self).spec_strategy().spec_current(),
            final(self).spec_strategy().spec_max() == old(self).spec_strategy().spec_max(),
            final(self).spec_strategy().spec_initial() == old(self).spec_strategy().spec_initial(),
    {
        self.strategy.disable_reconnect()
    }

    /// Hands out the current delay and advances the backoff.
    pub fn next_delay(&mut self) -> (d: u64)
        ensures
            d == old(self).spec_strategy().spec_current(),
            final(self).spec_strategy().spec_current() == spec_backoff_step(
                old(self).spec_strategy().spec_current() as int,
                old(self).spec_strategy().spec_max() as int,
            ),
            final(self).spec_strategy().spec_enabled() == old(self).spec_strategy().spec_enabled(),
            final(self).spec_strategy().spec_max() == old(self).spec_strategy().spec_max(),
            final(self).spec_strategy().spec_initial() == old(self).spec_strategy().spec_initial(),
    {
        self.strategy.next_delay()
    }

    /// Goes back to the initial delay.
    pub fn reset(&mut self)
        ensures
            final(self).spec_strategy().spec_current() == old(self).spec_strategy().spec_initial(),
            final(self).spec_strategy().spec_enabled() == old(self).spec_strategy().spec_enabled(),
            final(self).spec_strategy().spec_max() == old(self).spec_strategy().spec_max(),
            final(self).spec_strategy().spec_initial() == old(self).spec_strategy().spec_initial(),
    {
        self.strategy.reset()
    }

    /// The current delay, without advancing it.
    pub fn current_delay(&self) -> (d: u64)
        ensures
            d == self.spec_strategy().spec_current(),
    {
        self.strategy.current_delay()
    }
}

/// Closed form of the backoff: from an initial delay no larger than the cap,
/// the delay after `k` steps is `min(initial * 2^k, max)`.
pub proof fn law_backoff_closed_form(initial: nat, max: nat, k: nat)
    requires
        initial <= max,
    ensures
        spec_backoff(initial as int, max as int, k) == if initial * vstd::arithmetic::power2::pow2(k) < max {
            (initial * vstd::arithmetic::power2::pow2(k)) as int
        } else {
            max as int
        },
    decreases k,
{
    if k > 0 {
        law_backoff_closed_form(initial, max, (k - 1) as nat);
        let p = vstd::arithmetic::power2::pow2((k - 1) as nat);
        vstd::arithmetic::power2::lemma_pow2_unfold(k);
        assert(initial * (2 * p) == 2 * (initial * p)) by (nonlinear_arith);
    } else {
        vstd::arithmetic::power2::lemma2_to64();
        assert(initial * 1 == initial) by (nonlinear_arith);
    }
}

/// The backoff never goes above the cap once a step has been taken, and from
/// an initial delay within the cap it never decreases.
pub proof fn law_backoff_bounded_monotone(initial: int, max: int, k: nat)
    requires
        0 <= initial <= max,
    ensures
        spec_backoff(initial, max, k) <= max,
        spec_backoff(initial, max, k) <= spec_backoff(initial, max, k + 1),
    decreases k,
{
    if k > 0 {
        law_backoff_bounded_monotone(initial, max, (k - 1) as nat);
    }
}

} // verus!
