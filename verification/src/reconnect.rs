//! The reconnect controller: a pluggable delay policy, with a default
//! doubling-with-cap strategy. `reset` is called on a successful connection;
//! `next_delay` is called before each reconnect attempt and returns the
//! current delay before doubling it, so the first delay after a reset equals
//! the configured minimum.

use vstd::prelude::*;

verus! {

/// Controls how the channel retries failed connection attempts. Delays are
/// in milliseconds.
pub trait ReconnectStrategy {
    /// The delay the next attempt will wait.
    spec fn spec_current_delay(&self) -> u64;

    /// The delay the strategy starts from after a reset.
    spec fn spec_reset_delay(&self) -> u64;

    /// Reset the internal state; called when a connection is successful.
    fn reset(&mut self)
        ensures
            final(self).spec_current_delay() == old(self).spec_reset_delay(),
            final(self).spec_reset_delay() == old(self).spec_reset_delay(),
    ;

    /// The delay to wait before making another connection attempt.
    fn next_delay(&mut self) -> (r: u64)
        ensures
            r == old(self).spec_current_delay(),
            final(self).spec_reset_delay() == old(self).spec_reset_delay(),
    ;
}

/// One doubling step: twice the current delay, capped at the maximum.
pub open spec fn spec_doubling_step(current: u64, max: u64) -> u64 {
    if 2 * current <= max {
        (2 * current) as u64
    } else {
        max
    }
}

/// The delay the doubling strategy returns for the `k`-th attempt after a
/// reset.
pub open spec fn spec_nth_delay(min: u64, max: u64, k: nat) -> u64
    decreases k,
{
    if k == 0 {
        min
    } else {
        spec_doubling_step(spec_nth_delay(min, max, (k - 1) as nat), max)
    }
}

/// Two to the `k`-th power.
pub open spec fn spec_pow2(k: nat) -> int
    decreases k,
{
    if k == 0 {
        1
    } else {
        2 * spec_pow2((k - 1) as nat)
    }
}

/// The delays of the doubling strategy form the sequence
/// `min, 2*min, 4*min, ..., max, max, ...`: the `k`-th delay after a reset is
/// `2^k * min` until that exceeds the cap, and the cap from then on.
pub proof fn lemma_doubling_delay_sequence(min: u64, max: u64, k: nat)
    requires
        min <= max,
    ensures
        spec_nth_delay(min, max, k) == if spec_pow2(k) * min <= max {
            spec_pow2(k) * min
        } else {
            max as int
        },
    decreases k,
{
    if k > 0 {
        lemma_doubling_delay_sequence(min, max, (k - 1) as nat);
        let prev = spec_nth_delay(min, max, (k - 1) as nat);
        let p = spec_pow2((k - 1) as nat);
        assert(p >= 1) by {
            lemma_pow2_positive((k - 1) as nat);
        }
        let q = spec_pow2(k);
        assert(q == 2 * p);
        if p * min <= max {
            assert(prev == p * min);
            assert(2 * (p * min) == q * min) by (nonlinear_arith)
                requires
                    q == 2 * p,
            ;
        } else {
            assert(prev == max);
            assert(q * min >= p * min) by (nonlinear_arith)
                requires
                    p >= 1 && min >= 0 && q == 2 * p,
            ;
            if max > 0 {
                assert(2 * max > max);
            }
        }
    }
}

/// Powers of two are positive.
proof fn lemma_pow2_positive(k: nat)
    ensures
        spec_pow2(k) >= 1,
    decreases k,
{
    if k > 0 {
        lemma_pow2_positive((k - 1) as nat);
    }
}

/// The default strategy: doubling from a minimum up to a cap.
pub struct Doubling {
    min: u64,
    max: u64,
    current: u64,
}

impl Doubling {
    /// The configured first delay after a reset.
    pub closed spec fn spec_min(&self) -> u64 {
        self.min
    }

    /// The configured cap on the delay.
    pub closed spec fn spec_max(&self) -> u64 {
        self.max
    }

    /// Create a doubling strategy; the first delay equals the minimum.
    pub fn create(min: u64, max: u64) -> (r: Self)
        ensures
            r.spec_min() == min,
            r.spec_max() == max,
            r.spec_current_delay() == min,
    {
        Doubling { min, max, current: min }
    }
}

impl ReconnectStrategy for Doubling {
    closed spec fn spec_current_delay(&self) -> u64 {
        self.current
    }

    closed spec fn spec_reset_delay(&self) -> u64 {
        self.min
    }

    fn reset(&mut self)
        ensures
            final(self).spec_current_delay() == old(self).spec_min(),
            final(self).spec_min() == old(self).spec_min(),
            final(self).spec_max() == old(self).spec_max(),
    {
        self.current = self.min;
    }

    fn next_delay(&mut self) -> (r: u64)
        ensures
            final(self).spec_current_delay() == spec_doubling_step(
                old(self).spec_current_delay(),
                old(self).spec_max(),
            ),
            final(self).spec_min() == old(self).spec_min(),
            final(self).spec_max() == old(self).spec_max(),
    {
        let ret = self.current;
        self.current = if self.current <= self.max / 2 {
            2 * self.current
        } else {
            self.max
        };
        ret
    }
}

/// The default reconnect strategy: doubling from 100 ms up to 5 s.
pub fn default_reconnect_strategy() -> (r: Doubling)
    ensures
        r.spec_min() == 100,
        r.spec_max() == 5000,
        r.spec_current_delay() == 100,
{
    doubling_reconnect_strategy(100, 5000)
}

/// A reconnect strategy that doubles on failure up to a maximum value.
pub fn doubling_reconnect_strategy(min: u64, max: u64) -> (r: Doubling)
    ensures
        r.spec_min() == min,
        r.spec_max() == max,
        r.spec_current_delay() == min,
{
    Doubling::create(min, max)
}

} // verus!
