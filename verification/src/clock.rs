//! A monotonic millisecond clock computed from a lower-resolution hardware
//! timer.
//!
//! The timer is configured so that its compare interrupt fires at a fixed
//! period; every overflow adds a precomputed whole-millisecond increment to a
//! single counter.  This module holds the counter and its three operations —
//! advance on overflow, read, reset — so that each carries a contract.  The
//! caller owns the hardware side: configuring the timer, arming the
//! interrupt, and entering a critical section (interrupts disabled) around
//! every access so that the multi-byte counter is never read or written torn.

use vstd::prelude::*;

verus! {

/// Divider applied to the CPU clock before it feeds the timer.
pub const PRESCALER: u64 = 64;

/// Timer compare value: the count at which the interrupt fires and the timer
/// restarts from zero.
pub const TIMER_COUNTS: u64 = 250;

/// The number of milliseconds that pass between timer overflows, derived from
/// the prescaler, the compare value and a 16 MHz CPU clock (16000 kHz).
pub const MILLIS_INCREMENT: u64 = PRESCALER * TIMER_COUNTS / 16000;

/// The millisecond counter.  Only the timer-overflow handler advances it and
/// only an explicit reset zeroes it; every other access is a read.
pub struct MillisClock {
    counter: u64,
}

impl MillisClock {
    /// The counter value, for contracts.
    pub closed spec fn spec_millis(&self) -> u64 {
        self.counter
    }

    /// Starts the clock at zero.  Called once, before the timer interrupt is
    /// armed.
    pub fn millis_init() -> (clock: MillisClock)
        ensures
            clock.spec_millis() == 0,
    {
        MillisClock { counter: 0 }
    }

    /// Advances the counter by the fixed increment; the body of the
    /// timer-overflow interrupt handler.
    pub fn on_timer_overflow(&mut self)
        requires
            old(self).spec_millis() + MILLIS_INCREMENT <= u64::MAX,
        ensures
            final(self).spec_millis() == old(self).spec_millis() + MILLIS_INCREMENT,
    {
        self.counter = self.counter + MILLIS_INCREMENT;
    }

    /// Milliseconds since the clock was started or last reset.
    pub fn millis(&self) -> (ms: u64)
        ensures
            ms == self.spec_millis(),
    {
        self.counter
    }

    /// Sets the counter back to zero.
    pub fn reset_millis(&mut self)
        ensures
            final(self).spec_millis() == 0,
    {
        self.counter = 0;
    }
}

/// The counter value after `n` timer overflows from a fresh clock, stepping
/// exactly as `MillisClock::on_timer_overflow` does.
pub open spec fn counter_after_overflows(n: nat) -> int
    decreases n,
{
    if n == 0 {
        0
    } else {
        counter_after_overflows((n - 1) as nat) + MILLIS_INCREMENT
    }
}

/// After exactly `n` timer overflows the clock reads `n` times the fixed
/// millisecond increment.
pub proof fn lemma_counter_after_overflows(n: nat)
    ensures
        counter_after_overflows(n) == n * MILLIS_INCREMENT,
    decreases n,
{
    if n > 0 {
        lemma_counter_after_overflows((n - 1) as nat);
        let k: int = n as int;
        let m: int = MILLIS_INCREMENT as int;
        assert(k * m == (k - 1) * m + m) by (nonlinear_arith);
        assert((n - 1) as nat * MILLIS_INCREMENT == (k - 1) * m);
        assert(n * MILLIS_INCREMENT == k * m);
    } else {
        assert(n * MILLIS_INCREMENT == 0) by (nonlinear_arith)
            requires n == 0;
    }
}

} // verus!
