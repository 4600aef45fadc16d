//! Reconnect supervisor: the delay between two attempts at a gateway session.
use vstd::arithmetic::power::lemma_pow0;
use vstd::arithmetic::power2::{lemma_pow2_pos, lemma_pow2_unfold, pow2};
use vstd::prelude::*;

verus! {

/// Shortest delay between two attempts, in milliseconds.
pub const FLOOR_MS: u64 = 1000;

/// Largest delay after an attempt that ended in a transport error.
pub const ERROR_CEILING_MS: u64 = 300_000;

/// Largest delay after an attempt that the server closed cleanly.
pub const CLEAN_CEILING_MS: u64 = 60_000;

/// Uptime from which a cleanly closed session counts as stable.
pub const STABILITY_THRESHOLD_MS: u64 = 300_000;

/// How one session attempt ended.
#[derive(Clone, Copy, Debug, PartialEq, Eq, Structural)]
pub enum Termination {
    /// The server sent a close frame.
    Clean,
    /// Connect, read or write failed, or the stream ended without a close frame.
    Error,
}

pub open spec fn min_int(a: int, b: int) -> int {
    if a <= b { a } else { b }
}

/// The delay to use after `delay`, when the attempt just slept for ended in `t`.
pub open spec fn next_delay(delay: int, t: Termination) -> int {
    match t {
        Termination::Clean => min_int(delay * 2, CLEAN_CEILING_MS as int),
        Termination::Error => min_int(delay * 2, ERROR_CEILING_MS as int),
    }
}

/// The delay slept after an attempt that ended in `t` with the given uptime.
pub open spec fn sleep_for(delay: int, t: Termination, uptime_ms: int) -> int {
    if t == Termination::Clean && uptime_ms >= STABILITY_THRESHOLD_MS {
        FLOOR_MS as int
    } else {
        delay
    }
}

/// The backoff state that the supervisor keeps across all its attempts.
pub struct Backoff {
    pub delay_ms: u64,
}

impl Backoff {
    pub open spec fn wf(&self) -> bool {
        FLOOR_MS <= self.delay_ms <= ERROR_CEILING_MS
    }

    /// A fresh backoff: the first retry waits the floor delay.
    pub fn new() -> (r: Backoff)
        ensures
            r.delay_ms == FLOOR_MS,
            r.wf(),
    {
        Backoff { delay_ms: FLOOR_MS }
    }

    /// Records how an attempt ended and returns how long to sleep before the next one.
    pub fn after_attempt(&mut self, t: Termination, uptime_ms: u64) -> (sleep_ms: u64)
        requires
            old(self).wf(),
        ensures
            final(self).wf(),
            sleep_ms as int == sleep_for(old(self).delay_ms as int, t, uptime_ms as int),
            final(self).delay_ms as int == next_delay(sleep_ms as int, t),
    {
        let sleep_ms: u64 = if t == Termination::Clean && uptime_ms >= STABILITY_THRESHOLD_MS {
            FLOOR_MS
        } else {
            self.delay_ms
        };
        let doubled: u64 = sleep_ms * 2;
        let ceiling: u64 = match t {
            Termination::Clean => CLEAN_CEILING_MS,
            Termination::Error => ERROR_CEILING_MS,
        };
        self.delay_ms = if doubled <= ceiling { doubled } else { ceiling };
        sleep_ms
    }
}

/// The delay after `n` consecutive error terminations, starting from `delay`.
pub open spec fn after_errors(delay: int, n: nat) -> int
    decreases n,
{
    if n == 0 {
        delay
    } else {
        next_delay(after_errors(delay, (n - 1) as nat), Termination::Error)
    }
}

/// From any delay `d`, consecutive error terminations double the delay
/// until it reaches the error ceiling, where it stays: the `i`-th sleep is
/// `min(d * 2^i, 300 s)` (from 1 s: 1, 2, 4, 8, 16, 32 s, ...).
pub proof fn lemma_error_backoff_doubles(d: int, n: nat)
    requires
        FLOOR_MS <= d <= ERROR_CEILING_MS,
    ensures
        after_errors(d, n) == min_int(d * pow2(n), ERROR_CEILING_MS as int),
        after_errors(d, n) == ERROR_CEILING_MS ==> after_errors(d, n + 1) == ERROR_CEILING_MS,
    decreases n,
{
    if n == 0 {
        lemma_pow0(2);
        assert(d * pow2(n) == d) by (nonlinear_arith)
            requires
                pow2(n) == 1,
        ;
    } else {
        lemma_error_backoff_doubles(d, (n - 1) as nat);
        lemma_pow2_unfold(n);
        lemma_pow2_pos((n - 1) as nat);
        let p = pow2((n - 1) as nat);
        assert(d * pow2(n) == 2 * (d * p)) by (nonlinear_arith)
            requires
                pow2(n) == 2 * p,
        ;
        assert(after_errors(d, n) == next_delay(after_errors(d, (n - 1) as nat), Termination::Error));
        let dp = d * p;
        if dp <= ERROR_CEILING_MS {
            assert(after_errors(d, (n - 1) as nat) == dp);
            assert(after_errors(d, n) == min_int(2 * dp, ERROR_CEILING_MS as int));
        } else {
            assert(after_errors(d, (n - 1) as nat) == ERROR_CEILING_MS);
            assert(after_errors(d, n) == ERROR_CEILING_MS);
        }
    }
}

/// Whatever the delay within its bounds, error terminations never lead to a
/// sleep or a delay above the error ceiling, nor below the floor, and each
/// one leaves the delay at least as long as it was.
pub proof fn lemma_error_backoff_bounded(delay: int, n: nat)
    requires
        FLOOR_MS <= delay <= ERROR_CEILING_MS,
    ensures
        FLOOR_MS <= after_errors(delay, n) <= ERROR_CEILING_MS,
        after_errors(delay, n) <= after_errors(delay, n + 1),
    decreases n,
{
    if n > 0 {
        lemma_error_backoff_bounded(delay, (n - 1) as nat);
    }
}

/// A clean termination after a stable session sleeps the floor delay and
/// then waits twice that; after a shorter session the delay is kept for the
/// sleep and then doubled up to the clean ceiling.
pub proof fn lemma_clean_backoff(delay: int, uptime_ms: int)
    ensures
        uptime_ms >= STABILITY_THRESHOLD_MS ==> sleep_for(delay, Termination::Clean, uptime_ms) == FLOOR_MS
            && next_delay(FLOOR_MS as int, Termination::Clean) == 2 * FLOOR_MS,
        uptime_ms < STABILITY_THRESHOLD_MS ==> sleep_for(delay, Termination::Clean, uptime_ms) == delay
            && next_delay(delay, Termination::Clean) == min_int(delay * 2, CLEAN_CEILING_MS as int),
{
}

} // verus!
