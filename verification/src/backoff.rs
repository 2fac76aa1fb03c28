//! Retry bookkeeping: the streak of consecutive failures and the delay it calls for.
//!
//! The delay before a reconnect attempt doubles with every failure in a row and
//! stops growing at `2^10` seconds. The streak itself keeps counting.

use vstd::arithmetic::power2::{lemma2_to64, lemma_pow2_unfold, pow2};
use vstd::prelude::*;

verus! {

/// The exponent at which the delay stops growing.
pub const MAX_BACKOFF_EXPONENT: u64 = 10;

/// The longest delay, in seconds: `2^MAX_BACKOFF_EXPONENT`.
pub const MAX_BACKOFF_SECS: u64 = 1024;

/// The exponent used after `failures` failures in a row.
pub open spec fn capped_exponent(failures: nat) -> nat {
    if failures <= 10 {
        failures
    } else {
        10
    }
}

/// The delay, in seconds, after `failures` failures in a row: `2^min(failures, 10)`.
pub open spec fn backoff_secs(failures: nat) -> nat {
    pow2(capped_exponent(failures))
}

/// The streak after one more failure. The counter stops at `u64::MAX`.
pub open spec fn bumped(failures: nat) -> nat {
    if failures < u64::MAX {
        failures + 1
    } else {
        failures
    }
}

/// The streak after `n` failures in a row, starting from `failures`.
pub open spec fn bumped_by(failures: nat, n: nat) -> nat
    decreases n,
{
    if n == 0 {
        failures
    } else {
        bumped(bumped_by(failures, (n - 1) as nat))
    }
}

/// The delay is never shorter than one second and never longer than `MAX_BACKOFF_SECS`.
pub proof fn lemma_backoff_bounds(failures: nat)
    ensures
        1 <= backoff_secs(failures) <= MAX_BACKOFF_SECS,
        failures >= 10 ==> backoff_secs(failures) == MAX_BACKOFF_SECS,
{
    lemma2_to64();
}

/// The delay never shrinks while the streak grows.
pub proof fn lemma_backoff_monotonic(fewer: nat, more: nat)
    requires
        fewer <= more,
    ensures
        backoff_secs(fewer) <= backoff_secs(more),
{
    lemma2_to64();
}

/// Counting `n` failures from a fresh streak gives `n`, as far as the counter reaches.
pub proof fn lemma_bumped_by_from_zero(n: nat)
    ensures
        bumped_by(0, n) == if n <= u64::MAX { n } else { u64::MAX as nat },
    decreases n,
{
    if n > 0 {
        lemma_bumped_by_from_zero((n - 1) as nat);
    }
}

/// After `n` failures in a row from a fresh streak the delay is `2^n` seconds for
/// `n <= 10`, and `2^10` seconds for every larger `n`.
pub proof fn lemma_delay_after_consecutive_failures(n: nat)
    ensures
        n <= 10 ==> backoff_secs(bumped_by(0, n)) == pow2(n),
        n > 10 ==> backoff_secs(bumped_by(0, n)) == pow2(10),
        pow2(10) == 1024,
{
    lemma_bumped_by_from_zero(n);
    lemma2_to64();
}

/// Computes `2^min(failures, 10)`.
pub fn backoff_delay(failures: u64) -> (secs: u64)
    ensures
        secs == backoff_secs(failures as nat),
        1 <= secs <= MAX_BACKOFF_SECS,
{
    let exponent: u64 = if failures <= MAX_BACKOFF_EXPONENT {
        failures
    } else {
        MAX_BACKOFF_EXPONENT
    };
    let mut secs: u64 = 1;
    let mut done: u64 = 0;
    proof {
        lemma2_to64();
    }
    while done < exponent
        invariant
            done <= exponent <= 10,
            secs == pow2(done as nat),
            secs <= pow2(10),
            pow2(10) == 1024,
        decreases exponent - done,
    {
        proof {
            lemma_pow2_unfold((done + 1) as nat);
            lemma_pow2_doubling_bound((done + 1) as nat);
        }
        secs = secs * 2;
        done = done + 1;
    }
    secs
}

proof fn lemma_pow2_doubling_bound(e: nat)
    requires
        e <= 10,
    ensures
        pow2(e) <= pow2(10),
{
    lemma2_to64();
}

/// The count of consecutive failures since the last clean event pull.
#[derive(Clone, Copy, Debug, PartialEq, Eq, Structural)]
pub struct RetryState {
    pub failures: u64,
}

impl RetryState {
    /// A fresh streak: no failure yet.
    pub fn new() -> (fresh: Self)
        ensures
            fresh.failures == 0,
    {
        RetryState { failures: 0 }
    }

    /// The streak after one more failure.
    pub open spec fn after_failure(self) -> Self {
        RetryState { failures: bumped(self.failures as nat) as u64 }
    }

    /// The delay, in seconds, that the current streak calls for.
    pub open spec fn delay(self) -> nat {
        backoff_secs(self.failures as nat)
    }

    /// Counts one more failure and returns the delay to wait before the next attempt.
    pub fn record_failure(&mut self) -> (secs: u64)
        ensures
            *final(self) == old(self).after_failure(),
            final(self).failures >= old(self).failures,
            secs == final(self).delay(),
    {
        self.failures = self.failures.saturating_add(1);
        backoff_delay(self.failures)
    }

    /// Ends the streak: a clean event pull was made.
    pub fn record_success(&mut self)
        ensures
            final(self).failures == 0,
    {
        self.failures = 0;
    }

    /// The delay, in seconds, that the current streak calls for.
    pub fn delay_secs(&self) -> (secs: u64)
        ensures
            secs == self.delay(),
    {
        backoff_delay(self.failures)
    }
}

} // verus!
