//! Exponential connect backoff.
//!
//! After a failed connect the client waits before retrying; the wait starts
//! at a configured minimum, doubles on every further failure, and is capped
//! at a configured maximum. A successful connect re-arms the sequence. The
//! base delays are deterministic; a caller may spread them with an
//! externally drawn jitter, which is handed in as a plain value.

use vstd::prelude::*;

verus! {

/// The backoff parameters: minimum and maximum delay in milliseconds.
#[derive(Clone, Copy, Debug, PartialEq, Eq, Structural)]
pub struct ExponentialBackoff {
    pub min_ms: u64,
    pub max_ms: u64,
}

impl ExponentialBackoff {
    /// Well-formed: a positive minimum no greater than the maximum.
    pub open spec fn wf(self) -> bool {
        0 < self.min_ms <= self.max_ms
    }

    /// The base delay before retry number `attempt`: the minimum, doubled
    /// `attempt` times, capped at the maximum.
    pub open spec fn spec_delay(self, attempt: nat) -> u64
        decreases attempt,
    {
        if attempt == 0 {
            self.min_ms
        } else {
            let prev = self.spec_delay((attempt - 1) as nat);
            if 2 * prev >= self.max_ms {
                self.max_ms
            } else {
                (2 * prev) as u64
            }
        }
    }

    /// Every base delay lies between the minimum and the maximum.
    pub proof fn lemma_delay_bounds(self, attempt: nat)
        requires
            self.wf(),
        ensures
            self.min_ms <= self.spec_delay(attempt) <= self.max_ms,
        decreases attempt,
    {
        if attempt > 0 {
            self.lemma_delay_bounds((attempt - 1) as nat);
        }
    }

    /// The delay sequence is non-decreasing.
    pub proof fn lemma_delay_monotone(self, i: nat, j: nat)
        requires
            self.wf(),
            i <= j,
        ensures
            self.spec_delay(i) <= self.spec_delay(j),
        decreases j,
    {
        if i < j {
            self.lemma_delay_monotone(i, (j - 1) as nat);
            self.lemma_delay_bounds((j - 1) as nat);
        }
    }

    /// Once a delay reaches the maximum, every later delay is exactly the
    /// maximum: the sequence is stationary from there on.
    pub proof fn lemma_delay_stationary(self, i: nat, j: nat)
        requires
            self.wf(),
            i <= j,
            self.spec_delay(i) == self.max_ms,
        ensures
            self.spec_delay(j) == self.max_ms,
        decreases j,
    {
        if i < j {
            self.lemma_delay_stationary(i, (j - 1) as nat);
        }
    }

    /// The base delay before retry number `attempt`.
    pub fn delay_ms(&self, attempt: u32) -> (d: u64)
        requires
            self.wf(),
        ensures
            d == self.spec_delay(attempt as nat),
    {
        let mut d: u64 = self.min_ms;
        let mut k: u32 = 0;
        while k < attempt
            invariant
                k <= attempt,
                self.wf(),
                d == self.spec_delay(k as nat),
                d <= self.max_ms,
            decreases attempt - k,
        {
            proof {
                self.lemma_delay_bounds(k as nat);
            }
            if d >= self.max_ms - d {
                d = self.max_ms;
            } else {
                d = d + d;
            }
            k = k + 1;
        }
        d
    }
}

/// Adds an externally drawn jitter to a base delay, saturating.
pub fn with_jitter(base: u64, jitter: u64) -> (d: u64)
    ensures
        base + jitter <= u64::MAX ==> d == base + jitter,
        base + jitter > u64::MAX ==> d == u64::MAX,
{
    if jitter <= u64::MAX - base {
        base + jitter
    } else {
        u64::MAX
    }
}

/// The reconnect state of one endpoint: how many consecutive connect
/// failures preceded now.
#[derive(Clone, Copy, Debug, PartialEq, Eq, Structural)]
pub struct ReconnectState {
    pub failures: u32,
}

impl ReconnectState {
    /// A fresh endpoint: no failures yet.
    pub fn new() -> (r: ReconnectState)
        ensures
            r.failures == 0,
    {
        ReconnectState { failures: 0 }
    }

    /// Records a connect failure and returns the delay to wait before the
    /// next attempt.
    pub fn on_failure(&mut self, backoff: &ExponentialBackoff) -> (d: u64)
        requires
            backoff.wf(),
        ensures
            final(self).failures == spec_sat_inc32(old(self).failures),
            d == backoff.spec_delay(old(self).failures as nat),
    {
        let d = backoff.delay_ms(self.failures);
        self.failures = if self.failures == u32::MAX {
            self.failures
        } else {
            self.failures + 1
        };
        d
    }

    /// Records a successful connect: the backoff is re-armed from the
    /// minimum.
    pub fn on_success(&mut self)
        ensures
            final(self).failures == 0,
    {
        self.failures = 0;
    }
}

/// Saturating increment of a 32-bit counter.
pub open spec fn spec_sat_inc32(x: u32) -> u32 {
    if x == u32::MAX {
        x
    } else {
        (x + 1) as u32
    }
}

} // verus!
