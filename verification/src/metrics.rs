//! Request and refusal counters.
//!
//! The pipeline records one counter per response status code, labeled
//! `direction=inbound` by [`crate::text::trace_labels`], and one per kind of
//! connection refusal. Counters saturate instead of wrapping.

use vstd::prelude::*;
use crate::dispatch::RefusalReason;

verus! {

/// One more, saturating.
pub open spec fn spec_sat_inc64(x: u64) -> u64 {
    if x == u64::MAX {
        x
    } else {
        (x + 1) as u64
    }
}

/// How many status codes have a counter: every code below 600.
pub const STATUS_SPACE: usize = 600;

/// Per-status response counters.
#[derive(Debug)]
pub struct StatusCounters {
    counts: Vec<u64>,
}

impl StatusCounters {
    /// The counter of one status code.
    pub closed spec fn spec_count(self, code: u16) -> u64 {
        self.counts@[code as int]
    }

    /// Well-formed: one counter per code in the status space.
    pub closed spec fn wf(self) -> bool {
        self.counts@.len() == STATUS_SPACE
    }

    /// Fresh counters: every code at zero.
    pub fn new() -> (m: StatusCounters)
        ensures
            m.wf(),
            forall|c: u16| c < STATUS_SPACE ==> m.spec_count(c) == 0,
    {
        let mut counts: Vec<u64> = Vec::new();
        let mut i: usize = 0;
        while i < STATUS_SPACE
            invariant
                i <= STATUS_SPACE,
                counts@.len() == i,
                forall|j: int| 0 <= j < i ==> counts@[j] == 0,
            decreases STATUS_SPACE - i,
        {
            counts.push(0);
            i = i + 1;
        }
        StatusCounters { counts }
    }

    /// Records one response with this status: its counter grows by one and
    /// no other changes.
    pub fn record(&mut self, code: u16)
        requires
            old(self).wf(),
            code < STATUS_SPACE,
        ensures
            final(self).wf(),
            final(self).spec_count(code) == spec_sat_inc64(old(self).spec_count(code)),
            forall|c: u16|
                c < STATUS_SPACE && c != code ==> final(self).spec_count(c) == old(
                    self,
                ).spec_count(c),
    {
        let prev = self.counts[code as usize];
        let next: u64 = if prev == u64::MAX {
            prev
        } else {
            prev + 1
        };
        self.counts.set(code as usize, next);
    }

    /// Reads the counter of one status code.
    pub fn get(&self, code: u16) -> (n: u64)
        requires
            self.wf(),
            code < STATUS_SPACE,
        ensures
            n == self.spec_count(code),
    {
        self.counts[code as usize]
    }
}

/// Per-kind refusal counters.
#[derive(Clone, Copy, Debug, PartialEq, Eq, Structural)]
pub struct RefusalCounters {
    pub detect_timeout: u64,
    pub non_opaque: u64,
    pub identity_required: u64,
}

impl RefusalCounters {
    /// Fresh counters: every kind at zero.
    pub fn new() -> (m: RefusalCounters)
        ensures
            m == (RefusalCounters { detect_timeout: 0, non_opaque: 0, identity_required: 0 }),
    {
        RefusalCounters { detect_timeout: 0, non_opaque: 0, identity_required: 0 }
    }

    /// Records one refusal: the refused kind's counter grows by one and no
    /// other changes.
    pub fn record(&mut self, reason: RefusalReason)
        ensures
            reason is DetectTimeout ==> *final(self) == (RefusalCounters {
                detect_timeout: spec_sat_inc64(old(self).detect_timeout),
                ..*old(self)
            }),
            reason is NonOpaque ==> *final(self) == (RefusalCounters {
                non_opaque: spec_sat_inc64(old(self).non_opaque),
                ..*old(self)
            }),
            reason is IdentityRequired ==> *final(self) == (RefusalCounters {
                identity_required: spec_sat_inc64(old(self).identity_required),
                ..*old(self)
            }),
    {
        match reason {
            RefusalReason::DetectTimeout => {
                self.detect_timeout = if self.detect_timeout == u64::MAX {
                    self.detect_timeout
                } else {
                    self.detect_timeout + 1
                };
            },
            RefusalReason::NonOpaque => {
                self.non_opaque = if self.non_opaque == u64::MAX {
                    self.non_opaque
                } else {
                    self.non_opaque + 1
                };
            },
            RefusalReason::IdentityRequired => {
                self.identity_required = if self.identity_required == u64::MAX {
                    self.identity_required
                } else {
                    self.identity_required + 1
                };
            },
        }
    }
}

} // verus!
