//! Drain coordination and admission control.
//!
//! A single producer signals shutdown; the transition from open to closing
//! is monotonic and observable by every pipeline stage. New requests are
//! admitted only while the token is open; responses carry retention handles,
//! and the coordinator counts the drain as complete only when the token is
//! closing and every retention handle has been released. Beside it stand the
//! two admission gates of the request path: a fail-fast gate that turns a
//! long-unready inner stack into immediate retriable failures, and a bounded
//! in-flight limit that backpressures callers instead of queueing without
//! bound.

use vstd::prelude::*;

verus! {

/// The drain token: whether shutdown was signalled, and how many retention
/// handles are outstanding.
#[derive(Clone, Copy, Debug, PartialEq, Eq, Structural)]
pub struct DrainState {
    pub closing: bool,
    pub retained: u64,
}

/// One operation on the drain token.
#[derive(Clone, Copy, Debug, PartialEq, Eq, Structural)]
pub enum DrainOp {
    /// The producer signals shutdown.
    Signal,
    /// A response clones a retention handle.
    Retain,
    /// A retention handle is dropped.
    ReleaseRetained,
}

/// The state after one operation.
pub open spec fn spec_drain_step(d: DrainState, op: DrainOp) -> DrainState {
    match op {
        DrainOp::Signal => DrainState { closing: true, retained: d.retained },
        DrainOp::Retain => DrainState {
            closing: d.closing,
            retained: if d.retained == u64::MAX {
                d.retained
            } else {
                (d.retained + 1) as u64
            },
        },
        DrainOp::ReleaseRetained => DrainState {
            closing: d.closing,
            retained: if d.retained == 0 {
                0
            } else {
                (d.retained - 1) as u64
            },
        },
    }
}

/// The state after a sequence of operations, applied in order.
pub open spec fn spec_drain_run(d: DrainState, ops: Seq<DrainOp>) -> DrainState
    decreases ops.len(),
{
    if ops.len() == 0 {
        d
    } else {
        spec_drain_run(spec_drain_step(d, ops[0]), ops.drop_first())
    }
}

/// Closing is monotonic: once shutdown was signalled, no sequence of
/// operations reopens the token, and no new request is admitted again.
pub proof fn lemma_drain_monotone(d: DrainState, ops: Seq<DrainOp>)
    requires
        d.closing,
    ensures
        spec_drain_run(d, ops).closing,
    decreases ops.len(),
{
    if ops.len() > 0 {
        lemma_drain_monotone(spec_drain_step(d, ops[0]), ops.drop_first());
    }
}

impl DrainState {
    /// A fresh token: open, nothing retained.
    pub fn new() -> (d: DrainState)
        ensures
            d == (DrainState { closing: false, retained: 0 }),
    {
        DrainState { closing: false, retained: 0 }
    }

    /// Signals shutdown. From here on no new request is admitted.
    pub fn signal(&mut self)
        ensures
            *final(self) == spec_drain_step(*old(self), DrainOp::Signal),
    {
        self.closing = true;
    }

    /// Whether a new request may enter: only while the token is open.
    pub fn accepts_new(&self) -> (r: bool)
        ensures
            r == !self.closing,
    {
        !self.closing
    }

    /// Clones a retention handle into a response.
    pub fn retain(&mut self)
        ensures
            *final(self) == spec_drain_step(*old(self), DrainOp::Retain),
    {
        self.retained = if self.retained == u64::MAX {
            self.retained
        } else {
            self.retained + 1
        };
    }

    /// Releases one retention handle.
    pub fn release_retained(&mut self)
        ensures
            *final(self) == spec_drain_step(*old(self), DrainOp::ReleaseRetained),
    {
        self.retained = if self.retained == 0 {
            0
        } else {
            self.retained - 1
        };
    }

    /// Whether the drain is complete: shutdown was signalled and every
    /// retention handle has been released.
    pub fn drained(&self) -> (r: bool)
        ensures
            r == (self.closing && self.retained == 0),
    {
        self.closing && self.retained == 0
    }
}

/// The state of the fail-fast gate in front of an inner stack.
#[derive(Clone, Copy, Debug, PartialEq, Eq, Structural)]
pub enum GateState {
    /// The inner stack answered ready at the last poll.
    Ready,
    /// The inner stack has been unready since `since`.
    Unready { since: u64 },
    /// Tripped: requests fail at once until the inner service
    /// recovers.
    Failing,
}

/// What the fail-fast gate answers a request.
#[derive(Clone, Copy, Debug, PartialEq, Eq, Structural)]
pub enum GatePoll {
    /// The inner stack is ready; pass the request on.
    Admit,
    /// The inner stack is unready but the timeout has not elapsed; the
    /// request waits.
    Pending,
    /// The inner stack has been unready for the whole dispatch timeout;
    /// fail the request with an immediate retriable error.
    Fail,
}

/// The fail-fast gate: turns an inner stack unready for longer than the
/// dispatch timeout into immediate failures rather than unbounded waiting.
#[derive(Clone, Copy, Debug, PartialEq, Eq, Structural)]
pub struct FailFast {
    pub timeout_ms: u64,
    pub state: GateState,
}

/// The next state and answer, given whether the inner service is ready
/// now.
pub open spec fn spec_gate_step(g: FailFast, inner_ready: bool, now: u64) -> (FailFast, GatePoll) {
    if inner_ready {
        (FailFast { timeout_ms: g.timeout_ms, state: GateState::Ready }, GatePoll::Admit)
    } else {
        match g.state {
            GateState::Ready => (
                FailFast { timeout_ms: g.timeout_ms, state: GateState::Unready { since: now } },
                GatePoll::Pending,
            ),
            GateState::Unready { since } => if since + g.timeout_ms <= now {
                (FailFast { timeout_ms: g.timeout_ms, state: GateState::Failing }, GatePoll::Fail)
            } else {
                (g, GatePoll::Pending)
            },
            GateState::Failing => (g, GatePoll::Fail),
        }
    }
}

impl FailFast {
    /// A fresh gate with the given dispatch timeout, assuming the inner
    /// stack ready.
    pub fn new(timeout_ms: u64) -> (g: FailFast)
        ensures
            g == (FailFast { timeout_ms, state: GateState::Ready }),
    {
        FailFast { timeout_ms, state: GateState::Ready }
    }

    /// One poll: a ready inner service is admitted to and re-arms the
    /// clock; an unready one waits until the timeout has elapsed since it
    /// was last ready, and fails at once from then on.
    pub fn poll(&mut self, inner_ready: bool, now: u64) -> (r: GatePoll)
        ensures
            (*final(self), r) == spec_gate_step(*old(self), inner_ready, now),
    {
        if inner_ready {
            self.state = GateState::Ready;
            return GatePoll::Admit;
        }
        match self.state {
            GateState::Ready => {
                self.state = GateState::Unready { since: now };
                GatePoll::Pending
            },
            GateState::Unready { since } => {
                if now >= since && now - since >= self.timeout_ms {
                    self.state = GateState::Failing;
                    GatePoll::Fail
                } else {
                    GatePoll::Pending
                }
            },
            GateState::Failing => GatePoll::Fail,
        }
    }
}

/// A request unready past its deadline is answered, not kept waiting: while
/// the inner stack stays unready, every poll from `since + timeout` onward
/// fails at once, and every poll before that leaves the request pending —
/// never admitted.
pub proof fn lemma_fail_fast(g: FailFast, t: u64, now: u64)
    requires
        g.state == (GateState::Unready { since: t }),
    ensures
        t + g.timeout_ms <= now ==> spec_gate_step(g, false, now).1 == GatePoll::Fail,
        now < t + g.timeout_ms ==> spec_gate_step(g, false, now).1 == GatePoll::Pending,
{
}

/// A bounded in-flight limit: at most `limit` requests are outstanding;
/// beyond that, callers observe unreadiness and are backpressured.
#[derive(Clone, Copy, Debug, PartialEq, Eq, Structural)]
pub struct InFlightLimit {
    pub limit: usize,
    pub in_flight: usize,
}

impl InFlightLimit {
    /// Well-formed: never more outstanding than the limit allows.
    pub open spec fn wf(self) -> bool {
        self.in_flight <= self.limit
    }

    /// A fresh limit with nothing outstanding.
    pub fn new(limit: usize) -> (g: InFlightLimit)
        ensures
            g == (InFlightLimit { limit, in_flight: 0 }),
            g.wf(),
    {
        InFlightLimit { limit, in_flight: 0 }
    }

    /// Whether one more request may enter.
    pub fn poll_ready(&self) -> (r: bool)
        ensures
            r == (self.in_flight < self.limit),
    {
        self.in_flight < self.limit
    }

    /// Admits one request if the limit allows, and says whether it did.
    pub fn acquire(&mut self) -> (admitted: bool)
        requires
            old(self).wf(),
        ensures
            final(self).wf(),
            admitted == (old(self).in_flight < old(self).limit),
            final(self).limit == old(self).limit,
            admitted ==> final(self).in_flight == old(self).in_flight + 1,
            !admitted ==> final(self).in_flight == old(self).in_flight,
    {
        if self.in_flight < self.limit {
            self.in_flight = self.in_flight + 1;
            true
        } else {
            false
        }
    }

    /// Completes one request.
    pub fn release(&mut self)
        ensures
            final(self).limit == old(self).limit,
            final(self).in_flight == if old(self).in_flight == 0 {
                0usize
            } else {
                (old(self).in_flight - 1) as usize
            },
    {
        if self.in_flight > 0 {
            self.in_flight = self.in_flight - 1;
        }
    }
}

} // verus!
