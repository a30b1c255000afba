use inbound_proxy::backoff::{with_jitter, ExponentialBackoff, ReconnectState};
use inbound_proxy::drain::{DrainState, FailFast, GatePoll, InFlightLimit};

#[test]
fn no_new_requests_after_signal() {
    let mut d = DrainState::new();
    assert!(d.accepts_new());
    d.signal();
    assert!(!d.accepts_new());
    // Nothing reopens the token.
    d.retain();
    d.release_retained();
    assert!(!d.accepts_new());
}

#[test]
fn drained_only_when_closing_and_nothing_retained() {
    let mut d = DrainState::new();
    d.retain();
    d.retain();
    assert!(!d.drained());
    d.signal();
    assert!(!d.drained());
    d.release_retained();
    assert!(!d.drained());
    d.release_retained();
    assert!(d.drained());
}

#[test]
fn fail_fast_trips_exactly_at_the_timeout() {
    let mut g = FailFast::new(3000);
    // Unready from t = 1000.
    assert_eq!(g.poll(false, 1000), GatePoll::Pending);
    assert_eq!(g.poll(false, 3999), GatePoll::Pending);
    assert_eq!(g.poll(false, 4000), GatePoll::Fail);
    // Once tripped it fails at once until the inner stack recovers.
    assert_eq!(g.poll(false, 4001), GatePoll::Fail);
    assert_eq!(g.poll(true, 4002), GatePoll::Admit);
    // Recovery re-arms the clock.
    assert_eq!(g.poll(false, 5000), GatePoll::Pending);
    assert_eq!(g.poll(false, 7999), GatePoll::Pending);
    assert_eq!(g.poll(false, 8000), GatePoll::Fail);
}

#[test]
fn in_flight_limit_backpressures_at_capacity() {
    let mut l = InFlightLimit::new(2);
    assert!(l.poll_ready());
    assert!(l.acquire());
    assert!(l.acquire());
    assert!(!l.poll_ready());
    assert!(!l.acquire());
    l.release();
    assert!(l.poll_ready());
    assert!(l.acquire());
}

#[test]
fn backoff_doubles_until_the_cap_then_stays() {
    let b = ExponentialBackoff { min_ms: 100, max_ms: 3000 };
    let delays: Vec<u64> = (0..8).map(|n| b.delay_ms(n)).collect();
    assert_eq!(delays, vec![100, 200, 400, 800, 1600, 3000, 3000, 3000]);
    // Non-decreasing throughout.
    for w in delays.windows(2) {
        assert!(w[0] <= w[1]);
    }
}

#[test]
fn backoff_with_min_equal_max_is_constant() {
    let b = ExponentialBackoff { min_ms: 250, max_ms: 250 };
    assert_eq!(b.delay_ms(0), 250);
    assert_eq!(b.delay_ms(1), 250);
    assert_eq!(b.delay_ms(9), 250);
}

#[test]
fn jitter_adds_and_saturates() {
    assert_eq!(with_jitter(1000, 37), 1037);
    assert_eq!(with_jitter(u64::MAX - 1, 5), u64::MAX);
    assert_eq!(with_jitter(0, 0), 0);
}

#[test]
fn reconnect_rearms_on_success() {
    let b = ExponentialBackoff { min_ms: 100, max_ms: 3000 };
    let mut r = ReconnectState::new();
    assert_eq!(r.on_failure(&b), 100);
    assert_eq!(r.on_failure(&b), 200);
    assert_eq!(r.on_failure(&b), 400);
    r.on_success();
    assert_eq!(r.on_failure(&b), 100);
}
