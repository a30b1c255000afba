//! Connection-admission and protocol-dispatch core of an inbound sidecar
//! proxy.
//!
//! The crate models the decision logic of the proxy: typed socket addresses
//! carried from accept to dispatch, recovery of the original destination of a
//! redirected connection, staged protocol detection on peeked byte prefixes,
//! loop prevention, identity gating, a per-target service cache with
//! single-flight construction and idle eviction, exponential connect backoff,
//! and drain coordination. All functions here are pure with respect to I/O:
//! sockets, timers and TLS handshakes live outside the crate and hand their
//! outcomes in as plain values.

pub mod addr;
pub mod admin;
pub mod backoff;
pub mod cache;
pub mod client;
pub mod config;
pub mod detect;
pub mod dispatch;
pub mod drain;
pub mod http;
pub mod listen;
pub mod metrics;
pub mod names;
pub mod opaque;
pub mod orig_dst;
pub mod ports;
pub mod prevent_loop;
pub mod replay;
pub mod serve;
pub mod text;

use vstd::prelude::*;

verus! {

/// The loopback IPv4 address, `127.0.0.1`, as a big-endian integer.
pub const LOOPBACK_V4: u32 = 0x7f00_0001;

} // verus!
