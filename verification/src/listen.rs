//! The listener's configuration.
//!
//! A listener binds one TCP socket and produces accepted connections with
//! their addresses; the socket calls themselves are made outside the crate.
//! What is configured here: the bind address, the keepalive applied to
//! accepted sockets, and how the original destination of each connection is
//! resolved — not at all, through the kernel's lookup, or by a fixed mock
//! address for tests. The selection is made when the listener is built,
//! never per connection.

use vstd::prelude::*;
use crate::addr::{ListenAddr, SockAddr};

verus! {

/// How a listener resolves each connection's original destination.
#[derive(Clone, Copy, Debug, PartialEq, Eq, Structural)]
pub enum OrigDstMode {
    /// No resolver: `target_addr()` falls back to the local address.
    Disabled,
    /// The kernel's lookup on the accepted socket.
    Kernel,
    /// A fixed configured address, for tests.
    Mock(SockAddr),
}

/// A listener about to be bound: its address, keepalive, and
/// original-destination resolver.
#[derive(Clone, Copy, Debug, PartialEq, Eq, Structural)]
pub struct BindTcp {
    pub bind_addr: ListenAddr,
    pub keepalive: Option<u64>,
    pub orig_dst: OrigDstMode,
}

impl BindTcp {
    /// A listener on this address with this keepalive and no
    /// original-destination resolver.
    pub fn new(addr: SockAddr, keepalive_ms: Option<u64>) -> (r: BindTcp)
        ensures
            r == (BindTcp {
                bind_addr: ListenAddr(addr),
                keepalive: keepalive_ms,
                orig_dst: OrigDstMode::Disabled,
            }),
    {
        BindTcp { bind_addr: ListenAddr(addr), keepalive: keepalive_ms, orig_dst: OrigDstMode::Disabled }
    }

    /// The same listener with this original-destination resolver.
    pub fn with_orig_dst_addr(self, orig_dst: OrigDstMode) -> (r: BindTcp)
        ensures
            r == (BindTcp { orig_dst, ..self }),
    {
        BindTcp { orig_dst, ..self }
    }

    /// The address the listener binds on.
    pub fn bind_addr(&self) -> (a: ListenAddr)
        ensures
            a == self.bind_addr,
    {
        self.bind_addr
    }

    /// The keepalive applied to accepted sockets, in milliseconds.
    pub fn keepalive(&self) -> (k: Option<u64>)
        ensures
            k == self.keepalive,
    {
        self.keepalive
    }
}

} // verus!
