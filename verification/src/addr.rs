//! Typed socket addresses.
//!
//! Distinct nominal wrappers keep the local bind address, the peer address
//! and the pre-redirect original destination from being confused with one
//! another, and a `Local`/`Remote` polarity wrapper records which side of the
//! connection an address describes. Addresses are plain values: an IP address
//! is held as an integer in network significance (most significant byte
//! first), a port as a `u16`.

use vstd::prelude::*;

verus! {

/// An IP address, version 4 or 6, as a plain integer (most significant byte
/// corresponds to the first byte on the wire).
#[derive(Clone, Copy, Debug, PartialEq, Eq, Hash, Structural)]
pub enum IpAddress {
    V4(u32),
    V6(u128),
}

/// A socket address: an IP address and a TCP port.
#[derive(Clone, Copy, Debug, PartialEq, Eq, Hash, Structural)]
pub struct SockAddr {
    pub ip: IpAddress,
    pub port: u16,
}

impl SockAddr {
    /// The loopback IPv4 address with the given port.
    pub fn loopback(port: u16) -> (a: SockAddr)
        ensures
            a == (SockAddr { ip: IpAddress::V4(crate::LOOPBACK_V4), port }),
    {
        SockAddr { ip: IpAddress::V4(crate::LOOPBACK_V4), port }
    }
}

/// The address of a remote client.
#[derive(Clone, Copy, Debug, PartialEq, Eq, Hash, Structural)]
pub struct ClientAddr(pub SockAddr);

/// The address for a listener to bind on.
#[derive(Clone, Copy, Debug, PartialEq, Eq, Hash, Structural)]
pub struct ListenAddr(pub SockAddr);

/// The address of a local server.
#[derive(Clone, Copy, Debug, PartialEq, Eq, Hash, Structural)]
pub struct ServerAddr(pub SockAddr);

/// An original-destination address: the address the client targeted before a
/// transparent redirect rerouted the packet to this proxy.
#[derive(Clone, Copy, Debug, PartialEq, Eq, Hash, Structural)]
pub struct OrigDstAddr(pub SockAddr);

/// A keepalive configuration: the idle duration in milliseconds, or `None`
/// for no keepalive.
#[derive(Clone, Copy, Debug)]
pub struct Keepalive(pub Option<u64>);

/// Wraps an address type to indicate it describes this process.
#[derive(Clone, Copy, Debug, PartialEq, Eq, Hash, Structural)]
pub struct Local<T>(pub T);

/// Wraps an address type to indicate it describes another process.
#[derive(Clone, Copy, Debug, PartialEq, Eq, Hash, Structural)]
pub struct Remote<T>(pub T);

/// The addresses of one accepted connection: the local server address, the
/// remote client address, and the original destination when a resolver
/// recovered one. Immutable once produced by the listener.
#[derive(Clone, Copy, Debug, PartialEq, Eq, Hash, Structural)]
pub struct AcceptAddrs {
    pub local: Local<ServerAddr>,
    pub client: Remote<ClientAddr>,
    pub orig_dst: Option<OrigDstAddr>,
}

impl AcceptAddrs {
    /// The address a downstream stage should treat as the connection's
    /// destination: the original destination when present, else the local
    /// server address.
    pub open spec fn spec_target_addr(self) -> SockAddr {
        match self.orig_dst {
            Some(OrigDstAddr(a)) => a,
            None => self.local.0.0,
        }
    }

    /// Projects the connection's destination: the original destination when
    /// the resolver produced one, else the local address.
    pub fn target_addr(&self) -> (a: SockAddr)
        ensures
            a == self.spec_target_addr(),
    {
        if let Some(OrigDstAddr(a)) = self.orig_dst {
            return a;
        }
        self.local.0.0
    }

    /// The remote client address.
    pub fn client(&self) -> (c: Remote<ClientAddr>)
        ensures
            c == self.client,
    {
        self.client
    }

    /// The local server address.
    pub fn local(&self) -> (l: Local<ServerAddr>)
        ensures
            l == self.local,
    {
        self.local
    }

    /// The original destination, when one was recovered.
    pub fn orig_dst(&self) -> (o: Option<OrigDstAddr>)
        ensures
            o == self.orig_dst,
    {
        self.orig_dst
    }
}

} // verus!
