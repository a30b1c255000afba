//! Proxy configuration.
//!
//! Plain-value settings for the listener, the outbound connector and the
//! pipeline bounds. Durations are millisecond counts.

use vstd::prelude::*;
use crate::addr::{Keepalive, ListenAddr};
use crate::backoff::ExponentialBackoff;

verus! {

/// HTTP/2 transport settings applied to a server or client endpoint.
#[derive(Clone, Copy, Debug, PartialEq, Eq, Structural)]
pub struct H2Settings {
    /// The initial flow-control window of one stream, in bytes.
    pub initial_stream_window_size: u32,
    /// The initial flow-control window of the whole connection, in bytes.
    pub initial_connection_window_size: u32,
}

/// HTTP/1 connection-pool settings applied to a client endpoint.
#[derive(Clone, Copy, Debug, PartialEq, Eq, Structural)]
pub struct H1PoolSettings {
    /// How many idle pooled connections are kept per endpoint.
    pub max_idle: usize,
    /// How long an idle pooled connection is kept, in milliseconds.
    pub idle_timeout_ms: u64,
}

/// The listener's configuration.
#[derive(Clone, Copy, Debug)]
pub struct ServerConfig {
    /// The address to bind on.
    pub addr: ListenAddr,
    /// The keepalive applied to accepted sockets.
    pub keepalive: Keepalive,
    /// HTTP/2 settings of the server endpoint.
    pub h2_settings: H2Settings,
}

impl ServerConfig {
    /// The configured bind address.
    pub fn bind_addr(&self) -> (a: ListenAddr)
        ensures
            a == self.addr,
    {
        self.addr
    }

    /// The configured keepalive.
    pub fn accept_keepalive(&self) -> (k: Keepalive)
        ensures
            k == self.keepalive,
    {
        self.keepalive
    }
}

/// The outbound connector's configuration.
#[derive(Clone, Copy, Debug)]
pub struct ConnectConfig {
    /// Retry delays after connect failures.
    pub backoff: ExponentialBackoff,
    /// How long one connect attempt may take, in milliseconds.
    pub timeout_ms: u64,
    /// The keepalive applied to outbound sockets, in milliseconds.
    pub keepalive: Option<u64>,
    /// HTTP/1 pool settings of client endpoints.
    pub h1_settings: H1PoolSettings,
    /// HTTP/2 settings of client endpoints.
    pub h2_settings: H2Settings,
}

/// The whole proxy configuration.
#[derive(Clone, Copy, Debug)]
pub struct ProxyConfig {
    /// The listener.
    pub server: ServerConfig,
    /// The outbound connector.
    pub connect: ConnectConfig,
    /// The size of the spawn buffer in front of each cached stack.
    pub buffer_capacity: usize,
    /// How long an idle cache entry is retained, in milliseconds.
    pub cache_max_idle_age_ms: u64,
    /// How long a request waits on an unready stack before failing fast, in
    /// milliseconds.
    pub dispatch_timeout_ms: u64,
    /// How many requests may be in flight at once.
    pub max_in_flight_requests: usize,
    /// How long protocol detection may take per stage, in milliseconds.
    pub detect_protocol_timeout_ms: u64,
}

} // verus!
