//! The HTTP client's decisions.
//!
//! One client serves each endpoint and can speak either HTTP version: the
//! pooled HTTP/1 path always exists, the multiplexed HTTP/2 connection is
//! established only for an HTTP/2 target. Which path carries a request, and
//! when the client is ready, are decided here; the connections themselves
//! are driven outside the crate.

use vstd::prelude::*;
use crate::config::H2Settings;
use crate::detect::Version;

verus! {

/// Configures clients with the HTTP/2 settings they apply.
#[derive(Clone, Copy, Debug)]
pub struct MakeClientLayer {
    pub h2_settings: H2Settings,
}

/// Builds one client per endpoint.
#[derive(Clone, Copy, Debug)]
pub struct MakeClient {
    pub h2_settings: H2Settings,
}

/// A versioned client for one endpoint: whether it holds a multiplexed
/// HTTP/2 connection beside the pooled HTTP/1 path.
#[derive(Clone, Copy, Debug, PartialEq, Eq, Structural)]
pub struct Client {
    pub has_h2: bool,
}

/// Which path carries a request.
#[derive(Clone, Copy, Debug, PartialEq, Eq, Structural)]
pub enum ClientRoute {
    UseH1,
    UseH2,
}

impl MakeClientLayer {
    /// A layer applying these HTTP/2 settings.
    pub fn new(h2_settings: H2Settings) -> (r: MakeClientLayer)
        ensures
            r.h2_settings == h2_settings,
    {
        MakeClientLayer { h2_settings }
    }

    /// The client builder this layer wraps around a connector.
    pub fn layer(&self) -> (r: MakeClient)
        ensures
            r.h2_settings == self.h2_settings,
    {
        MakeClient { h2_settings: self.h2_settings }
    }
}

impl MakeClient {
    /// Whether building a client for a target of this version must first
    /// establish a multiplexed HTTP/2 connection.
    pub fn needs_h2_connection(&self, target_version: Version) -> (r: bool)
        ensures
            r == (target_version is H2),
    {
        matches!(target_version, Version::H2)
    }

    /// The client produced for a target of this version.
    pub fn client_for(&self, target_version: Version) -> (c: Client)
        ensures
            c.has_h2 == (target_version is H2),
    {
        Client { has_h2: matches!(target_version, Version::H2) }
    }
}

impl Client {
    /// Whether the client can accept a request now: an HTTP/1-only client
    /// always can (the pool connects per request); one with an HTTP/2
    /// connection is ready exactly when that connection can open a new
    /// stream.
    pub fn poll_ready(&self, h2_ready: bool) -> (r: bool)
        ensures
            r == (self.has_h2 ==> h2_ready),
    {
        !self.has_h2 || h2_ready
    }

    /// Which path carries a request of the given version: the multiplexed
    /// connection exactly when the request is HTTP/2 and the connection
    /// exists, the pooled HTTP/1 path otherwise.
    pub fn route(&self, req_version: Version) -> (r: ClientRoute)
        ensures
            r == ClientRoute::UseH2 <==> (req_version is H2 && self.has_h2),
            r == ClientRoute::UseH1 <==> !(req_version is H2 && self.has_h2),
    {
        if matches!(req_version, Version::H2) && self.has_h2 {
            ClientRoute::UseH2
        } else {
            ClientRoute::UseH1
        }
    }
}

} // verus!
