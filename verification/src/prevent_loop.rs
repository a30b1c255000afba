//! Loop prevention.
//!
//! A transparently redirected connection whose original destination is this
//! proxy's own listening port must not be routed through the normal inbound
//! stack: that stack connects onward to the original destination, which
//! would land on the proxy again and recurse without bound. Such connections
//! take an alternate, direct path that expects an opaque-transport header or
//! fails.

use vstd::prelude::*;
use vstd::string::StringExecFns;
use crate::addr::SockAddr;
use crate::text::{spec_decimal, u16_to_decimal};

verus! {

/// Decides, from this proxy's listening port, whether a connection loops
/// back into the proxy itself.
#[derive(Clone, Copy, Debug, PartialEq, Eq, Structural)]
pub struct PreventLoop {
    pub port: u16,
}

/// The error produced when a connection or endpoint targeting the proxy's
/// own port is rejected outright.
#[derive(Clone, Copy, Debug, PartialEq, Eq, Structural)]
pub struct LoopPrevented {
    pub port: u16,
}

/// Which of the two inbound routes handles a connection.
#[derive(Clone, Copy, Debug, PartialEq, Eq, Structural)]
pub enum LoopCheck {
    /// The normal inbound stack: detection, routing, HTTP pipeline.
    Primary,
    /// The self-connection path: opaque-transport header or refusal.
    Direct,
}

impl PreventLoop {
    /// A check for the given listening port.
    pub fn from_port(port: u16) -> (r: PreventLoop)
        ensures
            r == (PreventLoop { port }),
    {
        PreventLoop { port }
    }

    /// Routes a connection by its original destination: the direct path
    /// exactly when the original destination port is the listening port.
    pub fn check(&self, orig_dst: SockAddr) -> (r: LoopCheck)
        ensures
            r == LoopCheck::Direct <==> orig_dst.port == self.port,
            r == LoopCheck::Primary <==> orig_dst.port != self.port,
    {
        if orig_dst.port == self.port {
            LoopCheck::Direct
        } else {
            LoopCheck::Primary
        }
    }

    /// Checks an outgoing endpoint: connecting to the proxy's own port is
    /// refused, any other port passes unchanged.
    pub fn check_endpoint(&self, port: u16) -> (r: Result<u16, LoopPrevented>)
        ensures
            port == self.port ==> r == Err::<u16, LoopPrevented>(LoopPrevented { port }),
            port != self.port ==> r == Ok::<u16, LoopPrevented>(port),
    {
        if port == self.port {
            Err(LoopPrevented { port })
        } else {
            Ok(port)
        }
    }
}

impl LoopPrevented {
    /// The human-readable diagnostic the refusal carries.
    pub fn message(&self) -> (s: String)
        ensures
            s@ == "inbound requests must not target localhost:"@ + spec_decimal(
                self.port as nat,
            ),
    {
        let s = String::from_str("inbound requests must not target localhost:");
        let digits = u16_to_decimal(self.port);
        s.concat(digits.as_str())
    }
}

} // verus!
