//! The admin server's admission.
//!
//! The admin port serves HTTP only: a connection is matched against HTTP
//! under a short detection timeout and everything else is refused. The
//! listener, metrics and tasks around it are plain I/O; the decision per
//! connection is made here.

use vstd::prelude::*;
use vstd::string::StringExecFns;
use crate::config::ServerConfig;
use crate::detect::{match_http, spec_http_decision, HttpMatch, Version};

verus! {

/// The detection timeout of the admin server, in milliseconds.
pub const ADMIN_DETECT_TIMEOUT_MS: u64 = 1000;

/// The admin server's configuration.
#[derive(Clone, Copy, Debug)]
pub struct Config {
    /// The admin listener.
    pub server: ServerConfig,
    /// How long idle metrics are retained, in milliseconds.
    pub metrics_retain_idle_ms: u64,
}

/// The error produced when a non-HTTP connection reaches the admin port.
#[derive(Clone, Copy, Debug, PartialEq, Eq, Default, Structural)]
pub struct AdminHttpOnly;

impl AdminHttpOnly {
    /// The human-readable diagnostic the refusal carries.
    pub fn message(&self) -> (s: String)
        ensures
            s@ == "proxy admin server is HTTP-only"@,
    {
        String::from_str("proxy admin server is HTTP-only")
    }
}

/// Where an admin connection goes.
#[derive(Clone, Copy, Debug, PartialEq, Eq, Structural)]
pub enum AdminDecision {
    /// Serve HTTP of the detected version.
    Serve(Version),
    /// The peer does not speak HTTP; refuse with [`AdminHttpOnly`].
    RefuseNonHttp,
    /// Detection could not decide before the timeout; refuse.
    RefuseTimeout,
    /// The prefix cannot decide yet; peek more bytes and ask again.
    NeedMore,
}

/// Decides where one admin connection goes: HTTP is served, anything else
/// refused.
pub fn admin_dispatch(prefix: &[u8], timed_out: bool) -> (r: AdminDecision)
    ensures
        spec_http_decision(prefix@) matches HttpMatch::Matched(v) ==> r == AdminDecision::Serve(v),
        spec_http_decision(prefix@) is NoMatch ==> r == AdminDecision::RefuseNonHttp,
        spec_http_decision(prefix@) is Need ==> r == if timed_out {
            AdminDecision::RefuseTimeout
        } else {
            AdminDecision::NeedMore
        },
{
    match match_http(prefix) {
        HttpMatch::Matched(v) => AdminDecision::Serve(v),
        HttpMatch::NoMatch => AdminDecision::RefuseNonHttp,
        HttpMatch::Need(_) => {
            if timed_out {
                AdminDecision::RefuseTimeout
            } else {
                AdminDecision::NeedMore
            }
        },
    }
}

/// The admin configuration's listener settings.
impl Config {
    /// The listener the admin server binds.
    pub fn server(&self) -> (s: ServerConfig)
        ensures
            s == self.server,
    {
        self.server
    }
}

} // verus!
