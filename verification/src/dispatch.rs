//! Per-connection admission and dispatch.
//!
//! One pure decision ties the pipeline together: given the configured port
//! sets, this proxy's listening port, the addresses of an accepted
//! connection, the TLS detection outcome, and the peeked byte prefix, it
//! decides whether the connection is forwarded opaquely, attached to the
//! HTTP pipeline, handled on the self-connection (direct) path, refused, or
//! still undecidable. The caller performs the I/O the decision names and
//! replays the returned bytes to the chosen handler first, so nothing peeked
//! is lost.

use vstd::prelude::*;
use vstd::slice::{slice_subrange, slice_to_vec};
use vstd::string::StringExecFns;
use crate::addr::{AcceptAddrs, IpAddress, SockAddr};
use crate::detect::{match_http, spec_http_decision, HttpMatch, Version};
use crate::opaque::{
    lemma_encode_parsed, match_header, spec_encode, spec_header_decision, GhostHeaderMatch,
    HeaderMatch, SpecHeader, TransportHeader,
};
use crate::ports::{RequireIdentityForPorts, SkipByPort};

verus! {

/// The TLS detection outcome for one connection: either the stream passed
/// through untouched, or the handshake was terminated and identified the
/// peer by name.
#[derive(Clone, Debug)]
pub enum TlsStatus {
    Passthrough,
    Terminated(Vec<u8>),
}

/// Why a connection is refused before any handler runs.
#[derive(Clone, Copy, Debug, PartialEq, Eq, Structural)]
pub enum RefusalReason {
    /// Detection could not decide before the per-stage timeout.
    DetectTimeout,
    /// A self-connection carried no opaque-transport header.
    NonOpaque,
    /// The target port demands a verified client identity and there is none.
    IdentityRequired,
}

/// The inbound proxy's whole configuration: the pipeline bounds, the port
/// sets that steer admission, the domains open to profile discovery, and
/// how long an unready profile lookup is waited for before the plain
/// target stack takes over.
pub struct Config {
    pub proxy: crate::config::ProxyConfig,
    pub require_identity_for_inbound_ports: RequireIdentityForPorts,
    pub disable_protocol_detection_for_ports: SkipByPort,
    pub allow_discovery: crate::names::NameMatch,
    pub profile_idle_timeout_ms: u64,
}

impl Config {
    /// Decides where one accepted connection goes, under this
    /// configuration's port sets.
    pub fn dispatch_conn(
        &self,
        listen_port: u16,
        addrs: &AcceptAddrs,
        tls: &TlsStatus,
        prefix: &[u8],
        timed_out: bool,
    ) -> (r: Dispatch)
        ensures
            r@ == spec_dispatch(
                listen_port,
                self.disable_protocol_detection_for_ports.spec_ports(),
                self.require_identity_for_inbound_ports.spec_ports(),
                *addrs,
                tls is Terminated,
                prefix@,
                timed_out,
            ),
    {
        dispatch(
            listen_port,
            &self.disable_protocol_detection_for_ports,
            &self.require_identity_for_inbound_ports,
            addrs,
            tls,
            prefix,
            timed_out,
        )
    }
}

impl RefusalReason {
    /// The human-readable diagnostic the refusal carries.
    pub fn message(&self) -> (s: String)
        ensures
            *self is DetectTimeout ==> s@ == "protocol detection timed out"@,
            *self is NonOpaque ==> s@ == "Non-opaque connection refused"@,
            *self is IdentityRequired ==> s@ == "identity required on this port"@,
    {
        match self {
            RefusalReason::DetectTimeout => String::from_str("protocol detection timed out"),
            RefusalReason::NonOpaque => String::from_str("Non-opaque connection refused"),
            RefusalReason::IdentityRequired => String::from_str("identity required on this port"),
        }
    }
}

/// Where an accepted connection goes.
#[derive(Debug)]
pub enum Dispatch {
    /// Copy bytes opaquely to `target`, first replaying `replay`.
    ForwardTcp { target: SockAddr, replay: Vec<u8> },
    /// A self-connection announcing an inner endpoint: forward opaquely to
    /// `target` (the announced port on loopback), first replaying `replay` —
    /// the bytes that followed the header.
    ForwardOpaque { header: TransportHeader, target: SockAddr, replay: Vec<u8> },
    /// Drive the HTTP pipeline for `target`, reading first from `replay`.
    ServeHttp { version: Version, target: SockAddr, replay: Vec<u8> },
    /// Refuse the connection.
    Refuse { reason: RefusalReason },
    /// The prefix cannot decide yet; peek more bytes and ask again.
    NeedMore,
}

/// The mathematical value of a dispatch decision.
pub ghost enum GhostDispatch {
    ForwardTcp { target: SockAddr, replay: Seq<u8> },
    ForwardOpaque { header: SpecHeader, target: SockAddr, replay: Seq<u8> },
    ServeHttp { version: Version, target: SockAddr, replay: Seq<u8> },
    Refuse { reason: RefusalReason },
    NeedMore,
}

impl View for Dispatch {
    type V = GhostDispatch;

    open spec fn view(&self) -> GhostDispatch {
        match self {
            Dispatch::ForwardTcp { target, replay } => GhostDispatch::ForwardTcp {
                target: *target,
                replay: replay@,
            },
            Dispatch::ForwardOpaque { header, target, replay } => GhostDispatch::ForwardOpaque {
                header: header@,
                target: *target,
                replay: replay@,
            },
            Dispatch::ServeHttp { version, target, replay } => GhostDispatch::ServeHttp {
                version: *version,
                target: *target,
                replay: replay@,
            },
            Dispatch::Refuse { reason } => GhostDispatch::Refuse { reason: *reason },
            Dispatch::NeedMore => GhostDispatch::NeedMore,
        }
    }
}

/// The decision owed for one connection, over the abstract contents of the
/// configured port sets.
///
/// In order: a listed skip port is forwarded opaquely with no detection; a
/// port demanding identity refuses an unidentified connection; a connection
/// whose target port is the listening port itself takes the direct path,
/// which accepts only the opaque-transport header; any other connection is
/// matched against HTTP and otherwise forwarded opaquely.
pub open spec fn spec_dispatch(
    listen_port: u16,
    skip_ports: Set<u16>,
    identity_ports: Set<u16>,
    addrs: AcceptAddrs,
    tls_terminated: bool,
    prefix: Seq<u8>,
    timed_out: bool,
) -> GhostDispatch {
    let target = addrs.spec_target_addr();
    if skip_ports.contains(target.port) {
        GhostDispatch::ForwardTcp { target, replay: prefix }
    } else if identity_ports.contains(target.port) && !tls_terminated {
        GhostDispatch::Refuse { reason: RefusalReason::IdentityRequired }
    } else if target.port == listen_port {
        match spec_header_decision(prefix) {
            GhostHeaderMatch::Matched(h, c) => GhostDispatch::ForwardOpaque {
                header: h,
                target: SockAddr { ip: IpAddress::V4(crate::LOOPBACK_V4), port: h.port },
                replay: prefix.skip(c),
            },
            GhostHeaderMatch::NoMatch => GhostDispatch::Refuse {
                reason: RefusalReason::NonOpaque,
            },
            GhostHeaderMatch::Need(_) => if timed_out {
                GhostDispatch::Refuse { reason: RefusalReason::DetectTimeout }
            } else {
                GhostDispatch::NeedMore
            },
        }
    } else {
        match spec_http_decision(prefix) {
            HttpMatch::Matched(v) => GhostDispatch::ServeHttp {
                version: v,
                target,
                replay: prefix,
            },
            HttpMatch::NoMatch => GhostDispatch::ForwardTcp { target, replay: prefix },
            HttpMatch::Need(_) => if timed_out {
                GhostDispatch::Refuse { reason: RefusalReason::DetectTimeout }
            } else {
                GhostDispatch::NeedMore
            },
        }
    }
}

/// Decides where one accepted connection goes.
///
/// `prefix` is the non-destructively peeked opening of the stream and
/// `timed_out` whether the detection deadline has passed; while the prefix
/// cannot decide and the deadline has not passed, the decision is
/// [`Dispatch::NeedMore`] and the caller peeks further bytes.
pub fn dispatch(
    listen_port: u16,
    skip: &SkipByPort,
    require_identity: &RequireIdentityForPorts,
    addrs: &AcceptAddrs,
    tls: &TlsStatus,
    prefix: &[u8],
    timed_out: bool,
) -> (r: Dispatch)
    ensures
        r@ == spec_dispatch(
            listen_port,
            skip.spec_ports(),
            require_identity.spec_ports(),
            *addrs,
            tls is Terminated,
            prefix@,
            timed_out,
        ),
{
    let target = addrs.target_addr();
    if !skip.use_primary(target.port) {
        return Dispatch::ForwardTcp { target, replay: slice_to_vec(prefix) };
    }
    let identified = match tls {
        TlsStatus::Terminated(_) => true,
        TlsStatus::Passthrough => false,
    };
    if require_identity.requires_identity(target.port) && !identified {
        return Dispatch::Refuse { reason: RefusalReason::IdentityRequired };
    }
    if target.port == listen_port {
        match match_header(prefix) {
            HeaderMatch::Matched(h, c) => {
                let inner = SockAddr::loopback(h.port);
                let rest = slice_to_vec(slice_subrange(prefix, c, prefix.len()));
                Dispatch::ForwardOpaque { header: h, target: inner, replay: rest }
            },
            HeaderMatch::NoMatch => Dispatch::Refuse { reason: RefusalReason::NonOpaque },
            HeaderMatch::Need(_) => {
                if timed_out {
                    Dispatch::Refuse { reason: RefusalReason::DetectTimeout }
                } else {
                    Dispatch::NeedMore
                }
            },
        }
    } else {
        match match_http(prefix) {
            HttpMatch::Matched(v) => Dispatch::ServeHttp {
                version: v,
                target,
                replay: slice_to_vec(prefix),
            },
            HttpMatch::NoMatch => Dispatch::ForwardTcp { target, replay: slice_to_vec(prefix) },
            HttpMatch::Need(_) => {
                if timed_out {
                    Dispatch::Refuse { reason: RefusalReason::DetectTimeout }
                } else {
                    Dispatch::NeedMore
                }
            },
        }
    }
}

/// Address fidelity: wherever a decision carries the connection onward on
/// the primary paths, the target it names is exactly the connection's
/// original destination — or the local address when no resolver produced
/// one.
pub proof fn lemma_address_fidelity(
    listen_port: u16,
    skip_ports: Set<u16>,
    identity_ports: Set<u16>,
    addrs: AcceptAddrs,
    tls_terminated: bool,
    prefix: Seq<u8>,
    timed_out: bool,
)
    ensures
        spec_dispatch(
            listen_port,
            skip_ports,
            identity_ports,
            addrs,
            tls_terminated,
            prefix,
            timed_out,
        ) matches GhostDispatch::ForwardTcp { target, .. } ==> target == addrs.spec_target_addr(),
        spec_dispatch(
            listen_port,
            skip_ports,
            identity_ports,
            addrs,
            tls_terminated,
            prefix,
            timed_out,
        ) matches GhostDispatch::ServeHttp { target, .. } ==> target == addrs.spec_target_addr(),
{
}

/// Loop prevention: a connection whose target port is the proxy's own
/// listening port is never attached to the HTTP pipeline, whatever bytes it
/// sends.
pub proof fn lemma_loop_prevention(
    listen_port: u16,
    skip_ports: Set<u16>,
    identity_ports: Set<u16>,
    addrs: AcceptAddrs,
    tls_terminated: bool,
    prefix: Seq<u8>,
    timed_out: bool,
)
    requires
        addrs.spec_target_addr().port == listen_port,
    ensures
        !(spec_dispatch(
            listen_port,
            skip_ports,
            identity_ports,
            addrs,
            tls_terminated,
            prefix,
            timed_out,
        ) is ServeHttp),
{
}

/// Identity gating: on a port that demands a client identity, a connection
/// whose TLS detection did not terminate with an identity is never attached
/// to the HTTP pipeline; unless the port skips detection altogether, it is
/// refused outright.
pub proof fn lemma_identity_gating(
    listen_port: u16,
    skip_ports: Set<u16>,
    identity_ports: Set<u16>,
    addrs: AcceptAddrs,
    prefix: Seq<u8>,
    timed_out: bool,
)
    requires
        identity_ports.contains(addrs.spec_target_addr().port),
    ensures
        !(spec_dispatch(
            listen_port,
            skip_ports,
            identity_ports,
            addrs,
            false,
            prefix,
            timed_out,
        ) is ServeHttp),
        !skip_ports.contains(addrs.spec_target_addr().port) ==> spec_dispatch(
            listen_port,
            skip_ports,
            identity_ports,
            addrs,
            false,
            prefix,
            timed_out,
        ) == (GhostDispatch::Refuse { reason: RefusalReason::IdentityRequired }),
{
}

/// Detector non-consumption: whichever handler a decision chooses observes
/// every peeked byte. On the HTTP and opaque-forward paths the replay is the
/// whole prefix; on the direct path the consumed frame re-encodes to exactly
/// the bytes split off, so frame plus replay reconstruct the prefix.
pub proof fn lemma_detector_non_consumption(
    listen_port: u16,
    skip_ports: Set<u16>,
    identity_ports: Set<u16>,
    addrs: AcceptAddrs,
    tls_terminated: bool,
    prefix: Seq<u8>,
    timed_out: bool,
)
    ensures
        spec_dispatch(
            listen_port,
            skip_ports,
            identity_ports,
            addrs,
            tls_terminated,
            prefix,
            timed_out,
        ) matches GhostDispatch::ServeHttp { replay, .. } ==> replay == prefix,
        spec_dispatch(
            listen_port,
            skip_ports,
            identity_ports,
            addrs,
            tls_terminated,
            prefix,
            timed_out,
        ) matches GhostDispatch::ForwardTcp { replay, .. } ==> replay == prefix,
        spec_dispatch(
            listen_port,
            skip_ports,
            identity_ports,
            addrs,
            tls_terminated,
            prefix,
            timed_out,
        ) matches GhostDispatch::ForwardOpaque { header, replay, .. } ==> spec_encode(header)
            + replay == prefix,
{
    let d = spec_dispatch(
        listen_port,
        skip_ports,
        identity_ports,
        addrs,
        tls_terminated,
        prefix,
        timed_out,
    );
    if d is ForwardOpaque {
        let c = crate::opaque::HEADER_PREFIX_LEN + crate::opaque::spec_payload_len(prefix);
        lemma_encode_parsed(prefix);
        assert(prefix.subrange(0, c) + prefix.skip(c) =~= prefix);
    }
}

} // verus!
