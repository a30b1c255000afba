//! The HTTP server pipeline's decisions.
//!
//! The middleware around an established HTTP context is modeled on a plain
//! request value: restoring HTTP/1 semantics when an upstream proxy wrapped
//! them in HTTP/2, normalizing an origin-form request to carry its
//! authority, deriving the logical target from the original destination and
//! the removable override header — which is stripped so it never leaks
//! upstream — and synthesizing a response status for each internal error
//! kind. Headers are byte strings; their mathematical value is a sequence
//! of name/value pairs of byte sequences.

use vstd::prelude::*;
use crate::addr::SockAddr;
use crate::detect::Version;
use crate::drain::{spec_drain_run, spec_drain_step, spec_gate_step, DrainOp, DrainState, FailFast, GatePoll, GateState, lemma_drain_monotone};
use crate::metrics::{spec_sat_inc64, StatusCounters, STATUS_SPACE};

verus! {

/// One HTTP header: a name and a value, both byte strings. Names are kept
/// lower-case, as HTTP/2 requires.
#[derive(Clone, Debug)]
pub struct HeaderPair {
    pub name: Vec<u8>,
    pub value: Vec<u8>,
}

/// The mathematical value of one header.
pub ghost struct GhostHeader {
    pub name: Seq<u8>,
    pub value: Seq<u8>,
}

impl View for HeaderPair {
    type V = GhostHeader;

    open spec fn view(&self) -> GhostHeader {
        GhostHeader { name: self.name@, value: self.value@ }
    }
}

/// The mathematical value of a header list.
pub open spec fn spec_headers(h: Seq<HeaderPair>) -> Seq<GhostHeader> {
    h.map_values(|p: HeaderPair| p@)
}

/// An HTTP request as the pipeline decisions see it: version, authority,
/// path, and headers.
#[derive(Debug)]
pub struct HttpRequest {
    pub version: Version,
    pub authority: Vec<u8>,
    pub path: Vec<u8>,
    pub headers: Vec<HeaderPair>,
}

/// The header naming a logical destination that overrides the original one;
/// consumed during target derivation.
pub open spec fn spec_dst_override_name() -> Seq<u8> {
    seq![
        0x6cu8,
        0x35,
        0x64,
        0x2d,
        0x64,
        0x73,
        0x74,
        0x2d,
        0x6f,
        0x76,
        0x65,
        0x72,
        0x72,
        0x69,
        0x64,
        0x65,
    ]
}

/// The header marking a request that an outbound proxy upgraded from
/// HTTP/1 to HTTP/2; consumed while downgrading.
pub open spec fn spec_orig_proto_name() -> Seq<u8> {
    seq![0x6cu8, 0x35, 0x64, 0x2d, 0x6f, 0x72, 0x69, 0x67, 0x2d, 0x70, 0x72, 0x6f, 0x74, 0x6f]
}

/// The `host` header, from which an origin-form request's authority is
/// recovered.
pub open spec fn spec_host_name() -> Seq<u8> {
    seq![0x68u8, 0x6f, 0x73, 0x74]
}

/// The bytes of `l5d-dst-override`.
pub fn dst_override_name() -> (v: Vec<u8>)
    ensures
        v@ == spec_dst_override_name(),
{
    let a: [u8; 16] = [
        0x6cu8,
        0x35,
        0x64,
        0x2d,
        0x64,
        0x73,
        0x74,
        0x2d,
        0x6f,
        0x76,
        0x65,
        0x72,
        0x72,
        0x69,
        0x64,
        0x65,
    ];
    let v = vstd::slice::slice_to_vec(a.as_slice());
    proof {
        assert(v@ =~= spec_dst_override_name());
    }
    v
}

/// The bytes of `l5d-orig-proto`.
pub fn orig_proto_name() -> (v: Vec<u8>)
    ensures
        v@ == spec_orig_proto_name(),
{
    let a: [u8; 14] = [
        0x6cu8,
        0x35,
        0x64,
        0x2d,
        0x6f,
        0x72,
        0x69,
        0x67,
        0x2d,
        0x70,
        0x72,
        0x6f,
        0x74,
        0x6f,
    ];
    let v = vstd::slice::slice_to_vec(a.as_slice());
    proof {
        assert(v@ =~= spec_orig_proto_name());
    }
    v
}

/// The bytes of `host`.
pub fn host_name() -> (v: Vec<u8>)
    ensures
        v@ == spec_host_name(),
{
    let a: [u8; 4] = [0x68u8, 0x6f, 0x73, 0x74];
    let v = vstd::slice::slice_to_vec(a.as_slice());
    proof {
        assert(v@ =~= spec_host_name());
    }
    v
}

/// Byte-string equality.
pub fn bytes_eq(a: &[u8], b: &[u8]) -> (r: bool)
    ensures
        r == (a@ == b@),
{
    if a.len() != b.len() {
        return false;
    }
    let n = a.len();
    let mut i: usize = 0;
    while i < n
        invariant
            i <= n,
            n == a@.len() == b@.len(),
            forall|j: int| 0 <= j < i ==> a@[j] == b@[j],
        decreases n - i,
    {
        if a[i] != b[i] {
            return false;
        }
        i = i + 1;
    }
    proof {
        assert(a@ =~= b@);
    }
    true
}

/// Copies a byte string.
fn copy_bytes(src: &Vec<u8>) -> (r: Vec<u8>)
    ensures
        r@ == src@,
{
    vstd::slice::slice_to_vec(src.as_slice())
}

/// The first index of a header with this name, or `-1`.
pub open spec fn spec_find_header(h: Seq<GhostHeader>, name: Seq<u8>) -> int
    decreases h.len(),
{
    if h.len() == 0 {
        -1
    } else if h[0].name == name {
        0
    } else {
        let r = spec_find_header(h.drop_first(), name);
        if r == -1 {
            -1
        } else {
            r + 1
        }
    }
}

/// What `spec_find_header` returns: `-1` exactly when no header has the
/// name, else the first index that does.
pub proof fn lemma_find_header(h: Seq<GhostHeader>, name: Seq<u8>)
    ensures
        spec_find_header(h, name) == -1 ==> forall|j: int| 0 <= j < h.len() ==> h[j].name != name,
        spec_find_header(h, name) != -1 ==> {
            let i = spec_find_header(h, name);
            &&& 0 <= i < h.len()
            &&& h[i].name == name
            &&& forall|j: int| 0 <= j < i ==> h[j].name != name
        },
    decreases h.len(),
{
    if h.len() == 0 {
    } else if h[0].name == name {
    } else {
        lemma_find_header(h.drop_first(), name);
        let r = spec_find_header(h.drop_first(), name);
        if r == -1 {
            assert forall|j: int| 0 <= j < h.len() implies h[j].name != name by {
                if j > 0 {
                    assert(h.drop_first()[j - 1] == h[j]);
                }
            }
        } else {
            assert(h.drop_first()[r] == h[r + 1]);
            assert forall|j: int| 0 <= j < r + 1 implies h[j].name != name by {
                if j > 0 {
                    assert(h.drop_first()[j - 1] == h[j]);
                }
            }
        }
    }
}

/// The headers with every header of this name removed, in order.
pub open spec fn spec_without_header(h: Seq<GhostHeader>, name: Seq<u8>) -> Seq<GhostHeader>
    decreases h.len(),
{
    if h.len() == 0 {
        Seq::empty()
    } else {
        let rest = spec_without_header(h.drop_first(), name);
        if h[0].name == name {
            rest
        } else {
            seq![h[0]] + rest
        }
    }
}

/// Stripping removes the name entirely.
pub proof fn lemma_without_header_gone(h: Seq<GhostHeader>, name: Seq<u8>)
    ensures
        spec_find_header(spec_without_header(h, name), name) == -1,
        forall|j: int|
            0 <= j < spec_without_header(h, name).len() ==> #[trigger] spec_without_header(
                h,
                name,
            )[j].name != name,
    decreases h.len(),
{
    if h.len() > 0 {
        lemma_without_header_gone(h.drop_first(), name);
        let rest = spec_without_header(h.drop_first(), name);
        let out = spec_without_header(h, name);
        if h[0].name == name {
        } else {
            assert forall|j: int| 0 <= j < out.len() implies #[trigger] out[j].name != name by {
                if j > 0 {
                    assert(out[j] == rest[j - 1]);
                }
            }
        }
        lemma_no_name_not_found(out, name);
    }
}

/// A header sequence in which no header has the name yields `-1`.
proof fn lemma_no_name_not_found(h: Seq<GhostHeader>, name: Seq<u8>)
    requires
        forall|j: int| 0 <= j < h.len() ==> #[trigger] h[j].name != name,
    ensures
        spec_find_header(h, name) == -1,
    decreases h.len(),
{
    if h.len() > 0 {
        assert forall|j: int|
            0 <= j < h.drop_first().len() implies #[trigger] h.drop_first()[j].name != name by {
            assert(h.drop_first()[j] == h[j + 1]);
        }
        lemma_no_name_not_found(h.drop_first(), name);
    }
}

/// The value of the first header with this name, if any.
pub open spec fn spec_header_value(h: Seq<GhostHeader>, name: Seq<u8>) -> Option<Seq<u8>> {
    let i = spec_find_header(h, name);
    if i == -1 {
        None
    } else {
        Some(h[i].value)
    }
}

/// The first index carrying the name is what `spec_find_header` returns.
proof fn lemma_find_header_first(h: Seq<GhostHeader>, name: Seq<u8>, i: int)
    requires
        0 <= i < h.len(),
        h[i].name == name,
        forall|j: int| 0 <= j < i ==> h[j].name != name,
    ensures
        spec_find_header(h, name) == i,
    decreases i,
{
    if i == 0 {
    } else {
        assert forall|j: int| 0 <= j < i - 1 implies h.drop_first()[j].name != name by {
            assert(h.drop_first()[j] == h[j + 1]);
        }
        assert(h.drop_first()[i - 1] == h[i]);
        lemma_find_header_first(h.drop_first(), name, i - 1);
    }
}

/// Finds the first header with the given name.
pub fn find_header(headers: &Vec<HeaderPair>, name: &[u8]) -> (r: Option<usize>)
    ensures
        r matches Some(i) ==> i == spec_find_header(spec_headers(headers@), name@),
        r is None ==> spec_find_header(spec_headers(headers@), name@) == -1,
{
    let ghost gh = spec_headers(headers@);
    let mut i: usize = 0;
    while i < headers.len()
        invariant
            i <= headers@.len(),
            gh == spec_headers(headers@),
            gh.len() == headers@.len(),
            forall|j: int| 0 <= j < i ==> gh[j].name != name@,
        decreases headers@.len() - i,
    {
        if bytes_eq(headers[i].name.as_slice(), name) {
            proof {
                assert(gh[i as int] == headers@[i as int]@);
                lemma_find_header_first(gh, name@, i as int);
            }
            return Some(i);
        }
        proof {
            assert(gh[i as int] == headers@[i as int]@);
        }
        i = i + 1;
    }
    proof {
        lemma_no_name_not_found(gh, name@);
    }
    None
}

/// Removes every header with the given name, returning the value the first
/// of them carried, if any.
pub fn strip_header(headers: &mut Vec<HeaderPair>, name: &[u8]) -> (first: Option<Vec<u8>>)
    ensures
        spec_headers(final(headers)@) == spec_without_header(spec_headers(old(headers)@), name@),
        spec_find_header(spec_headers(old(headers)@), name@) == -1 <==> first is None,
        first matches Some(v) ==> v@ == spec_header_value(spec_headers(old(headers)@), name@)
            ->Some_0,
{
    let ghost orig = spec_headers(headers@);
    let mut kept: Vec<HeaderPair> = Vec::new();
    let mut first: Option<Vec<u8>> = None;
    let mut i: usize = 0;
    proof {
        assert(orig.skip(0) =~= orig);
        assert(Seq::<GhostHeader>::empty() + spec_without_header(orig, name@)
            =~= spec_without_header(orig, name@));
        lemma_find_header(orig, name@);
    }
    while i < headers.len()
        invariant
            i <= orig.len(),
            spec_headers(headers@) == orig,
            headers@.len() == orig.len(),
            spec_without_header(orig, name@) == spec_headers(kept@) + spec_without_header(
                orig.skip(i as int),
                name@,
            ),
            ({
                let fi = spec_find_header(orig, name@);
                &&& (first is None <==> (fi == -1 || fi >= i))
                &&& (first matches Some(v) ==> fi != -1 && fi < i && v@ == orig[fi].value)
            }),
            spec_find_header(orig, name@) != -1 ==> 0 <= spec_find_header(orig, name@)
                < orig.len() && orig[spec_find_header(orig, name@)].name == name@ && (forall|
                j: int,
            | 0 <= j < spec_find_header(orig, name@) ==> orig[j].name != name@),
            spec_find_header(orig, name@) == -1 ==> forall|j: int|
                0 <= j < orig.len() ==> orig[j].name != name@,
        decreases orig.len() - i,
    {
        let is_match = bytes_eq(headers[i].name.as_slice(), name);
        proof {
            assert(orig[i as int] == headers@[i as int]@);
            assert(orig.skip(i as int)[0] == orig[i as int]);
            assert(orig.skip(i as int).drop_first() =~= orig.skip(i + 1));
        }
        if is_match {
            if first.is_none() {
                proof {
                    lemma_find_header_first(orig, name@, i as int);
                }
                first = Some(copy_bytes(&headers[i].value));
            }
        } else {
            proof {
                assert(spec_without_header(orig.skip(i as int), name@) =~= seq![orig[i as int]]
                    + spec_without_header(orig.skip(i + 1), name@));
            }
            let pair = HeaderPair {
                name: copy_bytes(&headers[i].name),
                value: copy_bytes(&headers[i].value),
            };
            proof {
                assert(pair@ == orig[i as int]);
            }
            kept.push(pair);
            proof {
                assert(spec_headers(kept@) =~= spec_headers(kept@.drop_last()).push(
                    orig[i as int],
                ));
                assert(spec_headers(kept@) + spec_without_header(orig.skip(i + 1), name@)
                    =~= spec_without_header(orig, name@));
            }
        }
        i = i + 1;
    }
    proof {
        assert(orig.skip(orig.len() as int) =~= Seq::empty());
        assert(spec_headers(kept@) + spec_without_header(orig.skip(orig.len() as int), name@)
            =~= spec_headers(kept@));
    }
    *headers = kept;
    first
}

/// Restores HTTP/1 semantics on a request that an outbound proxy upgraded
/// to HTTP/2: when the request is HTTP/2 and carries the upgrade marker,
/// the version becomes HTTP/1 and the marker is stripped so it travels no
/// further. Any other request passes unchanged.
pub fn downgrade(req: &mut HttpRequest) -> (downgraded: bool)
    ensures
        final(req).authority@ == old(req).authority@,
        final(req).path@ == old(req).path@,
        ({
            let gh = spec_headers(old(req).headers@);
            if old(req).version is H2 && spec_find_header(gh, spec_orig_proto_name()) != -1 {
                &&& downgraded
                &&& final(req).version == Version::Http1
                &&& spec_headers(final(req).headers@) == spec_without_header(
                    gh,
                    spec_orig_proto_name(),
                )
            } else {
                &&& !downgraded
                &&& final(req).version == old(req).version
                &&& spec_headers(final(req).headers@) == gh
            }
        }),
{
    if !matches!(req.version, Version::H2) {
        return false;
    }
    let marker = orig_proto_name();
    match find_header(&req.headers, marker.as_slice()) {
        Some(_) => {
            strip_header(&mut req.headers, marker.as_slice());
            req.version = Version::Http1;
            true
        },
        None => false,
    }
}

/// Normalizes an origin-form request: a request without an authority takes
/// it from the `host` header, when one is present.
pub fn normalize_uri(req: &mut HttpRequest)
    ensures
        final(req).version == old(req).version,
        final(req).path@ == old(req).path@,
        spec_headers(final(req).headers@) == spec_headers(old(req).headers@),
        ({
            let gh = spec_headers(old(req).headers@);
            if old(req).authority@.len() > 0 {
                final(req).authority@ == old(req).authority@
            } else {
                match spec_header_value(gh, spec_host_name()) {
                    Some(v) => final(req).authority@ == v,
                    None => final(req).authority@ == old(req).authority@,
                }
            }
        }),
{
    if req.authority.len() > 0 {
        return ;
    }
    let host = host_name();
    match find_header(&req.headers, host.as_slice()) {
        Some(i) => {
            proof {
                lemma_find_header(spec_headers(req.headers@), spec_host_name());
                assert(spec_headers(req.headers@)[i as int] == req.headers@[i as int]@);
            }
            req.authority = copy_bytes(&req.headers[i].value);
        },
        None => {},
    }
}

/// The logical target a request is routed to: the connection's original
/// destination, the destination name the override header carried (if any),
/// and the request's HTTP version.
#[derive(Debug)]
pub struct RequestTarget {
    pub orig_dst: SockAddr,
    pub name_override: Option<Vec<u8>>,
    pub version: Version,
}

/// Derives the request's logical target and consumes the override header:
/// after derivation the header is gone from the request, so it never leaks
/// upstream.
pub fn derive_request_target(req: &mut HttpRequest, orig_dst: SockAddr) -> (t: RequestTarget)
    ensures
        t.orig_dst == orig_dst,
        t.version == old(req).version,
        final(req).version == old(req).version,
        final(req).authority@ == old(req).authority@,
        final(req).path@ == old(req).path@,
        spec_headers(final(req).headers@) == spec_without_header(
            spec_headers(old(req).headers@),
            spec_dst_override_name(),
        ),
        spec_find_header(spec_headers(final(req).headers@), spec_dst_override_name()) == -1,
        t.name_override is None <==> spec_find_header(
            spec_headers(old(req).headers@),
            spec_dst_override_name(),
        ) == -1,
        t.name_override matches Some(v) ==> v@ == spec_header_value(
            spec_headers(old(req).headers@),
            spec_dst_override_name(),
        )->Some_0,
{
    let name = dst_override_name();
    let name_override = strip_header(&mut req.headers, name.as_slice());
    proof {
        lemma_without_header_gone(spec_headers(old(req).headers@), spec_dst_override_name());
    }
    RequestTarget { orig_dst, name_override, version: req.version }
}

/// The internal error kinds an HTTP context can answer for.
#[derive(Clone, Copy, Debug, PartialEq, Eq, Structural)]
pub enum HttpErrorKind {
    /// Connecting to the upstream endpoint failed after retries.
    ConnectFailure,
    /// The inner stack stayed unready for the whole dispatch timeout.
    DispatchTimeout,
    /// The fail-fast gate tripped on a full buffer.
    OverCapacity,
    /// The upstream spoke a protocol the client cannot carry.
    UpstreamProtocol,
    /// Shutdown is draining this server; the request was not admitted.
    DrainClosing,
}

/// The status synthesized for an internal error: bad-gateway for upstream
/// faults, service-unavailable for capacity, dispatch and drain conditions.
pub open spec fn spec_synth_status(e: HttpErrorKind) -> u16 {
    match e {
        HttpErrorKind::ConnectFailure => 502,
        HttpErrorKind::DispatchTimeout => 503,
        HttpErrorKind::OverCapacity => 503,
        HttpErrorKind::UpstreamProtocol => 502,
        HttpErrorKind::DrainClosing => 503,
    }
}

/// Synthesizes the response status for an internal error.
pub fn synthesize_status(e: &HttpErrorKind) -> (s: u16)
    ensures
        s == spec_synth_status(*e),
{
    match e {
        HttpErrorKind::ConnectFailure => 502,
        HttpErrorKind::DispatchTimeout => 503,
        HttpErrorKind::OverCapacity => 503,
        HttpErrorKind::UpstreamProtocol => 502,
        HttpErrorKind::DrainClosing => 503,
    }
}

/// Whether a synthesized failure may be retried by the client: every
/// service-unavailable condition may, a bad gateway may not.
pub fn is_retriable(e: &HttpErrorKind) -> (r: bool)
    ensures
        r == (spec_synth_status(*e) == 503),
{
    match e {
        HttpErrorKind::ConnectFailure => false,
        HttpErrorKind::DispatchTimeout => true,
        HttpErrorKind::OverCapacity => true,
        HttpErrorKind::UpstreamProtocol => false,
        HttpErrorKind::DrainClosing => true,
    }
}

/// How the server pipeline answered one request.
#[derive(Clone, Copy, Debug, PartialEq, Eq, Structural)]
pub enum ServeOutcome {
    /// A response with this status went to the client.
    Response(u16),
    /// The request waits — backpressured by the concurrency limit or by an
    /// inner stack not yet past its dispatch timeout — and is offered
    /// again.
    Pending,
}

/// One pass of a request through the server pipeline's admission layers,
/// outer to inner: a draining server refuses it with a retriable
/// service-unavailable response; a full concurrency limit blocks it; the
/// fail-fast gate either lets it reach the upstream — whose status is
/// relayed — or, once the inner stack has been unready for the whole
/// dispatch timeout, fails it with a retriable service-unavailable
/// response. Every response is recorded in the status counters and carries
/// one retention handle of the drain token, released when its body has been
/// transmitted.
pub fn serve_request(
    drain: &mut DrainState,
    gate: &mut FailFast,
    metrics: &mut StatusCounters,
    limit_ready: bool,
    inner_ready: bool,
    now: u64,
    upstream_status: u16,
) -> (r: ServeOutcome)
    requires
        old(metrics).wf(),
        upstream_status < STATUS_SPACE,
    ensures
        final(metrics).wf(),
        final(drain).closing == old(drain).closing,
        old(drain).closing ==> {
            &&& r == ServeOutcome::Response(spec_synth_status(HttpErrorKind::DrainClosing))
            &&& *final(gate) == *old(gate)
            &&& *final(drain) == spec_drain_step(*old(drain), DrainOp::Retain)
            &&& final(metrics).spec_count(503) == spec_sat_inc64(old(metrics).spec_count(503))
            &&& forall|c: u16|
                c < STATUS_SPACE && c != 503 ==> final(metrics).spec_count(c) == old(
                    metrics,
                ).spec_count(c)
        },
        !old(drain).closing && !limit_ready ==> {
            &&& r == ServeOutcome::Pending
            &&& *final(gate) == *old(gate)
            &&& *final(drain) == *old(drain)
            &&& forall|c: u16|
                c < STATUS_SPACE ==> final(metrics).spec_count(c) == old(metrics).spec_count(c)
        },
        !old(drain).closing && limit_ready ==> {
            let (g2, p) = spec_gate_step(*old(gate), inner_ready, now);
            &&& *final(gate) == g2
            &&& (p is Admit ==> {
                &&& r == ServeOutcome::Response(upstream_status)
                &&& *final(drain) == spec_drain_step(*old(drain), DrainOp::Retain)
                &&& final(metrics).spec_count(upstream_status) == spec_sat_inc64(
                    old(metrics).spec_count(upstream_status),
                )
                &&& forall|c: u16|
                    c < STATUS_SPACE && c != upstream_status ==> final(metrics).spec_count(c)
                        == old(metrics).spec_count(c)
            })
            &&& (p is Pending ==> {
                &&& r == ServeOutcome::Pending
                &&& *final(drain) == *old(drain)
                &&& forall|c: u16|
                    c < STATUS_SPACE ==> final(metrics).spec_count(c) == old(
                        metrics,
                    ).spec_count(c)
            })
            &&& (p is Fail ==> {
                &&& r == ServeOutcome::Response(
                    spec_synth_status(HttpErrorKind::DispatchTimeout),
                )
                &&& *final(drain) == spec_drain_step(*old(drain), DrainOp::Retain)
                &&& final(metrics).spec_count(503) == spec_sat_inc64(
                    old(metrics).spec_count(503),
                )
                &&& forall|c: u16|
                    c < STATUS_SPACE && c != 503 ==> final(metrics).spec_count(c) == old(
                        metrics,
                    ).spec_count(c)
            })
        },
{
    if !drain.accepts_new() {
        let status = synthesize_status(&HttpErrorKind::DrainClosing);
        metrics.record(status);
        drain.retain();
        return ServeOutcome::Response(status);
    }
    if !limit_ready {
        return ServeOutcome::Pending;
    }
    match gate.poll(inner_ready, now) {
        GatePoll::Admit => {
            metrics.record(upstream_status);
            drain.retain();
            ServeOutcome::Response(upstream_status)
        },
        GatePoll::Pending => ServeOutcome::Pending,
        GatePoll::Fail => {
            let status = synthesize_status(&HttpErrorKind::DispatchTimeout);
            metrics.record(status);
            drain.retain();
            ServeOutcome::Response(status)
        },
    }
}

/// Drain resolution: once shutdown was signalled, no sequence of further
/// operations reopens the token, so no new request is ever admitted again;
/// and a request already pending on an unready stack is answered — with a
/// retriable service-unavailable status — as soon as the dispatch timeout
/// has elapsed, rather than kept waiting.
pub proof fn lemma_drain_resolution(
    d: DrainState,
    ops: Seq<DrainOp>,
    g: FailFast,
    t: u64,
    now: u64,
)
    requires
        d.closing,
        g.state == (GateState::Unready { since: t }),
        t + g.timeout_ms <= now,
    ensures
        spec_drain_run(d, ops).closing,
        spec_gate_step(g, false, now).1 == GatePoll::Fail,
        spec_synth_status(HttpErrorKind::DispatchTimeout) == 503,
        spec_synth_status(HttpErrorKind::DrainClosing) == 503,
{
    lemma_drain_monotone(d, ops);
}

} // verus!
