use inbound_proxy::addr::{
    AcceptAddrs, ClientAddr, IpAddress, Local, OrigDstAddr, Remote, ServerAddr, SockAddr,
};
use inbound_proxy::dispatch::{dispatch, Dispatch, RefusalReason, TlsStatus};
use inbound_proxy::metrics::RefusalCounters;
use inbound_proxy::opaque::{encode_header, SessionProtocol, TransportHeader};
use inbound_proxy::ports::{RequireIdentityForPorts, SkipByPort};
use inbound_proxy::detect::Version;

fn v4(a: u8, b: u8, c: u8, d: u8, port: u16) -> SockAddr {
    let ip = ((a as u32) << 24) | ((b as u32) << 16) | ((c as u32) << 8) | (d as u32);
    SockAddr { ip: IpAddress::V4(ip), port }
}

fn accepted(listen_port: u16, orig: SockAddr) -> AcceptAddrs {
    AcceptAddrs {
        local: Local(ServerAddr(v4(127, 0, 0, 1, listen_port))),
        client: Remote(ClientAddr(v4(10, 0, 0, 9, 55555))),
        orig_dst: Some(OrigDstAddr(orig)),
    }
}

const LISTEN_PORT: u16 = 4143;

fn no_skip() -> SkipByPort {
    SkipByPort::empty()
}

fn no_identity() -> RequireIdentityForPorts {
    RequireIdentityForPorts::empty()
}

#[test]
fn http1_request_reaches_the_http_pipeline() {
    // A peer reaches a plain HTTP service behind the proxy: the request is
    // served as HTTP/1 for the original destination.
    let addrs = accepted(LISTEN_PORT, v4(10, 0, 0, 2, 8080));
    let prefix = b"GET / HTTP/1.1\r\nHost: x\r\n\r\n";
    let d = dispatch(
        LISTEN_PORT,
        &no_skip(),
        &no_identity(),
        &addrs,
        &TlsStatus::Passthrough,
        prefix,
        false,
    );
    match d {
        Dispatch::ServeHttp { version, target, replay } => {
            assert_eq!(version, Version::Http1);
            assert_eq!(target, v4(10, 0, 0, 2, 8080));
            assert_eq!(replay, prefix.to_vec());
        }
        other => panic!("expected the HTTP pipeline, got {:?}", other),
    }
}

#[test]
fn opaque_header_on_own_port_is_forwarded_to_inner_endpoint() {
    // A self-connection announcing HTTP/2 and inner port 8080 reaches the
    // direct path and is forwarded opaquely to loopback:8080.
    let addrs = accepted(LISTEN_PORT, v4(10, 0, 0, 1, LISTEN_PORT));
    let h = TransportHeader {
        port: 8080,
        protocol: Some(SessionProtocol::Http2),
        identity: b"peer.example".to_vec(),
    };
    let mut wire = encode_header(&h);
    wire.extend_from_slice(b"payload");
    let d = dispatch(
        LISTEN_PORT,
        &no_skip(),
        &no_identity(),
        &addrs,
        &TlsStatus::Terminated(b"peer.example".to_vec()),
        &wire,
        false,
    );
    match d {
        Dispatch::ForwardOpaque { header, target, replay } => {
            assert_eq!(header.port, 8080);
            assert_eq!(header.protocol, Some(SessionProtocol::Http2));
            assert_eq!(target, v4(127, 0, 0, 1, 8080));
            assert_eq!(replay, b"payload".to_vec());
        }
        other => panic!("expected an opaque forward, got {:?}", other),
    }
}

#[test]
fn non_opaque_connection_on_own_port_is_refused() {
    // A self-connection without the opaque header is refused, never routed.
    let addrs = accepted(LISTEN_PORT, v4(10, 0, 0, 1, LISTEN_PORT));
    let d = dispatch(
        LISTEN_PORT,
        &no_skip(),
        &no_identity(),
        &addrs,
        &TlsStatus::Passthrough,
        b"GET / HTTP/1.1\r\nHost: x\r\n\r\n",
        false,
    );
    match d {
        Dispatch::Refuse { reason } => assert_eq!(reason, RefusalReason::NonOpaque),
        other => panic!("expected a refusal, got {:?}", other),
    }
    let mut counters = RefusalCounters::new();
    counters.record(RefusalReason::NonOpaque);
    assert_eq!(counters.non_opaque, 1);
}

#[test]
fn plain_connection_on_identity_port_is_refused() {
    // With identity required on 4143, a plain connection to 4143 is refused.
    let require = RequireIdentityForPorts::from_ports(&vec![4143]);
    let addrs = accepted(LISTEN_PORT, v4(10, 0, 0, 2, 4143));
    let d = dispatch(
        LISTEN_PORT,
        &no_skip(),
        &require,
        &addrs,
        &TlsStatus::Passthrough,
        b"GET / HTTP/1.1\r\n",
        false,
    );
    match d {
        Dispatch::Refuse { reason } => assert_eq!(reason, RefusalReason::IdentityRequired),
        other => panic!("expected a refusal, got {:?}", other),
    }
    let mut counters = RefusalCounters::new();
    counters.record(RefusalReason::IdentityRequired);
    assert_eq!(counters.identity_required, 1);
}

#[test]
fn identified_connection_on_identity_port_is_served() {
    let require = RequireIdentityForPorts::from_ports(&vec![4143]);
    let addrs = accepted(LISTEN_PORT, v4(10, 0, 0, 2, 4143));
    let d = dispatch(
        9999,
        &no_skip(),
        &require,
        &addrs,
        &TlsStatus::Terminated(b"client.example".to_vec()),
        b"GET / HTTP/1.1\r\n",
        false,
    );
    assert!(matches!(d, Dispatch::ServeHttp { .. }));
}

#[test]
fn silent_connection_times_out_and_is_refused() {
    // A peer that sends nothing: once the detection deadline passes, the
    // connection is refused and the timeout counter grows.
    let addrs = accepted(LISTEN_PORT, v4(10, 0, 0, 2, 8080));
    let pending = dispatch(
        LISTEN_PORT,
        &no_skip(),
        &no_identity(),
        &addrs,
        &TlsStatus::Passthrough,
        b"",
        false,
    );
    assert!(matches!(pending, Dispatch::NeedMore));
    let d = dispatch(
        LISTEN_PORT,
        &no_skip(),
        &no_identity(),
        &addrs,
        &TlsStatus::Passthrough,
        b"",
        true,
    );
    match d {
        Dispatch::Refuse { reason } => assert_eq!(reason, RefusalReason::DetectTimeout),
        other => panic!("expected a refusal, got {:?}", other),
    }
    let mut counters = RefusalCounters::new();
    counters.record(RefusalReason::DetectTimeout);
    assert_eq!(counters.detect_timeout, 1);
}

#[test]
fn skip_port_bypasses_detection_and_identity() {
    let skip = SkipByPort::from_ports(&vec![3306]);
    let require = RequireIdentityForPorts::from_ports(&vec![3306]);
    let addrs = accepted(LISTEN_PORT, v4(10, 0, 0, 2, 3306));
    let d = dispatch(
        LISTEN_PORT,
        &skip,
        &require,
        &addrs,
        &TlsStatus::Passthrough,
        b"\x00\x01binary",
        false,
    );
    match d {
        Dispatch::ForwardTcp { target, replay } => {
            assert_eq!(target, v4(10, 0, 0, 2, 3306));
            assert_eq!(replay, b"\x00\x01binary".to_vec());
        }
        other => panic!("expected an opaque forward, got {:?}", other),
    }
}

#[test]
fn non_http_bytes_are_forwarded_opaquely() {
    let addrs = accepted(LISTEN_PORT, v4(10, 0, 0, 2, 6379));
    let d = dispatch(
        LISTEN_PORT,
        &no_skip(),
        &no_identity(),
        &addrs,
        &TlsStatus::Passthrough,
        &[0x2a, 0x31, 0x0d, 0x0a],
        false,
    );
    match d {
        Dispatch::ForwardTcp { target, replay } => {
            assert_eq!(target, v4(10, 0, 0, 2, 6379));
            assert_eq!(replay, vec![0x2a, 0x31, 0x0d, 0x0a]);
        }
        other => panic!("expected an opaque forward, got {:?}", other),
    }
}
