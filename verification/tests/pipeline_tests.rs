use inbound_proxy::addr::{
    AcceptAddrs, ClientAddr, IpAddress, Local, ListenAddr, OrigDstAddr, Remote, ServerAddr,
    SockAddr,
};
use inbound_proxy::admin::{admin_dispatch, AdminDecision, AdminHttpOnly};
use inbound_proxy::client::{Client, ClientRoute, MakeClientLayer};
use inbound_proxy::config::H2Settings;
use inbound_proxy::detect::Version;
use inbound_proxy::ports::{RequireIdentityForPorts, SkipByPort};
use inbound_proxy::dispatch::RefusalReason;
use inbound_proxy::listen::{BindTcp, OrigDstMode};
use inbound_proxy::prevent_loop::{LoopCheck, LoopPrevented, PreventLoop};
use inbound_proxy::serve::{exit_code, serve_step, ProcessEnd, ServeAction, ServeEvent};
use inbound_proxy::text::{trace_labels, u16_to_decimal};

fn v4(a: u8, b: u8, c: u8, d: u8, port: u16) -> SockAddr {
    let ip = ((a as u32) << 24) | ((b as u32) << 16) | ((c as u32) << 8) | (d as u32);
    SockAddr { ip: IpAddress::V4(ip), port }
}

#[test]
fn prevent_loop_routes_own_port_to_the_direct_path() {
    let check = PreventLoop::from_port(4143);
    assert_eq!(check.check(v4(10, 0, 0, 1, 4143)), LoopCheck::Direct);
    assert_eq!(check.check(v4(10, 0, 0, 1, 8080)), LoopCheck::Primary);
}

#[test]
fn prevent_loop_refuses_own_port_as_endpoint() {
    let check = PreventLoop::from_port(4143);
    assert_eq!(check.check_endpoint(8080), Ok(8080));
    assert_eq!(check.check_endpoint(4143), Err(LoopPrevented { port: 4143 }));
}

#[test]
fn loop_prevented_message_names_the_port() {
    let e = LoopPrevented { port: 4143 };
    assert_eq!(
        e.message(),
        "inbound requests must not target localhost:4143"
    );
}

#[test]
fn decimal_rendering_is_exact() {
    assert_eq!(u16_to_decimal(0), "0");
    assert_eq!(u16_to_decimal(7), "7");
    assert_eq!(u16_to_decimal(10), "10");
    assert_eq!(u16_to_decimal(8080), "8080");
    assert_eq!(u16_to_decimal(65535), "65535");
}

#[test]
fn trace_labels_mark_the_inbound_direction() {
    let labels = trace_labels();
    assert_eq!(labels.len(), 1);
    assert_eq!(labels[0].0, "direction");
    assert_eq!(labels[0].1, "inbound");
}

#[test]
fn skip_ports_are_matched_exactly() {
    let skip = SkipByPort::from_ports(&vec![25, 587]);
    assert!(!skip.use_primary(25));
    assert!(!skip.use_primary(587));
    assert!(skip.use_primary(80));
    let copy = skip.duplicate();
    assert!(!copy.use_primary(25));
    assert!(copy.use_primary(80));
    assert!(SkipByPort::empty().use_primary(25));
}

#[test]
fn identity_ports_are_matched_exactly() {
    let req = RequireIdentityForPorts::from_ports(&vec![4143]);
    assert!(req.requires_identity(4143));
    assert!(!req.requires_identity(8080));
    let copy = req.duplicate();
    assert!(copy.requires_identity(4143));
    assert!(!RequireIdentityForPorts::empty().requires_identity(4143));
}

#[test]
fn serve_loop_spawns_connections_and_honors_shutdown() {
    let addrs = AcceptAddrs {
        local: Local(ServerAddr(v4(127, 0, 0, 1, 4143))),
        client: Remote(ClientAddr(v4(10, 0, 0, 9, 55555))),
        orig_dst: Some(OrigDstAddr(v4(10, 0, 0, 2, 8080))),
    };
    assert_eq!(
        serve_step(&ServeEvent::Conn(addrs)),
        ServeAction::Spawn(addrs)
    );
    assert_eq!(serve_step(&ServeEvent::Ended), ServeAction::ExitOk);
    assert_eq!(serve_step(&ServeEvent::Shutdown), ServeAction::ExitOk);
    assert_eq!(serve_step(&ServeEvent::AcceptFailed), ServeAction::ExitErr);
}

#[test]
fn exit_codes_are_fixed() {
    assert_eq!(exit_code(&ProcessEnd::GracefulDrain), 0);
    assert_eq!(exit_code(&ProcessEnd::BindFailure), 2);
    assert_eq!(exit_code(&ProcessEnd::IdentityLoadFailure), 3);
}

#[test]
fn admin_serves_http_and_refuses_the_rest() {
    assert_eq!(
        admin_dispatch(b"GET /ready HTTP/1.1\r\n", false),
        AdminDecision::Serve(Version::Http1)
    );
    assert_eq!(
        admin_dispatch(&[0x16, 0x03, 0x01], false),
        AdminDecision::RefuseNonHttp
    );
    assert_eq!(admin_dispatch(b"", false), AdminDecision::NeedMore);
    assert_eq!(admin_dispatch(b"", true), AdminDecision::RefuseTimeout);
}

#[test]
fn admin_refusal_message_is_fixed() {
    assert_eq!(AdminHttpOnly.message(), "proxy admin server is HTTP-only");
}

#[test]
fn client_builds_h2_only_for_h2_targets() {
    let settings = H2Settings {
        initial_stream_window_size: 65535,
        initial_connection_window_size: 1048576,
    };
    let make = MakeClientLayer::new(settings).layer();
    assert!(!make.needs_h2_connection(Version::Http1));
    assert!(make.needs_h2_connection(Version::H2));
    assert!(!make.client_for(Version::Http1).has_h2);
    assert!(make.client_for(Version::H2).has_h2);
}

#[test]
fn client_readiness_follows_the_h2_connection() {
    let h1 = Client { has_h2: false };
    assert!(h1.poll_ready(false));
    assert!(h1.poll_ready(true));
    let h2 = Client { has_h2: true };
    assert!(!h2.poll_ready(false));
    assert!(h2.poll_ready(true));
}

#[test]
fn client_routes_by_request_version() {
    let h2 = Client { has_h2: true };
    assert_eq!(h2.route(Version::H2), ClientRoute::UseH2);
    assert_eq!(h2.route(Version::Http1), ClientRoute::UseH1);
    let h1 = Client { has_h2: false };
    assert_eq!(h1.route(Version::H2), ClientRoute::UseH1);
    assert_eq!(h1.route(Version::Http1), ClientRoute::UseH1);
}

#[test]
fn listen_addr_wraps_a_socket_address() {
    let a = ListenAddr(v4(0, 0, 0, 0, 4143));
    assert_eq!(a.0.port, 4143);
}

#[test]
fn bind_tcp_keeps_its_settings() {
    let bind = BindTcp::new(v4(0, 0, 0, 0, 4143), Some(10_000));
    assert_eq!(bind.bind_addr(), ListenAddr(v4(0, 0, 0, 0, 4143)));
    assert_eq!(bind.keepalive(), Some(10_000));
    assert_eq!(bind.orig_dst, OrigDstMode::Disabled);
    let mocked = bind.with_orig_dst_addr(OrigDstMode::Mock(v4(10, 0, 0, 2, 8080)));
    assert_eq!(mocked.bind_addr(), ListenAddr(v4(0, 0, 0, 0, 4143)));
    assert_eq!(mocked.keepalive(), Some(10_000));
    assert_eq!(mocked.orig_dst, OrigDstMode::Mock(v4(10, 0, 0, 2, 8080)));
}

#[test]
fn refusal_messages_are_exact() {
    assert_eq!(
        RefusalReason::NonOpaque.message(),
        "Non-opaque connection refused"
    );
    assert_eq!(
        RefusalReason::DetectTimeout.message(),
        "protocol detection timed out"
    );
    assert_eq!(
        RefusalReason::IdentityRequired.message(),
        "identity required on this port"
    );
}
