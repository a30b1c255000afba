use inbound_proxy::addr::{
    AcceptAddrs, ClientAddr, IpAddress, Keepalive, ListenAddr, Local, OrigDstAddr, Remote,
    ServerAddr, SockAddr,
};
use inbound_proxy::backoff::ExponentialBackoff;
use inbound_proxy::config::{ConnectConfig, H1PoolSettings, H2Settings, ProxyConfig, ServerConfig};
use inbound_proxy::dispatch::{Config, Dispatch, RefusalReason, TlsStatus};
use inbound_proxy::names::{suffix_matches, NameMatch};
use inbound_proxy::ports::{RequireIdentityForPorts, SkipByPort};

fn v4(a: u8, b: u8, c: u8, d: u8, port: u16) -> SockAddr {
    let ip = ((a as u32) << 24) | ((b as u32) << 16) | ((c as u32) << 8) | (d as u32);
    SockAddr { ip: IpAddress::V4(ip), port }
}

#[test]
fn suffix_matching_is_by_whole_labels() {
    assert!(suffix_matches(b"example.com", b"example.com"));
    assert!(suffix_matches(b"a.example.com", b"example.com"));
    assert!(suffix_matches(b"b.a.example.com", b"example.com"));
    // A partial label does not count.
    assert!(!suffix_matches(b"notexample.com", b"example.com"));
    assert!(!suffix_matches(b"example.com.evil", b"example.com"));
    assert!(!suffix_matches(b"com", b"example.com"));
}

#[test]
fn name_match_allows_only_configured_domains() {
    let m = NameMatch::new(vec![b"cluster.local".to_vec(), b"example.com".to_vec()]);
    assert!(m.matches(b"web.ns.svc.cluster.local"));
    assert!(m.matches(b"example.com"));
    assert!(!m.matches(b"other.org"));
    assert!(!NameMatch::new(Vec::new()).matches(b"web.ns.svc.cluster.local"));
}

fn proxy_config() -> ProxyConfig {
    ProxyConfig {
        server: ServerConfig {
            addr: ListenAddr(v4(0, 0, 0, 0, 4143)),
            keepalive: Keepalive(Some(10_000)),
            h2_settings: H2Settings {
                initial_stream_window_size: 65535,
                initial_connection_window_size: 1048576,
            },
        },
        connect: ConnectConfig {
            backoff: ExponentialBackoff { min_ms: 100, max_ms: 3000 },
            timeout_ms: 1000,
            keepalive: None,
            h1_settings: H1PoolSettings { max_idle: 32, idle_timeout_ms: 30_000 },
            h2_settings: H2Settings {
                initial_stream_window_size: 65535,
                initial_connection_window_size: 1048576,
            },
        },
        buffer_capacity: 10_000,
        cache_max_idle_age_ms: 10_000,
        dispatch_timeout_ms: 3000,
        max_in_flight_requests: 10_000,
        detect_protocol_timeout_ms: 10_000,
    }
}

#[test]
fn config_dispatch_applies_its_port_sets() {
    let config = Config {
        proxy: proxy_config(),
        require_identity_for_inbound_ports: RequireIdentityForPorts::from_ports(&vec![4143]),
        disable_protocol_detection_for_ports: SkipByPort::from_ports(&vec![3306]),
        allow_discovery: NameMatch::new(vec![b"cluster.local".to_vec()]),
        profile_idle_timeout_ms: 500,
    };
    let addrs = AcceptAddrs {
        local: Local(ServerAddr(v4(127, 0, 0, 1, 4143))),
        client: Remote(ClientAddr(v4(10, 0, 0, 9, 55555))),
        orig_dst: Some(OrigDstAddr(v4(10, 0, 0, 2, 3306))),
    };
    // The skip port forwards opaquely even though identity would be absent.
    let d = config.dispatch_conn(4143, &addrs, &TlsStatus::Passthrough, b"\x00", false);
    assert!(matches!(d, Dispatch::ForwardTcp { .. }));
    // On a detected port, the identity demand applies.
    let addrs2 = AcceptAddrs { orig_dst: Some(OrigDstAddr(v4(10, 0, 0, 2, 4143))), ..addrs };
    let d2 = config.dispatch_conn(9999, &addrs2, &TlsStatus::Passthrough, b"GET ", false);
    assert!(matches!(
        d2,
        Dispatch::Refuse { reason: RefusalReason::IdentityRequired }
    ));
}
