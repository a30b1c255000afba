use inbound_proxy::addr::{
    AcceptAddrs, ClientAddr, IpAddress, Local, OrigDstAddr, Remote, ServerAddr, SockAddr,
};
use inbound_proxy::orig_dst::{
    decode_sockaddr, ntoh16, ntoh32, MockOrigDstAddr, OrigDstError, AF_INET, AF_INET6,
};

fn v4(a: u8, b: u8, c: u8, d: u8, port: u16) -> SockAddr {
    let ip = ((a as u32) << 24) | ((b as u32) << 16) | ((c as u32) << 8) | (d as u32);
    SockAddr { ip: IpAddress::V4(ip), port }
}

fn addrs(local: SockAddr, client: SockAddr, orig: Option<SockAddr>) -> AcceptAddrs {
    AcceptAddrs {
        local: Local(ServerAddr(local)),
        client: Remote(ClientAddr(client)),
        orig_dst: orig.map(OrigDstAddr),
    }
}

#[test]
fn target_addr_prefers_original_destination() {
    let a = addrs(
        v4(127, 0, 0, 1, 4143),
        v4(10, 0, 0, 9, 55555),
        Some(v4(10, 0, 0, 2, 8080)),
    );
    assert_eq!(a.target_addr(), v4(10, 0, 0, 2, 8080));
}

#[test]
fn target_addr_falls_back_to_local() {
    let a = addrs(v4(127, 0, 0, 1, 4143), v4(10, 0, 0, 9, 55555), None);
    assert_eq!(a.target_addr(), v4(127, 0, 0, 1, 4143));
}

#[test]
fn loopback_is_127_0_0_1() {
    assert_eq!(SockAddr::loopback(8080), v4(127, 0, 0, 1, 8080));
}

#[test]
fn ntoh16_swaps_bytes() {
    assert_eq!(ntoh16(0x1f90), 0x901f);
    assert_eq!(ntoh16(0x901f), 0x1f90);
    assert_eq!(ntoh16(0), 0);
    assert_eq!(ntoh16(0x00ff), 0xff00);
}

#[test]
fn ntoh32_reverses_bytes() {
    assert_eq!(ntoh32(0x0a000002), 0x0200000a);
    assert_eq!(ntoh32(0x01020304), 0x04030201);
    assert_eq!(ntoh32(0), 0);
}

#[test]
fn decode_ipv4_sockaddr() {
    // sockaddr_in for 10.0.0.2:8080 — family, port 0x1f90, address 10.0.0.2.
    let mut raw = vec![0u8; 16];
    raw[0] = AF_INET as u8;
    raw[2] = 0x1f;
    raw[3] = 0x90;
    raw[4] = 10;
    raw[5] = 0;
    raw[6] = 0;
    raw[7] = 2;
    let got = decode_sockaddr(AF_INET, &raw).unwrap();
    assert_eq!(got, v4(10, 0, 0, 2, 8080));
}

#[test]
fn decode_ipv6_sockaddr() {
    // sockaddr_in6 for [::1]:443.
    let mut raw = vec![0u8; 28];
    raw[0] = AF_INET6 as u8;
    raw[2] = 0x01;
    raw[3] = 0xbb;
    raw[23] = 1;
    let got = decode_sockaddr(AF_INET6, &raw).unwrap();
    assert_eq!(
        got,
        SockAddr { ip: IpAddress::V6(1), port: 443 }
    );
}

#[test]
fn decode_rejects_other_families() {
    let raw = vec![0u8; 32];
    assert_eq!(
        decode_sockaddr(1, &raw),
        Err(OrigDstError::UnsupportedFamily)
    );
    assert_eq!(
        decode_sockaddr(0, &raw),
        Err(OrigDstError::UnsupportedFamily)
    );
}

#[test]
fn mock_resolver_returns_fixed_address() {
    let fixed = v4(10, 0, 0, 2, 8080);
    let mock = MockOrigDstAddr::new(fixed);
    assert_eq!(mock.orig_dst_addr(), Ok(OrigDstAddr(fixed)));
}
