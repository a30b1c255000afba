use inbound_proxy::detect::{match_http, match_tls, HttpMatch, TlsMatch, Version};

const H2_PREFACE: &[u8] = &[
    0x50, 0x52, 0x49, 0x20, 0x2a, 0x20, 0x48, 0x54, 0x54, 0x50, 0x2f, 0x32, 0x2e, 0x30, 0x0d,
    0x0a, 0x0d, 0x0a, 0x53, 0x4d, 0x0d, 0x0a, 0x0d, 0x0a,
];

#[test]
fn full_h2_preface_matches_h2() {
    assert_eq!(match_http(H2_PREFACE), HttpMatch::Matched(Version::H2));
}

#[test]
fn h2_preface_followed_by_frames_matches_h2() {
    let mut buf = H2_PREFACE.to_vec();
    buf.extend_from_slice(&[0, 0, 0, 4, 0]);
    assert_eq!(match_http(&buf), HttpMatch::Matched(Version::H2));
}

#[test]
fn get_request_line_matches_http1() {
    assert_eq!(
        match_http(b"GET / HTTP/1.1\r\nHost: x\r\n\r\n"),
        HttpMatch::Matched(Version::Http1)
    );
}

#[test]
fn options_request_line_matches_http1() {
    assert_eq!(
        match_http(b"OPTIONS * HTTP/1.1\r\n"),
        HttpMatch::Matched(Version::Http1)
    );
}

#[test]
fn empty_prefix_needs_more() {
    assert_eq!(match_http(b""), HttpMatch::Need(1));
}

#[test]
fn preface_prefix_needs_more() {
    assert_eq!(match_http(&H2_PREFACE[..16]), HttpMatch::Need(1));
    assert_eq!(match_http(b"P"), HttpMatch::Need(1));
}

#[test]
fn partial_method_needs_more() {
    assert_eq!(match_http(b"GE"), HttpMatch::Need(1));
    assert_eq!(match_http(b"DELETE"), HttpMatch::Need(1));
}

#[test]
fn binary_junk_is_no_match() {
    assert_eq!(match_http(&[0x16, 0x03, 0x01, 0x00]), HttpMatch::NoMatch);
    assert_eq!(match_http(&[0x00, 0x01]), HttpMatch::NoMatch);
}

#[test]
fn overlong_method_is_no_match() {
    assert_eq!(match_http(b"ABCDEFGHIJKL / HTTP/1.1"), HttpMatch::NoMatch);
}

#[test]
fn leading_space_is_no_match() {
    assert_eq!(match_http(b" GET / HTTP/1.1"), HttpMatch::NoMatch);
}

#[test]
fn lowercase_method_is_no_match() {
    assert_eq!(match_http(b"get / HTTP/1.1"), HttpMatch::NoMatch);
}

#[test]
fn client_hello_matches_tls() {
    assert_eq!(match_tls(&[0x16, 0x03, 0x01, 0x02, 0x00]), TlsMatch::Matched);
}

#[test]
fn non_tls_first_byte_is_no_match() {
    assert_eq!(match_tls(b"GET "), TlsMatch::NoMatch);
}

#[test]
fn tls_wrong_version_major_is_no_match() {
    assert_eq!(match_tls(&[0x16, 0x02]), TlsMatch::NoMatch);
}

#[test]
fn short_tls_prefix_needs_more() {
    assert_eq!(match_tls(&[]), TlsMatch::Need(2));
    assert_eq!(match_tls(&[0x16]), TlsMatch::Need(1));
}
