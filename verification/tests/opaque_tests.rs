use inbound_proxy::opaque::{
    encode_header, match_header, HeaderMatch, SessionProtocol, TransportHeader, HEADER_MAGIC_0,
    HEADER_MAGIC_1, HEADER_MAGIC_2, HEADER_MAGIC_3,
};

fn header(port: u16, protocol: Option<SessionProtocol>, identity: &[u8]) -> TransportHeader {
    TransportHeader { port, protocol, identity: identity.to_vec() }
}

#[test]
fn round_trip_with_trailing_stream() {
    let h = header(8080, Some(SessionProtocol::Http2), b"client.example");
    let mut wire = encode_header(&h);
    let frame_len = wire.len();
    wire.extend_from_slice(b"tunnelled bytes");
    match match_header(&wire) {
        HeaderMatch::Matched(got, consumed) => {
            assert_eq!(got.port, 8080);
            assert_eq!(got.protocol, Some(SessionProtocol::Http2));
            assert_eq!(got.identity, b"client.example".to_vec());
            assert_eq!(consumed, frame_len);
            assert_eq!(&wire[consumed..], b"tunnelled bytes");
        }
        other => panic!("expected a match, got {:?}", other),
    }
}

#[test]
fn round_trip_anonymous_no_protocol() {
    let h = header(4143, None, b"");
    let wire = encode_header(&h);
    match match_header(&wire) {
        HeaderMatch::Matched(got, consumed) => {
            assert_eq!(got.port, 4143);
            assert_eq!(got.protocol, None);
            assert!(got.identity.is_empty());
            assert_eq!(consumed, wire.len());
        }
        other => panic!("expected a match, got {:?}", other),
    }
}

#[test]
fn wire_layout_is_magic_length_port_protocol_identity() {
    let h = header(0x1f90, Some(SessionProtocol::Http1), b"id");
    let wire = encode_header(&h);
    assert_eq!(
        wire,
        vec![
            HEADER_MAGIC_0,
            HEADER_MAGIC_1,
            HEADER_MAGIC_2,
            HEADER_MAGIC_3,
            0x00,
            0x05, // payload: port (2) + protocol (1) + identity (2)
            0x1f,
            0x90,
            0x01,
            b'i',
            b'd',
        ]
    );
}

#[test]
fn magic_mismatch_is_no_match() {
    assert!(matches!(match_header(b"GET / HTTP/1.1"), HeaderMatch::NoMatch));
    assert!(matches!(
        match_header(&[HEADER_MAGIC_0, 0xff]),
        HeaderMatch::NoMatch
    ));
}

#[test]
fn short_prefix_asks_for_missing_bytes() {
    assert!(matches!(match_header(b""), HeaderMatch::Need(6)));
    assert!(matches!(
        match_header(&[HEADER_MAGIC_0, HEADER_MAGIC_1]),
        HeaderMatch::Need(4)
    ));
    // A complete six-byte prefix announcing three payload bytes needs them.
    let prefix = [
        HEADER_MAGIC_0,
        HEADER_MAGIC_1,
        HEADER_MAGIC_2,
        HEADER_MAGIC_3,
        0x00,
        0x03,
    ];
    assert!(matches!(match_header(&prefix), HeaderMatch::Need(3)));
}

#[test]
fn oversize_payload_is_rejected() {
    // 2048 exceeds the fixed payload bound.
    let wire = [
        HEADER_MAGIC_0,
        HEADER_MAGIC_1,
        HEADER_MAGIC_2,
        HEADER_MAGIC_3,
        0x08,
        0x00,
    ];
    assert!(matches!(match_header(&wire), HeaderMatch::NoMatch));
}

#[test]
fn undersize_payload_is_rejected() {
    let wire = [
        HEADER_MAGIC_0,
        HEADER_MAGIC_1,
        HEADER_MAGIC_2,
        HEADER_MAGIC_3,
        0x00,
        0x02,
    ];
    assert!(matches!(match_header(&wire), HeaderMatch::NoMatch));
}

#[test]
fn unknown_protocol_tag_is_rejected() {
    let wire = [
        HEADER_MAGIC_0,
        HEADER_MAGIC_1,
        HEADER_MAGIC_2,
        HEADER_MAGIC_3,
        0x00,
        0x03,
        0x1f,
        0x90,
        0x07,
    ];
    assert!(matches!(match_header(&wire), HeaderMatch::NoMatch));
}
