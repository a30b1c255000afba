//! The opaque-transport header.
//!
//! Between two mesh proxies, application bytes may be preceded by a short
//! frame that preserves the endpoint identity and negotiated session protocol
//! across the tunnel: a fixed magic, a big-endian payload length, and a
//! payload carrying the inbound port, the session protocol, and the client
//! identity name (possibly empty). A frame whose payload length lies outside
//! the fixed bounds is rejected, never buffered.

use vstd::prelude::*;

verus! {

/// First magic byte of a transport header.
pub const HEADER_MAGIC_0: u8 = 0x6c;

/// Second magic byte of a transport header.
pub const HEADER_MAGIC_1: u8 = 0x35;

/// Third magic byte of a transport header.
pub const HEADER_MAGIC_2: u8 = 0x64;

/// Fourth magic byte of a transport header.
pub const HEADER_MAGIC_3: u8 = 0x31;

/// The largest payload a transport header may announce, in bytes.
pub const MAX_HEADER_PAYLOAD: u16 = 1024;

/// The payload bytes that precede the identity name: port (2) and protocol
/// tag (1).
pub const HEADER_FIXED_PAYLOAD: u16 = 3;

/// The bytes that precede the payload: magic (4) and payload length (2).
pub const HEADER_PREFIX_LEN: usize = 6;

/// The session protocol a transport header announces for the tunnelled
/// stream.
#[derive(Clone, Copy, Debug, PartialEq, Eq, Structural)]
pub enum SessionProtocol {
    Http1,
    Http2,
}

/// A decoded transport header: the port of the local endpoint the tunnel
/// targets, the session protocol if one was negotiated, and the client's
/// identity name (empty when anonymous).
#[derive(Clone, Debug)]
pub struct TransportHeader {
    pub port: u16,
    pub protocol: Option<SessionProtocol>,
    pub identity: Vec<u8>,
}

/// The mathematical value of a transport header.
pub ghost struct SpecHeader {
    pub port: u16,
    pub protocol: Option<SessionProtocol>,
    pub identity: Seq<u8>,
}

impl View for TransportHeader {
    type V = SpecHeader;

    open spec fn view(&self) -> SpecHeader {
        SpecHeader { port: self.port, protocol: self.protocol, identity: self.identity@ }
    }
}

impl TransportHeader {
    /// Whether the header fits in one frame: its identity name leaves room
    /// within the payload bound.
    pub open spec fn spec_valid(self) -> bool {
        self.identity@.len() + HEADER_FIXED_PAYLOAD <= MAX_HEADER_PAYLOAD
    }
}

/// The wire magic, as a sequence.
pub open spec fn spec_magic() -> Seq<u8> {
    seq![HEADER_MAGIC_0, HEADER_MAGIC_1, HEADER_MAGIC_2, HEADER_MAGIC_3]
}

/// The byte tag of a session protocol.
pub open spec fn spec_protocol_byte(p: Option<SessionProtocol>) -> u8 {
    match p {
        None => 0,
        Some(SessionProtocol::Http1) => 1,
        Some(SessionProtocol::Http2) => 2,
    }
}

/// The encoding of a header value on the wire.
pub open spec fn spec_encode(h: SpecHeader) -> Seq<u8> {
    let payload_len = (h.identity.len() + HEADER_FIXED_PAYLOAD) as nat;
    spec_magic() + seq![
        (payload_len / 256) as u8,
        (payload_len % 256) as u8,
        (h.port / 256) as u8,
        (h.port % 256) as u8,
        spec_protocol_byte(h.protocol),
    ] + h.identity
}

/// The 16-bit big-endian integer at offset `i` of `s`.
pub open spec fn spec_be16(s: Seq<u8>, i: int) -> u16 {
    (s[i] * 256 + s[i + 1]) as u16
}

/// Whether the first bytes of `s` already disagree with the magic.
pub open spec fn spec_magic_mismatch(s: Seq<u8>) -> bool {
    exists|i: int| 0 <= i < 4 && i < s.len() && s[i] != spec_magic()[i]
}

/// The payload length `s` announces; meaningful once six bytes are present.
pub open spec fn spec_payload_len(s: Seq<u8>) -> u16 {
    spec_be16(s, 4)
}

/// Whether `s` announces a payload length outside the accepted bounds.
pub open spec fn spec_len_invalid(s: Seq<u8>) -> bool {
    s.len() >= HEADER_PREFIX_LEN && !spec_magic_mismatch(s) && (spec_payload_len(s)
        < HEADER_FIXED_PAYLOAD || spec_payload_len(s) > MAX_HEADER_PAYLOAD)
}

/// Whether `s` holds a complete frame whose magic and length are acceptable,
/// leaving only the protocol tag to check.
pub open spec fn spec_frame_complete(s: Seq<u8>) -> bool {
    &&& !spec_magic_mismatch(s)
    &&& s.len() >= HEADER_PREFIX_LEN
    &&& HEADER_FIXED_PAYLOAD <= spec_payload_len(s) <= MAX_HEADER_PAYLOAD
    &&& s.len() >= HEADER_PREFIX_LEN + spec_payload_len(s)
}

/// The header a complete frame carries, when its protocol tag is `0`, `1` or
/// `2`.
pub open spec fn spec_parsed(s: Seq<u8>) -> SpecHeader {
    SpecHeader {
        port: spec_be16(s, 6),
        protocol: if s[8] == 0 {
            None
        } else if s[8] == 1 {
            Some(SessionProtocol::Http1)
        } else {
            Some(SessionProtocol::Http2)
        },
        identity: s.subrange(9, HEADER_PREFIX_LEN + spec_payload_len(s)),
    }
}

/// The outcome of matching a peeked prefix against the transport header
/// framing.
#[derive(Debug)]
pub enum HeaderMatch {
    /// A well-formed frame: the decoded header, and how many bytes of the
    /// prefix it occupied. Bytes beyond that count belong to the tunnelled
    /// stream and are not consumed.
    Matched(TransportHeader, usize),
    /// The prefix can never grow into a well-formed frame.
    NoMatch,
    /// At least this many further bytes are required to decide.
    Need(usize),
}

/// The mathematical outcome of matching a prefix against the header framing.
pub ghost enum GhostHeaderMatch {
    Matched(SpecHeader, int),
    NoMatch,
    Need(int),
}

/// The decision the header matcher owes for a given prefix: a mismatched
/// magic, an out-of-bounds length or an unknown protocol tag rejects the
/// frame; a short prefix asks for the missing bytes; a complete well-formed
/// frame decodes.
pub open spec fn spec_header_decision(s: Seq<u8>) -> GhostHeaderMatch {
    if spec_magic_mismatch(s) {
        GhostHeaderMatch::NoMatch
    } else if s.len() < HEADER_PREFIX_LEN {
        GhostHeaderMatch::Need(HEADER_PREFIX_LEN - s.len())
    } else if spec_payload_len(s) < HEADER_FIXED_PAYLOAD || spec_payload_len(s)
        > MAX_HEADER_PAYLOAD {
        GhostHeaderMatch::NoMatch
    } else if s.len() < HEADER_PREFIX_LEN + spec_payload_len(s) {
        GhostHeaderMatch::Need(HEADER_PREFIX_LEN + spec_payload_len(s) - s.len())
    } else if s[8] > 2 {
        GhostHeaderMatch::NoMatch
    } else {
        GhostHeaderMatch::Matched(spec_parsed(s), HEADER_PREFIX_LEN + spec_payload_len(s))
    }
}

/// Matches a peeked prefix against the header framing without consuming
/// anything: a decoded header tells the caller how many leading bytes to
/// split off.
pub fn match_header(buf: &[u8]) -> (r: HeaderMatch)
    ensures
        spec_header_decision(buf@) is NoMatch ==> r is NoMatch,
        spec_header_decision(buf@) matches GhostHeaderMatch::Need(m) ==> r == HeaderMatch::Need(
            m as usize,
        ),
        spec_header_decision(buf@) matches GhostHeaderMatch::Matched(h, c) ==> (r matches
            HeaderMatch::Matched(h2, c2) && h2@ == h && c2 == c),
{
    let n = buf.len();
    if n > 0 && buf[0] != HEADER_MAGIC_0 {
        assert(buf@[0] != spec_magic()[0]);
        return HeaderMatch::NoMatch;
    }
    if n > 1 && buf[1] != HEADER_MAGIC_1 {
        assert(buf@[1] != spec_magic()[1]);
        return HeaderMatch::NoMatch;
    }
    if n > 2 && buf[2] != HEADER_MAGIC_2 {
        assert(buf@[2] != spec_magic()[2]);
        return HeaderMatch::NoMatch;
    }
    if n > 3 && buf[3] != HEADER_MAGIC_3 {
        assert(buf@[3] != spec_magic()[3]);
        return HeaderMatch::NoMatch;
    }
    assert(!spec_magic_mismatch(buf@));
    if n < HEADER_PREFIX_LEN {
        return HeaderMatch::Need(HEADER_PREFIX_LEN - n);
    }
    let payload_len: u16 = (buf[4] as u16) * 256 + (buf[5] as u16);
    assert(payload_len == spec_payload_len(buf@));
    if payload_len < HEADER_FIXED_PAYLOAD || payload_len > MAX_HEADER_PAYLOAD {
        return HeaderMatch::NoMatch;
    }
    if n < HEADER_PREFIX_LEN + payload_len as usize {
        return HeaderMatch::Need(HEADER_PREFIX_LEN + payload_len as usize - n);
    }
    let proto_byte = buf[8];
    let protocol: Option<SessionProtocol> = if proto_byte == 0 {
        None
    } else if proto_byte == 1 {
        Some(SessionProtocol::Http1)
    } else if proto_byte == 2 {
        Some(SessionProtocol::Http2)
    } else {
        return HeaderMatch::NoMatch;
    };
    let port: u16 = (buf[6] as u16) * 256 + (buf[7] as u16);
    let end: usize = HEADER_PREFIX_LEN + payload_len as usize;
    let mut identity: Vec<u8> = Vec::new();
    let mut i: usize = 9;
    while i < end
        invariant
            9 <= i <= end,
            end <= buf@.len(),
            identity@ =~= buf@.subrange(9, i as int),
        decreases end - i,
    {
        identity.push(buf[i]);
        proof {
            assert(identity@ =~= buf@.subrange(9, i + 1));
        }
        i = i + 1;
    }
    let h = TransportHeader { port, protocol, identity };
    assert(h@ == spec_parsed(buf@));
    HeaderMatch::Matched(h, end)
}

/// Encodes a header for the wire.
pub fn encode_header(h: &TransportHeader) -> (r: Vec<u8>)
    requires
        h@.identity.len() + HEADER_FIXED_PAYLOAD <= MAX_HEADER_PAYLOAD,
    ensures
        r@ == spec_encode(h@),
{
    let payload_len: u16 = h.identity.len() as u16 + HEADER_FIXED_PAYLOAD;
    let mut r: Vec<u8> = Vec::new();
    r.push(HEADER_MAGIC_0);
    r.push(HEADER_MAGIC_1);
    r.push(HEADER_MAGIC_2);
    r.push(HEADER_MAGIC_3);
    r.push((payload_len / 256) as u8);
    r.push((payload_len % 256) as u8);
    r.push((h.port / 256) as u8);
    r.push((h.port % 256) as u8);
    let proto_byte: u8 = match h.protocol {
        None => 0,
        Some(SessionProtocol::Http1) => 1,
        Some(SessionProtocol::Http2) => 2,
    };
    r.push(proto_byte);
    let mut i: usize = 0;
    while i < h.identity.len()
        invariant
            i <= h@.identity.len(),
            r@ =~= spec_encode(h@).subrange(0, 9 + i),
            spec_encode(h@).len() == 9 + h@.identity.len(),
        decreases h@.identity.len() - i,
    {
        r.push(h.identity[i]);
        proof {
            assert(spec_encode(h@)[9 + i as int] == h@.identity[i as int]);
            assert(r@ =~= spec_encode(h@).subrange(0, 9 + i + 1));
        }
        i = i + 1;
    }
    proof {
        assert(r@ =~= spec_encode(h@));
    }
    r
}

/// A complete well-formed frame is exactly the encoding of the header parsed
/// from it: splitting the frame off the stream loses nothing.
pub proof fn lemma_encode_parsed(s: Seq<u8>)
    requires
        spec_frame_complete(s),
        s[8] <= 2,
    ensures
        spec_encode(spec_parsed(s)) == s.subrange(0, HEADER_PREFIX_LEN + spec_payload_len(s)),
{
    let c = HEADER_PREFIX_LEN + spec_payload_len(s);
    let h = spec_parsed(s);
    let payload_len = (h.identity.len() + HEADER_FIXED_PAYLOAD) as nat;
    assert(h.identity.len() == spec_payload_len(s) - HEADER_FIXED_PAYLOAD);
    assert(payload_len == spec_payload_len(s));
    assert(s[0] == spec_magic()[0] && s[1] == spec_magic()[1] && s[2] == spec_magic()[2] && s[3]
        == spec_magic()[3]) by {
        assert(forall|i: int| 0 <= i < 4 ==> #[trigger] s[i] == spec_magic()[i]) by {
            assert forall|i: int| 0 <= i < 4 implies #[trigger] s[i] == spec_magic()[i] by {
                assert(!(0 <= i < 4 && i < s.len() && s[i] != spec_magic()[i]));
            }
        }
    }
    assert(s[4] == payload_len / 256 && s[5] == payload_len % 256) by {
        assert(payload_len == s[4] * 256 + s[5]);
    }
    assert(s[6] == h.port / 256 && s[7] == h.port % 256) by {
        assert(h.port == s[6] * 256 + s[7]);
    }
    assert(s[8] == spec_protocol_byte(h.protocol));
    assert(spec_encode(h) =~= s.subrange(0, c));
}

/// What a peer reads is what was sent: a well-formed encoded header followed
/// by any tunnelled bytes matches back to the same header value, consuming
/// exactly the frame and nothing of the stream behind it.
pub proof fn lemma_header_round_trip(h: SpecHeader, rest: Seq<u8>)
    requires
        h.identity.len() + HEADER_FIXED_PAYLOAD <= MAX_HEADER_PAYLOAD,
    ensures
        spec_frame_complete(spec_encode(h) + rest),
        spec_parsed(spec_encode(h) + rest) == h,
        spec_header_decision(spec_encode(h) + rest) == GhostHeaderMatch::Matched(
            h,
            spec_encode(h).len() as int,
        ),
{
    let s = spec_encode(h) + rest;
    let payload_len = (h.identity.len() + HEADER_FIXED_PAYLOAD) as nat;
    assert(s[0] == HEADER_MAGIC_0 && s[1] == HEADER_MAGIC_1 && s[2] == HEADER_MAGIC_2 && s[3]
        == HEADER_MAGIC_3);
    assert(!spec_magic_mismatch(s));
    assert(s[4] == payload_len / 256 && s[5] == payload_len % 256);
    assert(spec_payload_len(s) == payload_len);
    assert(spec_be16(s, 6) == h.port);
    assert(spec_protocol_byte(h.protocol) <= 2);
    assert(s[8] == spec_protocol_byte(h.protocol));
    assert(spec_parsed(s).identity =~= h.identity);
    assert(spec_parsed(s).protocol == h.protocol);
}

} // verus!
