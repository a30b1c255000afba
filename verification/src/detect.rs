//! Staged protocol detection.
//!
//! The detector peeks a bounded prefix of an accepted stream and decides,
//! without consuming anything, which handler the connection belongs to. The
//! HTTP matcher distinguishes HTTP/2 prior knowledge — the exact connection
//! preface — from HTTP/1, recognized by a plausible request line: a short
//! run of upper-case method characters followed by a space. The TLS matcher
//! recognizes the first bytes of a ClientHello handshake record. Either
//! matcher may instead report that the prefix seen so far cannot decide and
//! more bytes are required; racing that accumulation against a timeout is the
//! caller's concern.

use vstd::prelude::*;

verus! {

/// An HTTP protocol version, as detection reports it.
#[derive(Clone, Copy, Debug, PartialEq, Eq, Hash, Structural)]
pub enum Version {
    Http1,
    H2,
}

/// The longest run of method characters the HTTP/1 heuristic accepts before
/// the space.
pub const MAX_METHOD_LEN: usize = 8;

/// The length of the HTTP/2 connection preface.
pub const H2_PREFACE_LEN: usize = 24;

/// The HTTP/2 connection preface, `PRI * HTTP/2.0\r\n\r\nSM\r\n\r\n`.
pub open spec fn spec_h2_preface() -> Seq<u8> {
    seq![
        0x50u8,
        0x52,
        0x49,
        0x20,
        0x2a,
        0x20,
        0x48,
        0x54,
        0x54,
        0x50,
        0x2f,
        0x32,
        0x2e,
        0x30,
        0x0d,
        0x0a,
        0x0d,
        0x0a,
        0x53,
        0x4d,
        0x0d,
        0x0a,
        0x0d,
        0x0a,
    ]
}

/// One byte of the HTTP/2 connection preface.
fn h2_preface_byte(i: usize) -> (b: u8)
    requires
        i < H2_PREFACE_LEN,
    ensures
        b == spec_h2_preface()[i as int],
{
    let p: [u8; 24] = [
        0x50u8,
        0x52,
        0x49,
        0x20,
        0x2a,
        0x20,
        0x48,
        0x54,
        0x54,
        0x50,
        0x2f,
        0x32,
        0x2e,
        0x30,
        0x0d,
        0x0a,
        0x0d,
        0x0a,
        0x53,
        0x4d,
        0x0d,
        0x0a,
        0x0d,
        0x0a,
    ];
    p[i]
}

/// Whether every byte seen so far agrees with the preface (the prefix may
/// still be shorter than the preface).
pub open spec fn spec_preface_prefix(s: Seq<u8>) -> bool {
    forall|i: int| 0 <= i < s.len() && i < H2_PREFACE_LEN ==> s[i] == spec_h2_preface()[i]
}

/// Whether the stream opens with the complete preface.
pub open spec fn spec_has_preface(s: Seq<u8>) -> bool {
    s.len() >= H2_PREFACE_LEN && spec_preface_prefix(s.subrange(0, H2_PREFACE_LEN as int))
        && spec_preface_prefix(s)
}

/// Whether a byte may stand in an HTTP/1 method token: an upper-case ASCII
/// letter.
pub open spec fn spec_is_method_char(b: u8) -> bool {
    0x41 <= b <= 0x5a
}

/// Whether the prefix opens like an HTTP/1 request line: one to
/// [`MAX_METHOD_LEN`] method characters followed by a space.
pub open spec fn spec_h1_match(s: Seq<u8>) -> bool {
    exists|i: int|
        1 <= i <= MAX_METHOD_LEN && i < s.len() && s[i] == 0x20 && (forall|j: int|
            0 <= j < i ==> spec_is_method_char(#[trigger] s[j]))
}

/// Whether the prefix could still become an HTTP/1 request line: nothing but
/// method characters so far, not yet past the method-length bound.
pub open spec fn spec_h1_pending(s: Seq<u8>) -> bool {
    s.len() <= MAX_METHOD_LEN && (forall|j: int|
        0 <= j < s.len() ==> spec_is_method_char(#[trigger] s[j]))
}

/// The outcome of matching a peeked prefix against one protocol's shape.
#[derive(Clone, Copy, Debug, PartialEq, Eq, Structural)]
pub enum HttpMatch {
    /// The prefix decides the protocol version.
    Matched(Version),
    /// The prefix can never become either HTTP version.
    NoMatch,
    /// At least this many further bytes are required to decide.
    Need(usize),
}

/// The decision the HTTP matcher owes for a given prefix: the full HTTP/2
/// preface wins; a request line decides HTTP/1; a prefix consistent with
/// either shape asks for more bytes; anything else is not HTTP.
pub open spec fn spec_http_decision(s: Seq<u8>) -> HttpMatch {
    if s.len() < H2_PREFACE_LEN && spec_preface_prefix(s) {
        HttpMatch::Need(1)
    } else if spec_has_preface(s) {
        HttpMatch::Matched(Version::H2)
    } else if spec_h1_match(s) {
        HttpMatch::Matched(Version::Http1)
    } else if spec_h1_pending(s) {
        HttpMatch::Need(1)
    } else {
        HttpMatch::NoMatch
    }
}

/// Matches a peeked prefix against HTTP.
pub fn match_http(buf: &[u8]) -> (r: HttpMatch)
    ensures
        r == spec_http_decision(buf@),
{
    let n = buf.len();
    let mut i: usize = 0;
    let lim: usize = if n < H2_PREFACE_LEN {
        n
    } else {
        H2_PREFACE_LEN
    };
    let mut preface_ok: bool = true;
    while i < lim
        invariant
            i <= lim,
            lim == if n < H2_PREFACE_LEN {
                n as int
            } else {
                H2_PREFACE_LEN as int
            },
            n == buf@.len(),
            preface_ok <==> (forall|j: int|
                0 <= j < i ==> buf@[j] == spec_h2_preface()[j]),
        decreases lim - i,
    {
        if buf[i] != h2_preface_byte(i) {
            preface_ok = false;
            assert(!(forall|j: int| 0 <= j < i + 1 ==> buf@[j] == spec_h2_preface()[j])) by {
                assert(buf@[i as int] != spec_h2_preface()[i as int]);
            }
            i = lim;
        } else {
            assert(buf@[i as int] == spec_h2_preface()[i as int]);
            i = i + 1;
        }
    }
    if preface_ok && n < H2_PREFACE_LEN {
        assert(spec_preface_prefix(buf@));
        return HttpMatch::Need(1);
    }
    if preface_ok {
        assert(spec_has_preface(buf@));
        return HttpMatch::Matched(Version::H2);
    }
    assert(!spec_has_preface(buf@) && !(buf@.len() < H2_PREFACE_LEN && spec_preface_prefix(
        buf@,
    ))) by {
        let j = choose|j: int|
            0 <= j < (if n < H2_PREFACE_LEN {
                n as int
            } else {
                H2_PREFACE_LEN as int
            }) && buf@[j] != spec_h2_preface()[j];
        if buf@.len() >= H2_PREFACE_LEN {
            assert(buf@.subrange(0, H2_PREFACE_LEN as int)[j] == buf@[j]);
        }
    }
    let mut k: usize = 0;
    while k < n && k <= MAX_METHOD_LEN
        invariant
            k <= n,
            k <= MAX_METHOD_LEN + 1,
            n == buf@.len(),
            !spec_has_preface(buf@),
            !(buf@.len() < H2_PREFACE_LEN && spec_preface_prefix(buf@)),
            forall|j: int| 0 <= j < k ==> spec_is_method_char(#[trigger] buf@[j]),
        decreases n - k,
    {
        let b = buf[k];
        if b == 0x20 {
            if k >= 1 {
                assert(spec_h1_match(buf@)) by {
                    assert(1 <= k <= MAX_METHOD_LEN && (k as int) < buf@.len() && buf@[k as int]
                        == 0x20);
                }
                return HttpMatch::Matched(Version::Http1);
            }
            assert(!spec_h1_match(buf@)) by {
                if spec_h1_match(buf@) {
                    let i2 = choose|i2: int|
                        1 <= i2 <= MAX_METHOD_LEN && i2 < buf@.len() && buf@[i2] == 0x20 && (
                        forall|j: int| 0 <= j < i2 ==> spec_is_method_char(#[trigger] buf@[j]));
                    assert(spec_is_method_char(buf@[0]));
                }
            }
            assert(!spec_h1_pending(buf@));
            return HttpMatch::NoMatch;
        }
        if !(0x41 <= b && b <= 0x5a) {
            assert(!spec_is_method_char(buf@[k as int]));
            assert(!spec_h1_match(buf@)) by {
                if spec_h1_match(buf@) {
                    let i2 = choose|i2: int|
                        1 <= i2 <= MAX_METHOD_LEN && i2 < buf@.len() && buf@[i2] == 0x20 && (
                        forall|j: int| 0 <= j < i2 ==> spec_is_method_char(#[trigger] buf@[j]));
                    if i2 <= k {
                        assert(buf@[i2] == 0x20 && spec_is_method_char(buf@[i2]));
                    } else {
                        assert(spec_is_method_char(buf@[k as int]));
                    }
                }
            }
            assert(!spec_h1_pending(buf@));
            return HttpMatch::NoMatch;
        }
        assert(spec_is_method_char(buf@[k as int]));
        k = k + 1;
    }
    if n <= MAX_METHOD_LEN {
        assert(spec_h1_pending(buf@));
        return HttpMatch::Need(1);
    }
    assert(k == MAX_METHOD_LEN + 1);
    assert(!spec_h1_match(buf@)) by {
        if spec_h1_match(buf@) {
            let i2 = choose|i2: int|
                1 <= i2 <= MAX_METHOD_LEN && i2 < buf@.len() && buf@[i2] == 0x20 && (forall|
                    j: int,
                |
                    0 <= j < i2 ==> spec_is_method_char(#[trigger] buf@[j]));
            assert(spec_is_method_char(buf@[i2]));
        }
    }
    assert(!spec_h1_pending(buf@));
    HttpMatch::NoMatch
}

/// The outcome of sniffing a peeked prefix for a TLS ClientHello.
#[derive(Clone, Copy, Debug, PartialEq, Eq, Structural)]
pub enum TlsMatch {
    /// The prefix opens a TLS handshake record.
    Matched,
    /// The prefix is not TLS.
    NoMatch,
    /// At least this many further bytes are required to decide.
    Need(usize),
}

/// The TLS handshake record content type.
pub const TLS_HANDSHAKE_BYTE: u8 = 0x16;

/// The first byte of every TLS record protocol version this proxy accepts.
pub const TLS_VERSION_MAJOR: u8 = 0x03;

/// Sniffs a peeked prefix for the opening of a TLS ClientHello: a handshake
/// record whose protocol version has major byte `0x03`.
pub fn match_tls(buf: &[u8]) -> (r: TlsMatch)
    ensures
        buf@.len() >= 2 && buf@[0] == TLS_HANDSHAKE_BYTE && buf@[1] == TLS_VERSION_MAJOR ==> r
            == TlsMatch::Matched,
        buf@.len() >= 1 && buf@[0] != TLS_HANDSHAKE_BYTE ==> r == TlsMatch::NoMatch,
        buf@.len() >= 2 && buf@[0] == TLS_HANDSHAKE_BYTE && buf@[1] != TLS_VERSION_MAJOR ==> r
            == TlsMatch::NoMatch,
        buf@.len() < 2 && (buf@.len() == 0 || buf@[0] == TLS_HANDSHAKE_BYTE) ==> r
            == TlsMatch::Need((2 - buf@.len()) as usize),
{
    let n = buf.len();
    if n == 0 {
        return TlsMatch::Need(2);
    }
    if buf[0] != TLS_HANDSHAKE_BYTE {
        return TlsMatch::NoMatch;
    }
    if n == 1 {
        return TlsMatch::Need(1);
    }
    if buf[1] == TLS_VERSION_MAJOR {
        TlsMatch::Matched
    } else {
        TlsMatch::NoMatch
    }
}

} // verus!
