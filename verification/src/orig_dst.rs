//! Original-destination recovery.
//!
//! A transparently redirected connection still carries the address the client
//! really targeted; on Linux the kernel exposes it through the
//! `SO_ORIGINAL_DST` socket option as a raw `sockaddr` buffer. The syscall
//! itself is performed outside this crate; the decoding of the returned
//! buffer into a typed [`SockAddr`] is done and verified here. A mock
//! resolver returning a fixed configured address is provided for tests.

use vstd::prelude::*;
use crate::addr::{IpAddress, OrigDstAddr, SockAddr};

verus! {

/// The address family tag of an IPv4 `sockaddr_in` (Linux `AF_INET`).
pub const AF_INET: u16 = 2;

/// The address family tag of an IPv6 `sockaddr_in6` (Linux `AF_INET6`).
pub const AF_INET6: u16 = 10;

/// The byte length of a `sockaddr_in`: family and port tags, a 4-byte
/// address, and 8 bytes of padding.
pub const SOCKADDR_IN_LEN: usize = 16;

/// The byte length of a `sockaddr_in6` up to the end of its 16-byte address.
pub const SOCKADDR_IN6_LEN: usize = 28;

/// Why a raw `sockaddr` buffer could not be decoded.
#[derive(Clone, Copy, Debug, PartialEq, Eq, Structural)]
pub enum OrigDstError {
    /// The buffer's address family is neither `AF_INET` nor `AF_INET6`.
    UnsupportedFamily,
}

/// The integer read by interpreting `n` bytes of `s` starting at `i` with the
/// most significant byte first (network byte order).
pub open spec fn be_bytes(s: Seq<u8>, i: int, n: nat) -> nat
    decreases n,
{
    if n == 0 {
        0
    } else {
        (be_bytes(s, i, (n - 1) as nat) * 256 + s[i + n - 1]) as nat
    }
}

/// 256 raised to the power `n`: one more than the largest value `n` bytes can
/// hold.
pub open spec fn pow256(n: nat) -> nat
    decreases n,
{
    if n == 0 {
        1
    } else {
        256 * pow256((n - 1) as nat)
    }
}

/// A big-endian reading of `n` bytes always fits in `n` bytes.
pub proof fn lemma_be_bytes_bound(s: Seq<u8>, i: int, n: nat)
    requires
        0 <= i,
        i + n <= s.len(),
    ensures
        be_bytes(s, i, n) < pow256(n),
    decreases n,
{
    if n > 0 {
        lemma_be_bytes_bound(s, i, (n - 1) as nat);
    }
}

/// Reads `n` bytes of `raw` starting at `start` as one big-endian integer.
fn read_be(raw: &[u8], start: usize, n: usize) -> (x: u128)
    requires
        start + n <= raw@.len(),
        n <= 16,
    ensures
        x == be_bytes(raw@, start as int, n as nat),
{
    proof {
        reveal_with_fuel(pow256, 17);
    }
    let rlen: usize = raw.len();
    let mut acc: u128 = 0;
    let mut k: usize = 0;
    while k < n
        invariant
            k <= n,
            n <= 16,
            start + n <= rlen,
            rlen == raw@.len(),
            acc == be_bytes(raw@, start as int, k as nat),
            acc < pow256(k as nat),
        decreases n - k,
    {
        proof {
            reveal_with_fuel(pow256, 17);
            assert(pow256((k + 1) as nat) == 256 * pow256(k as nat));
        }
        let b = raw[start + k];
        acc = acc * 256 + (b as u128);
        k = k + 1;
    }
    acc
}

/// Translates a 16-bit integer between network byte order and the byte order
/// of a little-endian host by exchanging its two bytes.
pub fn ntoh16(i: u16) -> (r: u16)
    ensures
        r == (i % 256) * 256 + i / 256,
{
    (i % 256) * 256 + i / 256
}

/// Translates a 32-bit integer between network byte order and the byte order
/// of a little-endian host by reversing its four bytes.
pub fn ntoh32(i: u32) -> (r: u32)
    ensures
        r == (i % 256) * 0x100_0000 + (i / 256 % 256) * 0x1_0000 + (i / 0x1_0000 % 256) * 256 + i
            / 0x100_0000,
{
    (i % 256) * 0x100_0000 + (i / 256 % 256) * 0x1_0000 + (i / 0x1_0000 % 256) * 256 + i
        / 0x100_0000
}

/// The address decoded from a raw `sockaddr` buffer of the given family, as
/// the decoder states it: the port stands in network byte order at offset 2;
/// an IPv4 address occupies 4 bytes at offset 4, an IPv6 address 16 bytes at
/// offset 8.
pub open spec fn spec_decoded_sockaddr(family: u16, raw: Seq<u8>) -> Result<SockAddr, OrigDstError> {
    if family == AF_INET {
        Ok(
            SockAddr {
                ip: IpAddress::V4(be_bytes(raw, 4, 4) as u32),
                port: be_bytes(raw, 2, 2) as u16,
            },
        )
    } else if family == AF_INET6 {
        Ok(
            SockAddr {
                ip: IpAddress::V6(be_bytes(raw, 8, 16) as u128),
                port: be_bytes(raw, 2, 2) as u16,
            },
        )
    } else {
        Err(OrigDstError::UnsupportedFamily)
    }
}

/// Decodes the `sockaddr` buffer returned by an original-destination lookup.
///
/// `family` is the buffer's address-family tag and `raw` the whole buffer,
/// which the caller has checked to be long enough for the family it
/// announces; a buffer of any other family is rejected.
pub fn decode_sockaddr(family: u16, raw: &[u8]) -> (r: Result<SockAddr, OrigDstError>)
    requires
        family == AF_INET ==> raw@.len() >= SOCKADDR_IN_LEN,
        family == AF_INET6 ==> raw@.len() >= SOCKADDR_IN6_LEN,
    ensures
        r == spec_decoded_sockaddr(family, raw@),
{
    if family == AF_INET {
        let port = read_be(raw, 2, 2);
        let ip = read_be(raw, 4, 4);
        proof {
            lemma_be_bytes_bound(raw@, 2, 2);
            lemma_be_bytes_bound(raw@, 4, 4);
            reveal_with_fuel(pow256, 17);
        }
        Ok(SockAddr { ip: IpAddress::V4(ip as u32), port: port as u16 })
    } else if family == AF_INET6 {
        let port = read_be(raw, 2, 2);
        let ip = read_be(raw, 8, 16);
        proof {
            lemma_be_bytes_bound(raw@, 2, 2);
            lemma_be_bytes_bound(raw@, 8, 16);
            reveal_with_fuel(pow256, 17);
        }
        Ok(SockAddr { ip: IpAddress::V6(ip), port: port as u16 })
    } else {
        Err(OrigDstError::UnsupportedFamily)
    }
}

/// A resolver that answers every original-destination lookup with one fixed,
/// configured address; it stands in for the kernel lookup in tests.
#[derive(Clone, Copy, Debug, PartialEq, Eq, Structural)]
pub struct MockOrigDstAddr(pub SockAddr);

impl MockOrigDstAddr {
    /// A mock resolver that always answers with `addr`.
    pub fn new(addr: SockAddr) -> (r: MockOrigDstAddr)
        ensures
            r == MockOrigDstAddr(addr),
    {
        MockOrigDstAddr(addr)
    }

    /// The fixed answer, as the fallible resolver contract gives it.
    pub fn orig_dst_addr(&self) -> (r: Result<OrigDstAddr, OrigDstError>)
        ensures
            r == Ok::<OrigDstAddr, OrigDstError>(OrigDstAddr(self.0)),
    {
        Ok(OrigDstAddr(self.0))
    }
}

} // verus!
