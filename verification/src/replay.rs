//! Replay of peeked bytes.
//!
//! When detection succeeds on a peeked prefix, the chosen handler must
//! observe that prefix before anything further from the socket: the
//! detector consumed nothing, so nothing may be lost or re-read. This type
//! carries the bytes to re-yield; reads drain it in order, and once it is
//! empty the caller falls through to the underlying stream.

use vstd::prelude::*;

verus! {

/// Bytes to re-yield to a handler before reads fall through to the
/// underlying stream.
#[derive(Debug)]
pub struct PrefixedIo {
    prefix: Vec<u8>,
    pos: usize,
}

impl PrefixedIo {
    /// Well-formed: nothing before the cursor is yielded again.
    pub closed spec fn wf(self) -> bool {
        self.pos <= self.prefix@.len()
    }

    /// The bytes still to be re-yielded.
    pub closed spec fn remaining(self) -> Seq<u8> {
        self.prefix@.skip(self.pos as int)
    }

    /// Wraps a peeked prefix for replay.
    pub fn new(prefix: Vec<u8>) -> (r: PrefixedIo)
        ensures
            r.wf(),
            r.remaining() == prefix@,
    {
        let r = PrefixedIo { prefix, pos: 0 };
        proof {
            assert(r.remaining() =~= r.prefix@);
        }
        r
    }

    /// Whether every replayed byte has been read.
    pub fn is_drained(&self) -> (r: bool)
        requires
            self.wf(),
        ensures
            r == (self.remaining().len() == 0),
    {
        self.pos == self.prefix.len()
    }

    /// Reads up to `max` of the replayed bytes, in order: what comes out,
    /// followed by what remains, is exactly what remained before.
    pub fn read_prefix(&mut self, max: usize) -> (out: Vec<u8>)
        requires
            old(self).wf(),
        ensures
            final(self).wf(),
            out@ == old(self).remaining().take(out@.len() as int),
            out@.len() == if max <= old(self).remaining().len() {
                max as int
            } else {
                old(self).remaining().len() as int
            },
            final(self).remaining() == old(self).remaining().skip(out@.len() as int),
            out@ + final(self).remaining() == old(self).remaining(),
    {
        let avail = self.prefix.len() - self.pos;
        let take = if max < avail {
            max
        } else {
            avail
        };
        let plen = self.prefix.len();
        let mut out: Vec<u8> = Vec::new();
        let mut k: usize = 0;
        while k < take
            invariant
                k <= take,
                plen == self.prefix@.len(),
                self.pos + take <= plen,
                out@ =~= self.prefix@.subrange(self.pos as int, self.pos + k),
            decreases take - k,
        {
            out.push(self.prefix[self.pos + k]);
            proof {
                assert(out@ =~= self.prefix@.subrange(self.pos as int, self.pos + k + 1));
            }
            k = k + 1;
        }
        let ghost before = self.remaining();
        self.pos = self.pos + take;
        proof {
            assert(out@ =~= before.take(take as int));
            assert(self.remaining() =~= before.skip(take as int));
            assert(out@ + self.remaining() =~= before);
        }
        out
    }
}

} // verus!
