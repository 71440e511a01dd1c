//! A seekable byte cursor over an owned buffer, the single primitive from
//! which every fixed-layout, big-endian, unpadded record is materialized.
//!
//! The archive's pointer tables address bytes relative to a message start
//! and require backward seeks, so the buffer is modeled as an owned array
//! with an explicit index cursor rather than a forward-only stream.

use vstd::prelude::*;

use crate::error::Error;

verus! {

/// The big-endian 16-bit word stored at byte offset `i` of `s`.
pub open spec fn be16(s: Seq<u8>, i: int) -> int {
    s[i] * 0x100 + s[i + 1]
}

/// The big-endian 32-bit word stored at byte offset `i` of `s`.
pub open spec fn be32(s: Seq<u8>, i: int) -> int {
    s[i] * 0x1000000 + s[i + 1] * 0x10000 + s[i + 2] * 0x100 + s[i + 3]
}

/// An owned byte buffer with an explicit read position. The position may
/// be moved anywhere (including past the end); every read demands that
/// enough bytes remain and otherwise fails with `Error::Truncated`.
pub struct ByteCursor {
    data: Vec<u8>,
    pos: usize,
}

impl ByteCursor {
    /// The underlying bytes; reads never change them.
    pub closed spec fn bytes(&self) -> Seq<u8> {
        self.data@
    }

    /// The current read position, always nonnegative.
    pub closed spec fn spec_pos(&self) -> int {
        self.pos as int
    }

    /// The position is a machine integer: nonnegative and bounded.
    pub broadcast proof fn lemma_pos_range(&self)
        ensures
            0 <= #[trigger] self.spec_pos() <= usize::MAX,
    {
    }
}

impl ByteCursor {
    pub fn new(data: Vec<u8>) -> (c: ByteCursor)
        ensures
            c.bytes() == data@,
            c.spec_pos() == 0,
    {
        ByteCursor { data, pos: 0 }
    }

    pub fn position(&self) -> (p: usize)
        ensures
            p == self.spec_pos(),
    {
        self.pos
    }

    pub fn len(&self) -> (n: usize)
        ensures
            n == self.bytes().len(),
    {
        self.data.len()
    }

    /// Whether any byte remains at or after the current position.
    pub fn has_remaining(&self) -> (b: bool)
        ensures
            b == (self.spec_pos() < self.bytes().len()),
    {
        self.pos < self.data.len()
    }

    /// Checks that `n` bytes are available at the current position.
    pub fn demand(&self, n: usize) -> (r: Result<(), Error>)
        ensures
            r is Ok <==> self.spec_pos() + n <= self.bytes().len(),
            r is Err ==> r == Err::<(), Error>(Error::Truncated),
    {
        if n <= self.data.len() && self.pos <= self.data.len() - n {
            Ok(())
        } else {
            Err(Error::Truncated)
        }
    }

    /// Moves the read position to the absolute offset `p`.
    pub fn seek(&mut self, p: usize)
        ensures
            final(self).bytes() == old(self).bytes(),
            final(self).spec_pos() == p,
    {
        self.pos = p;
    }

    /// Advances the read position by `n` bytes, stopping at the end of the
    /// buffer if fewer than `n` bytes remain.
    pub fn advance_at_most(&mut self, n: usize)
        requires
            old(self).spec_pos() <= old(self).bytes().len(),
        ensures
            final(self).bytes() == old(self).bytes(),
            final(self).spec_pos() == if old(self).spec_pos() + n <= old(self).bytes().len() {
                old(self).spec_pos() + n
            } else {
                old(self).bytes().len() as int
            },
    {
        if n <= self.data.len() - self.pos {
            self.pos = self.pos + n;
        } else {
            self.pos = self.data.len();
        }
    }

    /// Reads the byte at the current position.
    pub fn take_u8(&mut self) -> (b: u8)
        requires
            old(self).spec_pos() + 1 <= old(self).bytes().len(),
        ensures
            final(self).bytes() == old(self).bytes(),
            final(self).spec_pos() == old(self).spec_pos() + 1,
            b == old(self).bytes()[old(self).spec_pos()],
    {
        let n = self.data.len();
        let b = self.data[self.pos];
        assert(self.pos < n);
        self.pos = self.pos + 1;
        b
    }

    /// Reads a big-endian 16-bit word at the current position.
    pub fn take_u16(&mut self) -> (w: u16)
        requires
            old(self).spec_pos() + 2 <= old(self).bytes().len(),
        ensures
            final(self).bytes() == old(self).bytes(),
            final(self).spec_pos() == old(self).spec_pos() + 2,
            w == be16(old(self).bytes(), old(self).spec_pos()),
    {
        let b0 = self.take_u8();
        let b1 = self.take_u8();
        (b0 as u16) * 0x100 + (b1 as u16)
    }

    /// Reads a big-endian 32-bit word at the current position.
    pub fn take_u32(&mut self) -> (w: u32)
        requires
            old(self).spec_pos() + 4 <= old(self).bytes().len(),
        ensures
            final(self).bytes() == old(self).bytes(),
            final(self).spec_pos() == old(self).spec_pos() + 4,
            w == be32(old(self).bytes(), old(self).spec_pos()),
    {
        let b0 = self.take_u8();
        let b1 = self.take_u8();
        let b2 = self.take_u8();
        let b3 = self.take_u8();
        (b0 as u32) * 0x1000000 + (b1 as u32) * 0x10000 + (b2 as u32) * 0x100 + (b3 as u32)
    }

    /// Reads `n` raw bytes at the current position.
    pub fn take_bytes(&mut self, n: usize) -> (v: Vec<u8>)
        requires
            old(self).spec_pos() + n <= old(self).bytes().len(),
        ensures
            final(self).bytes() == old(self).bytes(),
            final(self).spec_pos() == old(self).spec_pos() + n,
            v@ == old(self).bytes().subrange(old(self).spec_pos(), old(self).spec_pos() + n),
    {
        let mut v: Vec<u8> = Vec::new();
        let mut i: usize = 0;
        while i < n
            invariant
                i <= n,
                self.bytes() == old(self).bytes(),
                self.spec_pos() == old(self).spec_pos() + i,
                old(self).spec_pos() + n <= old(self).bytes().len(),
                v@ == old(self).bytes().subrange(old(self).spec_pos(), old(self).spec_pos() + i),
            decreases n - i,
        {
            let b = self.take_u8();
            v.push(b);
            i = i + 1;
            proof {
                assert(v@ =~= old(self).bytes().subrange(
                    old(self).spec_pos(),
                    old(self).spec_pos() + i,
                ));
            }
        }
        v
    }
}

} // verus!
