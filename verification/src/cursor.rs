//! A byte cursor: a growable byte buffer with an append-only write end and a
//! position-tracked read end. Writes never fail; a fixed-width read fails,
//! and leaves the position untouched, when fewer bytes remain than asked for.

use vstd::prelude::*;

verus! {

/// Why a decode failed. The codec has a single failure mode: the cursor held
/// fewer bytes than the fixed width of the kind being decoded.
#[derive(Clone, Copy, Debug, PartialEq, Eq, Structural)]
pub enum DecodeError {
    Underrun,
}

/// An ordered byte buffer. New bytes are appended at the end; reads consume
/// from a read position that only ever moves forward, and only on success.
pub struct Cursor {
    buf: Vec<u8>,
    pos: usize,
}

impl Cursor {
    /// All bytes the cursor holds, read and unread alike.
    pub closed spec fn bytes(&self) -> Seq<u8> {
        self.buf@
    }

    /// The read position: the index of the next byte a read would consume.
    pub closed spec fn pos(&self) -> int {
        self.pos as int
    }

    /// The read position never runs past the end of the buffer.
    pub open spec fn wf(&self) -> bool {
        0 <= self.pos() <= self.bytes().len()
    }

    /// How many bytes remain to be read.
    pub open spec fn remaining(&self) -> int {
        self.bytes().len() - self.pos()
    }

    /// An empty cursor.
    pub fn new() -> (r: Cursor)
        ensures
            r.wf(),
            r.bytes() == Seq::<u8>::empty(),
            r.pos() == 0,
    {
        Cursor { buf: Vec::new(), pos: 0 }
    }

    /// A cursor over the given bytes, positioned at the first.
    pub fn from_bytes(buf: Vec<u8>) -> (r: Cursor)
        ensures
            r.wf(),
            r.bytes() == buf@,
            r.pos() == 0,
    {
        Cursor { buf, pos: 0 }
    }

    /// Append the given bytes at the end of the buffer. Never fails and
    /// never moves the read position.
    pub fn write_fixed(&mut self, bytes: &Vec<u8>)
        requires
            old(self).wf(),
        ensures
            final(self).wf(),
            final(self).bytes() == old(self).bytes() + bytes@,
            final(self).pos() == old(self).pos(),
    {
        let n = bytes.len();
        let mut j: usize = 0;
        while j < n
            invariant
                j <= n,
                n == bytes@.len(),
                self.buf@ == old(self).bytes() + bytes@.take(j as int),
                self.pos == old(self).pos(),
                old(self).wf(),
            decreases n - j,
        {
            proof {
                assert(old(self).bytes() + bytes@.take(j + 1) =~= (old(self).bytes()
                    + bytes@.take(j as int)).push(bytes@[j as int]));
            }
            self.buf.push(bytes[j]);
            j = j + 1;
        }
        proof {
            assert(bytes@.take(n as int) =~= bytes@);
        }
    }

    /// Read exactly `n` bytes at the read position and advance past them.
    /// When fewer than `n` remain, fail with `Underrun` and leave the
    /// position where it was.
    pub fn read_fixed(&mut self, n: usize) -> (r: Result<Vec<u8>, DecodeError>)
        requires
            old(self).wf(),
        ensures
            final(self).wf(),
            final(self).bytes() == old(self).bytes(),
            old(self).remaining() >= n ==> {
                &&& r matches Ok(bs)
                &&& bs@ == old(self).bytes().subrange(old(self).pos(), old(self).pos() + n)
                &&& final(self).pos() == old(self).pos() + n
            },
            old(self).remaining() < n ==> {
                &&& r == Err::<Vec<u8>, DecodeError>(DecodeError::Underrun)
                &&& final(self).pos() == old(self).pos()
            },
    {
        if n > self.buf.len() - self.pos {
            return Err(DecodeError::Underrun);
        }
        let mut out: Vec<u8> = Vec::new();
        let mut j: usize = 0;
        while j < n
            invariant
                j <= n,
                self == old(self),
                old(self).wf(),
                n <= old(self).remaining(),
                self.pos() + n <= usize::MAX,
                out@ == old(self).bytes().subrange(old(self).pos(), old(self).pos() + j),
            decreases n - j,
        {
            proof {
                assert(old(self).bytes().subrange(old(self).pos(), old(self).pos() + j + 1)
                    =~= old(self).bytes().subrange(old(self).pos(), old(self).pos() + j).push(
                    old(self).bytes()[old(self).pos() + j],
                ));
            }
            out.push(self.buf[self.pos + j]);
            j = j + 1;
        }
        self.pos = self.pos + n;
        Ok(out)
    }

    /// The read position, as a count of bytes already consumed.
    pub fn position(&self) -> (r: usize)
        ensures
            r == self.pos(),
    {
        self.pos
    }

    /// The total number of bytes the cursor holds.
    pub fn len(&self) -> (r: usize)
        ensures
            r == self.bytes().len(),
    {
        self.buf.len()
    }

    /// How many bytes remain to be read.
    pub fn remaining_len(&self) -> (r: usize)
        requires
            self.wf(),
        ensures
            r == self.remaining(),
    {
        self.buf.len() - self.pos
    }

    /// Give up the cursor and hand back every byte it holds.
    pub fn into_bytes(self) -> (r: Vec<u8>)
        ensures
            r@ == self.bytes(),
    {
        self.buf
    }
}

} // verus!
