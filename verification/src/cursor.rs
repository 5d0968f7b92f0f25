//! A write cursor over a fixed backing buffer: typed big-endian writes and
//! seeking, used to back-fill the MBAP length field. Every operation fails
//! rather than truncating.

use vstd::prelude::*;
use crate::error::InternalError;

verus! {

/// Writes into a fixed-size backing buffer, tracking the current position.
pub struct WriteCursor {
    buf: Vec<u8>,
    pos: usize,
}

impl WriteCursor {
    /// The bytes of the backing buffer.
    pub closed spec fn spec_buf(&self) -> Seq<u8> {
        self.buf@
    }

    /// The current write position.
    pub closed spec fn spec_pos(&self) -> int {
        self.pos as int
    }

    /// The position never runs past the end of the backing buffer.
    pub open spec fn wf(&self) -> bool {
        self.spec_pos() <= self.spec_buf().len()
    }

    /// Create a cursor over a zeroed buffer of the given size.
    pub fn new(size: usize) -> (r: Self)
        ensures
            r.wf(),
            r.spec_buf() == Seq::<u8>::new(size as nat, |i: int| 0u8),
            r.spec_pos() == 0,
    {
        let mut buf: Vec<u8> = Vec::new();
        let mut i: usize = 0;
        while i < size
            invariant
                i <= size,
                buf@ =~= Seq::<u8>::new(i as nat, |j: int| 0u8),
            decreases size - i,
        {
            buf.push(0u8);
            i = i + 1;
        }
        assert(buf@ =~= Seq::<u8>::new(size as nat, |j: int| 0u8));
        WriteCursor { buf, pos: 0 }
    }

    /// The current write position.
    pub fn position(&self) -> (r: usize)
        ensures
            r == self.spec_pos(),
    {
        self.pos
    }

    /// How many bytes remain between the position and the end of the buffer.
    pub fn remaining(&self) -> (r: usize)
        requires
            self.wf(),
        ensures
            r == self.spec_buf().len() - self.spec_pos(),
    {
        self.buf.len() - self.pos
    }

    /// Write one byte at the current position and advance past it.
    pub fn write_u8(&mut self, value: u8) -> (r: Result<(), InternalError>)
        requires
            old(self).wf(),
        ensures
            final(self).wf(),
            final(self).spec_buf().len() == old(self).spec_buf().len(),
            r is Ok <==> old(self).spec_pos() < old(self).spec_buf().len(),
            r is Ok ==> final(self).spec_buf() == old(self).spec_buf().update(
                old(self).spec_pos(),
                value,
            ) && final(self).spec_pos() == old(self).spec_pos() + 1,
            r is Err ==> *final(self) == *old(self) && r == Err::<(), InternalError>(
                InternalError::InsufficientWriteSpace(1, 0),
            ),
    {
        if self.pos < self.buf.len() {
            self.buf.set(self.pos, value);
            self.pos = self.pos + 1;
            Ok(())
        } else {
            Err(InternalError::InsufficientWriteSpace(1, 0))
        }
    }

    /// Write a 16-bit value big-endian: high byte first.
    pub fn write_u16_be(&mut self, value: u16) -> (r: Result<(), InternalError>)
        requires
            old(self).wf(),
        ensures
            final(self).wf(),
            final(self).spec_buf().len() == old(self).spec_buf().len(),
            r is Ok <==> old(self).spec_pos() + 2 <= old(self).spec_buf().len(),
            r is Ok ==> final(self).spec_buf() == old(self).spec_buf().update(
                old(self).spec_pos(),
                (value / 256) as u8,
            ).update(old(self).spec_pos() + 1, (value % 256) as u8) && final(self).spec_pos()
                == old(self).spec_pos() + 2,
            r is Err ==> *final(self) == *old(self) && r == Err::<(), InternalError>(
                InternalError::InsufficientWriteSpace(
                    2,
                    (old(self).spec_buf().len() - old(self).spec_pos()) as usize,
                ),
            ),
    {
        if self.buf.len() - self.pos < 2 {
            return Err(InternalError::InsufficientWriteSpace(2, self.buf.len() - self.pos));
        }
        let hi: u8 = (value / 256) as u8;
        let lo: u8 = (value % 256) as u8;
        self.buf.set(self.pos, hi);
        self.buf.set(self.pos + 1, lo);
        self.pos = self.pos + 2;
        Ok(())
    }

    /// Write a whole slice at the current position.
    pub fn write_slice(&mut self, data: &[u8]) -> (r: Result<(), InternalError>)
        requires
            old(self).wf(),
        ensures
            final(self).wf(),
            final(self).spec_buf().len() == old(self).spec_buf().len(),
            r is Ok <==> old(self).spec_pos() + data@.len() <= old(self).spec_buf().len(),
            r is Ok ==> ({
                &&& final(self).spec_pos() == old(self).spec_pos() + data@.len()
                &&& final(self).spec_buf() == old(self).spec_buf().take(old(self).spec_pos())
                    + data@ + old(self).spec_buf().skip(old(self).spec_pos() + data@.len())
            }),
            r is Err ==> *final(self) == *old(self) && r == Err::<(), InternalError>(
                InternalError::InsufficientWriteSpace(
                    data@.len() as usize,
                    (old(self).spec_buf().len() - old(self).spec_pos()) as usize,
                ),
            ),
    {
        if self.buf.len() - self.pos < data.len() {
            return Err(InternalError::InsufficientWriteSpace(
                data.len(),
                self.buf.len() - self.pos,
            ));
        }
        let ghost orig_buf = self.buf@;
        let ghost orig_pos = self.pos as int;
        let mut i: usize = 0;
        while i < data.len()
            invariant
                i <= data@.len(),
                0 <= orig_pos,
                self.pos == orig_pos + i,
                orig_pos + data@.len() <= self.buf@.len(),
                self.buf@.len() <= usize::MAX,
                self.buf@.len() == orig_buf.len(),
                forall|j: int| 0 <= j < orig_pos ==> self.buf@[j] == orig_buf[j],
                forall|j: int| 0 <= j < i ==> self.buf@[orig_pos + j] == data@[j],
                forall|j: int|
                    orig_pos + data@.len() <= j < self.buf@.len() ==> self.buf@[j] == orig_buf[j],
            decreases data@.len() - i,
        {
            let ghost prev = self.buf@;
            self.buf.set(self.pos, data[i]);
            proof {
                assert(self.buf@ == prev.update(orig_pos + i, data@[i as int]));
                assert forall|j: int| 0 <= j < i + 1 implies self.buf@[orig_pos + j]
                    == data@[j] by {
                    if j < i {
                        assert(self.buf@[orig_pos + j] == prev[orig_pos + j]);
                    } else {
                        assert(self.buf@[orig_pos + j] == data@[i as int]);
                    }
                }
            }
            self.pos = self.pos + 1;
            i = i + 1;
        }
        assert(self.buf@ =~= old(self).spec_buf().take(old(self).spec_pos()) + data@ + old(
            self,
        ).spec_buf().skip(old(self).spec_pos() + data@.len()));
        Ok(())
    }

    /// Move the position to an absolute offset inside the buffer.
    pub fn seek_from_start(&mut self, pos: usize) -> (r: Result<(), InternalError>)
        requires
            old(self).wf(),
        ensures
            final(self).wf(),
            final(self).spec_buf() == old(self).spec_buf(),
            r is Ok <==> pos <= old(self).spec_buf().len(),
            r is Ok ==> final(self).spec_pos() == pos,
            r is Err ==> *final(self) == *old(self) && r == Err::<(), InternalError>(
                InternalError::BadSeekOperation,
            ),
    {
        if pos <= self.buf.len() {
            self.pos = pos;
            Ok(())
        } else {
            Err(InternalError::BadSeekOperation)
        }
    }

    /// Move the position forward by a relative offset.
    pub fn seek_from_current(&mut self, delta: usize) -> (r: Result<(), InternalError>)
        requires
            old(self).wf(),
        ensures
            final(self).wf(),
            final(self).spec_buf() == old(self).spec_buf(),
            r is Ok <==> old(self).spec_pos() + delta <= old(self).spec_buf().len(),
            r is Ok ==> final(self).spec_pos() == old(self).spec_pos() + delta,
            r is Err ==> *final(self) == *old(self) && r == Err::<(), InternalError>(
                InternalError::BadSeekOperation,
            ),
    {
        if delta <= self.buf.len() - self.pos {
            self.pos = self.pos + delta;
            Ok(())
        } else {
            Err(InternalError::BadSeekOperation)
        }
    }

    /// Copy out the first `size` bytes of the backing buffer: the formatted
    /// frame image once formatting is done.
    pub fn written(&self, size: usize) -> (r: Vec<u8>)
        requires
            self.wf(),
            size <= self.spec_buf().len(),
        ensures
            r@ == self.spec_buf().take(size as int),
    {
        let mut out: Vec<u8> = Vec::new();
        let mut i: usize = 0;
        while i < size
            invariant
                i <= size,
                size <= self.buf@.len(),
                out@ =~= self.buf@.take(i as int),
            decreases size - i,
        {
            out.push(self.buf[i]);
            assert(out@ =~= self.buf@.take(i + 1));
            i = i + 1;
        }
        assert(out@ =~= self.spec_buf().take(size as int));
        out
    }
}

} // verus!
