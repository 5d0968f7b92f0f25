//! A byte buffer that accumulates bytes from the transport and offers typed
//! big-endian reads with underflow errors. New bytes go into the free tail;
//! when the tail is full the unread bytes are compacted to the front, so the
//! steady-state read path never reallocates.

use vstd::prelude::*;
use crate::error::InternalError;

verus! {

/// Accumulates transport bytes and hands them out in typed reads.
pub struct ReadBuffer {
    buffer: Vec<u8>,
    begin: usize,
    end: usize,
}

impl View for ReadBuffer {
    type V = Seq<u8>;

    /// The unread bytes, in arrival order.
    closed spec fn view(&self) -> Seq<u8> {
        self.buffer@.subrange(self.begin as int, self.end as int)
    }
}

impl ReadBuffer {
    /// The fixed number of bytes the buffer can hold.
    pub closed spec fn spec_capacity(&self) -> int {
        self.buffer@.len() as int
    }

    /// The read and write indices stay inside the backing storage.
    pub closed spec fn wf(&self) -> bool {
        self.begin <= self.end <= self.buffer@.len()
    }

    /// Create an empty buffer that can hold `capacity` bytes.
    pub fn new(capacity: usize) -> (r: Self)
        ensures
            r.wf(),
            r@ == Seq::<u8>::empty(),
            r.spec_capacity() == capacity,
    {
        let mut buffer: Vec<u8> = Vec::new();
        let mut i: usize = 0;
        while i < capacity
            invariant
                i <= capacity,
                buffer@.len() == i,
            decreases capacity - i,
        {
            buffer.push(0u8);
            i = i + 1;
        }
        let r = ReadBuffer { buffer, begin: 0, end: 0 };
        assert(r@ =~= Seq::<u8>::empty());
        r
    }

    /// How many unread bytes are present.
    pub fn len(&self) -> (r: usize)
        requires
            self.wf(),
        ensures
            r == self@.len(),
    {
        self.end - self.begin
    }

    /// Whether no unread bytes are present.
    pub fn is_empty(&self) -> (r: bool)
        requires
            self.wf(),
        ensures
            r <==> self@.len() == 0,
    {
        self.begin == self.end
    }

    /// Read exactly `count` bytes, or fail without consuming anything when
    /// fewer are present.
    pub fn read(&mut self, count: usize) -> (r: Result<Vec<u8>, InternalError>)
        requires
            old(self).wf(),
        ensures
            final(self).wf(),
            final(self).spec_capacity() == old(self).spec_capacity(),
            r is Ok <==> count <= old(self)@.len(),
            r is Ok ==> r.unwrap()@ == old(self)@.take(count as int) && final(self)@ == old(
                self,
            )@.skip(count as int),
            r is Err ==> *final(self) == *old(self) && r == Err::<Vec<u8>, InternalError>(
                InternalError::InsufficientBytesForRead(count, old(self)@.len() as usize),
            ),
    {
        if self.end - self.begin < count {
            return Err(InternalError::InsufficientBytesForRead(count, self.end - self.begin));
        }
        let mut out: Vec<u8> = Vec::new();
        let mut i: usize = 0;
        while i < count
            invariant
                i <= count,
                self.begin + count <= self.end <= self.buffer@.len(),
                out@ =~= self.buffer@.subrange(self.begin as int, self.begin + i),
            decreases count - i,
        {
            out.push(self.buffer[self.begin + i]);
            assert(out@ =~= self.buffer@.subrange(self.begin as int, self.begin + i + 1));
            i = i + 1;
        }
        assert(out@ =~= old(self)@.take(count as int));
        self.begin = self.begin + count;
        assert(self@ =~= old(self)@.skip(count as int));
        Ok(out)
    }

    /// Read one byte, or fail without consuming anything when none is present.
    pub fn read_u8(&mut self) -> (r: Result<u8, InternalError>)
        requires
            old(self).wf(),
        ensures
            final(self).wf(),
            final(self).spec_capacity() == old(self).spec_capacity(),
            r is Ok <==> old(self)@.len() > 0,
            r is Ok ==> r == Ok::<u8, InternalError>(old(self)@[0]) && final(self)@ == old(
                self,
            )@.skip(1),
            r is Err ==> *final(self) == *old(self) && r == Err::<u8, InternalError>(
                InternalError::InsufficientBytesForRead(1, 0),
            ),
    {
        if self.begin == self.end {
            return Err(InternalError::InsufficientBytesForRead(1, 0));
        }
        let ret = self.buffer[self.begin];
        self.begin = self.begin + 1;
        assert(self@ =~= old(self)@.skip(1));
        Ok(ret)
    }

    /// Read a 16-bit big-endian value, high byte first. With a single byte
    /// present, that byte is consumed before the underflow is reported.
    pub fn read_u16_be(&mut self) -> (r: Result<u16, InternalError>)
        requires
            old(self).wf(),
        ensures
            final(self).wf(),
            final(self).spec_capacity() == old(self).spec_capacity(),
            r is Ok <==> old(self)@.len() >= 2,
            r is Ok ==> r == Ok::<u16, InternalError>(
                (old(self)@[0] as u16 * 256 + old(self)@[1] as u16) as u16,
            ) && final(self)@ == old(self)@.skip(2),
            r is Err ==> final(self)@ == Seq::<u8>::empty() && r == Err::<u16, InternalError>(
                InternalError::InsufficientBytesForRead(1, 0),
            ),
    {
        let b1 = match self.read_u8() {
            Ok(b) => b,
            Err(e) => {
                return Err(e);
            },
        };
        let b2 = match self.read_u8() {
            Ok(b) => b,
            Err(e) => {
                return Err(e);
            },
        };
        assert(final(self)@ =~= old(self)@.skip(2));
        Ok(b1 as u16 * 256 + b2 as u16)
    }

    /// Append transport bytes into the free tail. When the buffer has gone
    /// empty the indices reset; when the tail alone is too small the unread
    /// bytes are first moved to the front.
    pub fn append(&mut self, data: &[u8]) -> (count: usize)
        requires
            old(self).wf(),
            old(self)@.len() + data@.len() <= old(self).spec_capacity(),
        ensures
            final(self).wf(),
            final(self).spec_capacity() == old(self).spec_capacity(),
            final(self)@ == old(self)@ + data@,
            count == data@.len(),
    {
        let ghost cap0 = self.buffer@.len();
        if self.begin == self.end {
            self.begin = 0;
            self.end = 0;
            assert(self@ =~= old(self)@);
        }
        if data.len() > self.buffer.len() - self.end {
            // compact: move the unread bytes to the front
            let length = self.end - self.begin;
            let ghost before = self@;
            let ghost orig = self.buffer@;
            let ghost b0 = self.begin as int;
            let mut i: usize = 0;
            while i < length
                invariant
                    i <= length,
                    self.begin == b0,
                    self.begin + length == self.end <= self.buffer@.len(),
                    self.buffer@.len() <= usize::MAX,
                    self.buffer@.len() == orig.len(),
                    before == orig.subrange(b0, b0 + length),
                    forall|j: int| 0 <= j < i ==> self.buffer@[j] == before[j],
                    forall|j: int| b0 + i <= j < b0 + length ==> self.buffer@[j] == orig[j],
                decreases length - i,
            {
                let b = self.buffer[self.begin + i];
                assert(b == before[i as int]);
                self.buffer.set(i, b);
                i = i + 1;
            }
            self.begin = 0;
            self.end = length;
            assert(self@ =~= before);
        }
        let ghost mid = self@;
        let mut k: usize = 0;
        while k < data.len()
            invariant
                k <= data@.len(),
                self.begin <= self.end,
                self.end + (data@.len() - k) <= self.buffer@.len(),
                self.buffer@.len() == cap0,
                cap0 <= usize::MAX,
                mid + data@.take(k as int) =~= self.buffer@.subrange(
                    self.begin as int,
                    self.end as int,
                ),
            decreases data@.len() - k,
        {
            let ghost prev = self.buffer@;
            let ghost e0 = self.end as int;
            self.buffer.set(self.end, data[k]);
            self.end = self.end + 1;
            proof {
                assert(data@.take(k as int + 1) =~= data@.take(k as int) + seq![
                    data@[k as int],
                ]);
                assert(self.buffer@.subrange(self.begin as int, e0 + 1) =~= prev.subrange(
                    self.begin as int,
                    e0,
                ) + seq![data@[k as int]]);
                assert(mid + data@.take(k as int + 1) =~= self.buffer@.subrange(
                    self.begin as int,
                    self.end as int,
                ));
            }
            k = k + 1;
        }
        assert(self@ =~= old(self)@ + data@);
        data.len()
    }
}

} // verus!
