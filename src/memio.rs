use vstd::prelude::*;

verus! {

/// Why a transfer that must move a whole buffer could not.
#[derive(Debug, Clone, Copy, PartialEq, Eq, Structural)]
pub enum TransferError {
    /// Fewer bytes remain than the buffer to fill.
    ShortRead,
    /// Less room remains than the bytes to write.
    ShortWrite,
}

/// A cursor over an owned memory region: reads and writes move forward from the
/// current position and never past the region's end.
pub struct MemIo {
    buf: Vec<u8>,
    pos: usize,
}

pub struct MemIoView {
    pub bytes: Seq<u8>,
    pub pos: nat,
}

impl View for MemIo {
    type V = MemIoView;

    closed spec fn view(&self) -> MemIoView {
        MemIoView { bytes: self.buf@, pos: self.pos as nat }
    }
}

/// `dst` with its first `n` bytes replaced by `src[from .. from + n]`.
pub open spec fn overwrite_prefix(dst: Seq<u8>, src: Seq<u8>, from: int, n: int) -> Seq<u8> {
    src.subrange(from, from + n) + dst.subrange(n, dst.len() as int)
}

impl MemIo {
    pub open spec fn wf(&self) -> bool {
        self@.pos <= self@.bytes.len() <= usize::MAX
    }

    /// Bytes left between the position and the end of the region.
    pub open spec fn remaining_spec(&self) -> nat {
        (self@.bytes.len() - self@.pos) as nat
    }

    /// A cursor at the start of `buf`.
    pub fn new(buf: Vec<u8>) -> (r: MemIo)
        ensures
            r.wf(),
            r@.bytes == buf@,
            r@.pos == 0,
    {
        // the length of a `Vec` fits in a `usize`
        let _len = buf.len();
        MemIo { buf, pos: 0 }
    }

    pub fn remaining(&self) -> (r: usize)
        requires
            self.wf(),
        ensures
            r == self.remaining_spec(),
    {
        self.buf.len() - self.pos
    }

    /// The current position.
    pub fn position(&self) -> (r: usize)
        ensures
            r == self@.pos,
    {
        self.pos
    }

    /// The whole region.
    pub fn as_bytes(&self) -> (r: &Vec<u8>)
        ensures
            r@ == self@.bytes,
    {
        &self.buf
    }

    /// Copies `count` bytes from the position into the front of `buf`.
    fn copy_out(&self, buf: &mut [u8], count: usize)
        requires
            self.wf(),
            count <= old(buf)@.len(),
            count <= self.remaining_spec(),
        ensures
            final(buf)@ == overwrite_prefix(old(buf)@, self@.bytes, self@.pos as int, count as int),
    {
        let ghost before = buf@;
        let mut i: usize = 0;
        while i < count
            invariant
                self.wf(),
                count <= before.len(),
                count <= self.remaining_spec(),
                i <= count,
                buf@.len() == before.len(),
                forall|k: int| 0 <= k < i ==> buf@[k] == self@.bytes[self@.pos + k],
                forall|k: int| i <= k < before.len() ==> buf@[k] == before[k],
            decreases count - i,
        {
            buf[i] = self.buf[self.pos + i];
            i += 1;
        }
        assert(buf@ =~= overwrite_prefix(before, self@.bytes, self@.pos as int, count as int));
    }

    /// Copies the first `count` bytes of `buf` into the region at the position.
    fn copy_in(&mut self, buf: &[u8], count: usize)
        requires
            old(self).wf(),
            count <= buf@.len(),
            count <= old(self).remaining_spec(),
        ensures
            final(self).wf(),
            final(self)@.pos == old(self)@.pos,
            final(self)@.bytes == old(self)@.bytes.subrange(0, old(self)@.pos as int)
                + buf@.subrange(0, count as int) + old(self)@.bytes.subrange(
                old(self)@.pos + count,
                old(self)@.bytes.len() as int,
            ),
    {
        let ghost before = self.buf@;
        let mut i: usize = 0;
        while i < count
            invariant
                self.pos == old(self).pos,
                self.pos <= before.len() <= usize::MAX,
                count <= buf@.len(),
                count <= before.len() - self.pos,
                i <= count,
                self.buf@.len() == before.len(),
                before == old(self).buf@,
                forall|k: int| 0 <= k < self.pos ==> self.buf@[k] == before[k],
                forall|k: int| 0 <= k < i ==> self.buf@[self.pos + k] == buf@[k],
                forall|k: int| self.pos + i <= k < before.len() ==> self.buf@[k] == before[k],
            decreases count - i,
        {
            let p = self.pos;
            self.buf.set(p + i, buf[i]);
            i += 1;
        }
        assert(self.buf@ =~= before.subrange(0, self.pos as int) + buf@.subrange(0, count as int)
            + before.subrange(self.pos + count, before.len() as int));
    }

    /// Reads as many bytes as both the region and `buf` allow, and returns how many.
    pub fn read(&mut self, buf: &mut [u8]) -> (r: usize)
        requires
            old(self).wf(),
        ensures
            final(self).wf(),
            r == (if old(self).remaining_spec() < old(buf)@.len() {
                old(self).remaining_spec()
            } else {
                old(buf)@.len() as nat
            }),
            final(buf)@ == overwrite_prefix(old(buf)@, old(self)@.bytes, old(self)@.pos as int, r as int),
            final(self)@.bytes == old(self)@.bytes,
            final(self)@.pos == old(self)@.pos + r,
    {
        let available = self.remaining();
        if available == 0 {
            assert(buf@ =~= overwrite_prefix(buf@, self@.bytes, self@.pos as int, 0));
            return 0;
        }
        let count = if available < buf.len() {
            available
        } else {
            buf.len()
        };
        self.copy_out(buf, count);
        self.pos = self.pos + count;
        count
    }

    /// Fills `buf` completely, or fails without moving when too few bytes remain.
    pub fn read_exact(&mut self, buf: &mut [u8]) -> (r: Result<(), TransferError>)
        requires
            old(self).wf(),
        ensures
            final(self).wf(),
            final(self)@.bytes == old(self)@.bytes,
            old(self).remaining_spec() < old(buf)@.len() ==> r == Err::<(), TransferError>(
                TransferError::ShortRead,
            ) && final(self)@ == old(self)@ && final(buf)@ == old(buf)@,
            old(self).remaining_spec() >= old(buf)@.len() ==> r is Ok && final(buf)@
                == old(self)@.bytes.subrange(old(self)@.pos as int, (old(self)@.pos + old(buf)@.len()) as int)
                && final(self)@.pos == old(self)@.pos + old(buf)@.len(),
    {
        if self.remaining() < buf.len() {
            return Err(TransferError::ShortRead);
        }
        let n = buf.len();
        self.copy_out(buf, n);
        assert(buf@ =~= self@.bytes.subrange(self@.pos as int, self@.pos + n));
        self.pos = self.pos + n;
        Ok(())
    }

    /// Writes as many bytes of `buf` as the region has room for, and returns how many.
    pub fn write(&mut self, buf: &[u8]) -> (r: usize)
        requires
            old(self).wf(),
        ensures
            final(self).wf(),
            r == (if old(self).remaining_spec() < buf@.len() {
                old(self).remaining_spec()
            } else {
                buf@.len() as nat
            }),
            final(self)@.bytes == old(self)@.bytes.subrange(0, old(self)@.pos as int)
                + buf@.subrange(0, r as int) + old(self)@.bytes.subrange(
                old(self)@.pos + r,
                old(self)@.bytes.len() as int,
            ),
            final(self)@.pos == old(self)@.pos + r,
    {
        let available = self.remaining();
        if available == 0 {
            assert(self.buf@ =~= self.buf@.subrange(0, self.pos as int) + buf@.subrange(0, 0)
                + self.buf@.subrange(self.pos as int, self.buf@.len() as int));
            return 0;
        }
        let count = if available < buf.len() {
            available
        } else {
            buf.len()
        };
        self.copy_in(buf, count);
        self.pos = self.pos + count;
        count
    }

    /// Writes all of `buf`, or fails without change when the region has too little
    /// room left.
    pub fn write_all(&mut self, buf: &[u8]) -> (r: Result<(), TransferError>)
        requires
            old(self).wf(),
        ensures
            final(self).wf(),
            old(self).remaining_spec() < buf@.len() ==> r == Err::<(), TransferError>(
                TransferError::ShortWrite,
            ) && final(self)@ == old(self)@,
            old(self).remaining_spec() >= buf@.len() ==> r is Ok && final(self)@.bytes
                == old(self)@.bytes.subrange(0, old(self)@.pos as int) + buf@
                + old(self)@.bytes.subrange((old(self)@.pos + buf@.len()) as int, old(self)@.bytes.len() as int)
                && final(self)@.pos == old(self)@.pos + buf@.len(),
    {
        if self.remaining() < buf.len() {
            return Err(TransferError::ShortWrite);
        }
        let n = buf.len();
        self.copy_in(buf, n);
        assert(buf@.subrange(0, n as int) =~= buf@);
        self.pos = self.pos + n;
        Ok(())
    }
}

} // verus!
