use vstd::prelude::*;

verus! {

/// Width in bytes of the debug peripheral's window: two word registers, one at
/// offset 0 (success) and one at offset 4 (failure).
pub const DEBUG_SIZE: u32 = 8;

/// The completion status that firmware reports through the debug peripheral.
#[derive(Debug, Clone, Copy, PartialEq, Eq, Structural)]
pub enum Status {
    Success,
    Failure,
}

/// The kind of a memory access.
#[derive(Debug, Clone, Copy, PartialEq, Eq, Structural)]
pub enum Access {
    Read,
    Write,
}

/// Why a word access failed.
#[derive(Debug, Clone, Copy, PartialEq, Eq, Structural)]
pub enum MemoryError {
    /// No region contains the address.
    Unmapped { addr: u32, access: Access },
    /// The address is in RAM but the word runs past its end.
    Overrun { addr: u32, access: Access },
    /// The region holds the address but does not serve this access there.
    Unsupported { addr: u32, access: Access },
}

/// The little-endian word held by bytes `off .. off + 4` of `s`.
pub open spec fn le_word(s: Seq<u8>, off: int) -> u32 {
    (s[off] as u32) | ((s[off + 1] as u32) << 8) | ((s[off + 2] as u32) << 16) | ((s[off + 3] as u32)
        << 24)
}

/// `s` with bytes `off .. off + 4` replaced by the little-endian bytes of `v`.
pub open spec fn le_store(s: Seq<u8>, off: int, v: u32) -> Seq<u8> {
    s.update(off, v as u8).update(off + 1, (v >> 8) as u8).update(off + 2, (v >> 16) as u8).update(
        off + 3,
        (v >> 24) as u8,
    )
}

/// Whether `addr` lies in the half-open interval `[base, base + size)`.
pub open spec fn in_region(base: u32, size: int, addr: u32) -> bool {
    base <= addr < base + size
}

/// A word load from RAM at `addr`, which lies in `[base, base + data.len())`.
pub open spec fn ram_load(base: u32, data: Seq<u8>, addr: u32) -> Result<u32, MemoryError> {
    let off = addr - base;
    if off + 4 <= data.len() {
        Ok(le_word(data, off))
    } else {
        Err(MemoryError::Overrun { addr, access: Access::Read })
    }
}

/// A word store into RAM at `addr`, which lies in `[base, base + data.len())`.
pub open spec fn ram_store(base: u32, data: Seq<u8>, addr: u32, v: u32) -> Result<
    Seq<u8>,
    MemoryError,
> {
    let off = addr - base;
    if off + 4 <= data.len() {
        Ok(le_store(data, off, v))
    } else {
        Err(MemoryError::Overrun { addr, access: Access::Write })
    }
}

/// The status that a write at `addr` in the debug window starting at `base` sets.
pub open spec fn debug_store(base: u32, addr: u32) -> Result<Status, MemoryError> {
    if addr - base == 0 {
        Ok(Status::Success)
    } else if addr - base == 4 {
        Ok(Status::Failure)
    } else {
        Err(MemoryError::Unsupported { addr, access: Access::Write })
    }
}

/// General-purpose memory: a byte buffer mapped at `base`.
pub struct Ram {
    pub(crate) base: u32,
    pub(crate) data: Vec<u8>,
}

impl Ram {
    pub(crate) open spec fn wf(&self) -> bool {
        self.base + self.data@.len() <= 0x1_0000_0000
    }

    /// A zero-filled RAM of `size` bytes at `base`.
    pub(crate) fn new(base: u32, size: usize) -> (r: Ram)
        requires
            base + size <= 0x1_0000_0000,
        ensures
            r.wf(),
            r.base == base,
            r.data@ == Seq::new(size as nat, |i: int| 0u8),
    {
        let data: Vec<u8> = vec![0u8; size];
        assert(data@ =~= Seq::new(size as nat, |i: int| 0u8));
        Ram { base, data }
    }

    pub(crate) fn contains(&self, addr: u32) -> (r: bool)
        ensures
            r == in_region(self.base, self.data@.len() as int, addr),
    {
        addr >= self.base && ((addr - self.base) as usize) < self.data.len()
    }

    pub(crate) fn read(&self, addr: u32) -> (r: Result<u32, MemoryError>)
        requires
            self.wf(),
            in_region(self.base, self.data@.len() as int, addr),
        ensures
            r == ram_load(self.base, self.data@, addr),
    {
        let off = (addr - self.base) as usize;
        if self.data.len() >= 4 && off <= self.data.len() - 4 {
            let b0 = self.data[off] as u32;
            let b1 = self.data[off + 1] as u32;
            let b2 = self.data[off + 2] as u32;
            let b3 = self.data[off + 3] as u32;
            Ok(b0 | (b1 << 8) | (b2 << 16) | (b3 << 24))
        } else {
            Err(MemoryError::Overrun { addr, access: Access::Read })
        }
    }

    pub(crate) fn write(&mut self, addr: u32, value: u32) -> (r: Result<(), MemoryError>)
        requires
            old(self).wf(),
            in_region(old(self).base, old(self).data@.len() as int, addr),
        ensures
            final(self).wf(),
            final(self).base == old(self).base,
            match ram_store(old(self).base, old(self).data@, addr, value) {
                Ok(data) => r is Ok && final(self).data@ == data,
                Err(e) => r == Err::<(), MemoryError>(e) && final(self).data@ == old(self).data@,
            },
    {
        let off = (addr - self.base) as usize;
        if self.data.len() >= 4 && off <= self.data.len() - 4 {
            self.data.set(off, value as u8);
            self.data.set(off + 1, (value >> 8) as u8);
            self.data.set(off + 2, (value >> 16) as u8);
            self.data.set(off + 3, (value >> 24) as u8);
            Ok(())
        } else {
            Err(MemoryError::Overrun { addr, access: Access::Write })
        }
    }

    /// Copies `src` into the buffer from byte offset `off` on.
    pub(crate) fn copy_in(&mut self, off: usize, src: &[u8])
        requires
            off + src@.len() <= old(self).data@.len(),
        ensures
            final(self).base == old(self).base,
            final(self).data@ == old(self).data@.subrange(0, off as int) + src@
                + old(self).data@.subrange(off + src@.len(), old(self).data@.len() as int),
    {
        let ghost before = self.data@;
        let len = self.data.len();
        let mut i: usize = 0;
        while i < src.len()
            invariant
                i <= src@.len(),
                off + src@.len() <= before.len(),
                before.len() == len,
                self.base == old(self).base,
                before == old(self).data@,
                self.data@.len() == before.len(),
                forall|k: int| 0 <= k < off ==> self.data@[k] == before[k],
                forall|k: int| 0 <= k < i ==> self.data@[off + k] == src@[k],
                forall|k: int| off + i <= k < before.len() ==> self.data@[k] == before[k],
            decreases src@.len() - i,
        {
            self.data.set(off + i, src[i]);
            i += 1;
        }
        assert(self.data@ =~= before.subrange(0, off as int) + src@ + before.subrange(
            off + src@.len(),
            before.len() as int,
        ));
    }
}

/// A synthetic peripheral through which firmware reports completion.
pub struct DebugPeripheral {
    pub(crate) base: u32,
    pub(crate) status: Option<Status>,
}

impl DebugPeripheral {
    pub(crate) fn contains(&self, addr: u32) -> (r: bool)
        ensures
            r == in_region(self.base, DEBUG_SIZE as int, addr),
    {
        addr >= self.base && addr - self.base < DEBUG_SIZE
    }

    /// Reads are not served: firmware only writes to this peripheral.
    pub(crate) fn read(&self, addr: u32) -> (r: Result<u32, MemoryError>)
        ensures
            r == Err::<u32, MemoryError>(MemoryError::Unsupported { addr, access: Access::Read }),
    {
        Err(MemoryError::Unsupported { addr, access: Access::Read })
    }

    /// A write at offset 0 reports success, one at offset 4 failure; the value is ignored.
    pub(crate) fn write(&mut self, addr: u32, _value: u32) -> (r: Result<(), MemoryError>)
        requires
            in_region(old(self).base, DEBUG_SIZE as int, addr),
        ensures
            final(self).base == old(self).base,
            match debug_store(old(self).base, addr) {
                Ok(s) => r is Ok && final(self).status == Some(s),
                Err(e) => r == Err::<(), MemoryError>(e) && final(self).status == old(self).status,
            },
    {
        let offset = addr - self.base;
        if offset == 0 {
            self.status = Some(Status::Success);
            Ok(())
        } else if offset == 4 {
            self.status = Some(Status::Failure);
            Ok(())
        } else {
            Err(MemoryError::Unsupported { addr, access: Access::Write })
        }
    }
}

} // verus!
