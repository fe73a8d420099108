//! Host-owned linear memory shared with the sandbox, with bounds-checked access.
use vstd::prelude::*;

verus! {

/// Largest linear memory the host hands out: every offset and length fits an `i32`.
pub const MAX_MEMORY_BYTES: usize = 0x7fff_ffff;

/// Why a host call on linear memory failed: a range outside the memory, text
/// that is not UTF-8, or a trace level with no name.
#[derive(Debug, Clone, Copy, PartialEq, Eq, Structural)]
pub enum AccessError {
    OutOfBounds,
    InvalidUtf8,
    UnknownTraceLevel,
}

/// `m` with the bytes `d` written from offset `at` on.
pub open spec fn written(m: Seq<u8>, at: int, d: Seq<u8>) -> Seq<u8> {
    m.subrange(0, at) + d + m.subrange(at + d.len(), m.len() as int)
}

/// Whether `[at, at + len)` lies inside a memory of `size` bytes.
pub open spec fn in_bounds(size: nat, at: int, len: int) -> bool {
    0 <= at && 0 <= len && at + len <= size
}

/// The byte buffer that the sandbox sees as its linear memory.
pub struct LinearMemory {
    bytes: Vec<u8>,
}

impl View for LinearMemory {
    type V = Seq<u8>;

    closed spec fn view(&self) -> Seq<u8> {
        self.bytes@
    }
}

impl LinearMemory {
    /// Every offset into the memory fits an `i32`.
    pub open spec fn wf(&self) -> bool {
        self@.len() <= MAX_MEMORY_BYTES
    }

    /// A zeroed memory of `size` bytes.
    pub fn new(size: usize) -> (r: LinearMemory)
        requires
            size <= MAX_MEMORY_BYTES,
        ensures
            r.wf(),
            r@ == Seq::new(size as nat, |i: int| 0u8),
    {
        let mut bytes: Vec<u8> = Vec::new();
        let mut i: usize = 0;
        while i < size
            invariant
                i <= size,
                bytes@ == Seq::new(i as nat, |j: int| 0u8),
            decreases size - i,
        {
            bytes.push(0u8);
            i = i + 1;
            assert(bytes@ =~= Seq::new(i as nat, |j: int| 0u8));
        }
        LinearMemory { bytes }
    }

    /// Takes over the given bytes as memory; `None` where they are too many.
    pub fn from_bytes(bytes: Vec<u8>) -> (r: Option<LinearMemory>)
        ensures
            match r {
                Some(m) => m.wf() && m@ == bytes@,
                None => bytes@.len() > MAX_MEMORY_BYTES,
            },
    {
        if bytes.len() <= MAX_MEMORY_BYTES {
            Some(LinearMemory { bytes })
        } else {
            None
        }
    }

    /// The memory's contents.
    pub fn as_bytes(&self) -> (r: &[u8])
        ensures
            r@ == self@,
    {
        self.bytes.as_slice()
    }

    pub fn len(&self) -> (r: usize)
        ensures
            r == self@.len(),
    {
        self.bytes.len()
    }

    /// The byte at offset `at`.
    pub fn read_byte(&self, at: i32) -> (r: Result<u8, AccessError>)
        ensures
            match r {
                Ok(b) => in_bounds(self@.len(), at as int, 1) && b == self@[at as int],
                Err(e) => e == AccessError::OutOfBounds && !in_bounds(self@.len(), at as int, 1),
            },
    {
        if at < 0 || at as usize >= self.bytes.len() {
            return Err(AccessError::OutOfBounds);
        }
        Ok(self.bytes[at as usize])
    }

    /// A copy of the `len` bytes from offset `at` on.
    pub fn read_range(&self, at: i32, len: usize) -> (r: Result<Vec<u8>, AccessError>)
        ensures
            match r {
                Ok(v) => in_bounds(self@.len(), at as int, len as int)
                    && v@ == self@.subrange(at as int, at + len),
                Err(e) => e == AccessError::OutOfBounds && !in_bounds(self@.len(), at as int, len as int),
            },
    {
        if at < 0 || len > self.bytes.len() || at as usize > self.bytes.len() - len {
            return Err(AccessError::OutOfBounds);
        }
        let start = at as usize;
        let mut out: Vec<u8> = Vec::new();
        let mut i: usize = 0;
        while i < len
            invariant
                i <= len,
                start + len <= self.bytes@.len(),
                start + len <= usize::MAX,
                out@ == self.bytes@.subrange(start as int, start + i),
            decreases len - i,
        {
            out.push(self.bytes[start + i]);
            i = i + 1;
            assert(out@ =~= self.bytes@.subrange(start as int, start + i));
        }
        Ok(out)
    }

    /// Writes `data` from offset `at` on; leaves the memory as it was where that
    /// range does not fit.
    pub fn write_bytes(&mut self, at: i32, data: &[u8]) -> (r: Result<(), AccessError>)
        ensures
            final(self)@.len() == old(self)@.len(),
            match r {
                Ok(()) => in_bounds(old(self)@.len(), at as int, data@.len() as int)
                    && final(self)@ == written(old(self)@, at as int, data@),
                Err(e) => e == AccessError::OutOfBounds && !in_bounds(old(self)@.len(), at as int, data@.len() as int)
                    && final(self)@ == old(self)@,
            },
    {
        let len = data.len();
        if at < 0 || len > self.bytes.len() || at as usize > self.bytes.len() - len {
            return Err(AccessError::OutOfBounds);
        }
        let start = at as usize;
        let ghost before = self.bytes@;
        let mut i: usize = 0;
        while i < len
            invariant
                i <= len,
                len == data@.len(),
                start + len <= before.len(),
                start + len <= usize::MAX,
                self.bytes@.len() == before.len(),
                self.bytes@ == written(before, start as int, data@.subrange(0, i as int)),
            decreases len - i,
        {
            self.bytes.set(start + i, data[i]);
            i = i + 1;
            assert(self.bytes@ =~= written(before, start as int, data@.subrange(0, i as int)));
        }
        assert(data@.subrange(0, len as int) =~= data@);
        Ok(())
    }

    /// Writes the single byte `b` at offset `at`.
    pub fn write_byte(&mut self, at: i32, b: u8) -> (r: Result<(), AccessError>)
        ensures
            final(self)@.len() == old(self)@.len(),
            match r {
                Ok(()) => in_bounds(old(self)@.len(), at as int, 1)
                    && final(self)@ == old(self)@.update(at as int, b),
                Err(e) => e == AccessError::OutOfBounds && !in_bounds(old(self)@.len(), at as int, 1) && final(self)@ == old(self)@,
            },
    {
        if at < 0 || at as usize >= self.bytes.len() {
            return Err(AccessError::OutOfBounds);
        }
        self.bytes.set(at as usize, b);
        Ok(())
    }
}

} // verus!
