use vstd::bytes::{
    spec_u32_from_le_bytes, spec_u32_to_le_bytes, spec_u64_from_le_bytes, spec_u64_to_le_bytes,
    u32_from_le_bytes, u32_to_le_bytes, u64_from_le_bytes, u64_to_le_bytes,
};
use vstd::prelude::*;

use crate::error::HyperlightError;
use crate::layout::{page_up, PAGE_SIZE};

verus! {

/// `bytes` with `src` written over it from `offset` on.
pub open spec fn splice(bytes: Seq<u8>, offset: int, src: Seq<u8>) -> Seq<u8> {
    bytes.subrange(0, offset) + src + bytes.subrange(offset + src.len(), bytes.len() as int)
}

/// The little-endian `u64` stored at `offset`.
pub open spec fn u64_at(bytes: Seq<u8>, offset: int) -> u64 {
    spec_u64_from_le_bytes(bytes.subrange(offset, offset + 8))
}

/// The little-endian `u32` stored at `offset`.
pub open spec fn u32_at(bytes: Seq<u8>, offset: int) -> u32 {
    spec_u32_from_le_bytes(bytes.subrange(offset, offset + 4))
}

/// `bytes` after a little-endian `u64` write of `v` at `offset`.
pub open spec fn with_u64(bytes: Seq<u8>, offset: int, v: u64) -> Seq<u8> {
    splice(bytes, offset, spec_u64_to_le_bytes(v))
}

/// `bytes` after a little-endian `u32` write of `v` at `offset`.
pub open spec fn with_u32(bytes: Seq<u8>, offset: int, v: u32) -> Seq<u8> {
    splice(bytes, offset, spec_u32_to_le_bytes(v))
}

/// A `u64` written at `o` reads back at `o`, and a read at a disjoint
/// offset sees the bytes from before the write.
pub broadcast proof fn lemma_u64_at_with_u64(b: Seq<u8>, o: int, v: u64, f: int)
    requires
        0 <= o,
        o + 8 <= b.len(),
        0 <= f,
        f + 8 <= b.len(),
        f == o || f + 8 <= o || o + 8 <= f,
    ensures
        #[trigger] u64_at(with_u64(b, o, v), f) == if f == o {
            v
        } else {
            u64_at(b, f)
        },
{
    vstd::bytes::lemma_auto_spec_u64_to_from_le_bytes();
    let a = with_u64(b, o, v);
    assert(spec_u64_to_le_bytes(v).len() == 8);
    if f == o {
        assert(a.subrange(f, f + 8) =~= spec_u64_to_le_bytes(v));
    } else {
        assert(a.subrange(f, f + 8) =~= b.subrange(f, f + 8));
    }
}

/// A `u64` write leaves every byte outside its eight alone.
pub broadcast proof fn lemma_with_u64_index(b: Seq<u8>, o: int, v: u64, j: int)
    requires
        0 <= o,
        o + 8 <= b.len(),
        0 <= j < b.len(),
        !(o <= j < o + 8),
    ensures
        #[trigger] with_u64(b, o, v)[j] == b[j],
{
    vstd::bytes::lemma_auto_spec_u64_to_from_le_bytes();
    assert(spec_u64_to_le_bytes(v).len() == 8);
}

/// A `u64` write keeps the length of the bytes.
pub broadcast proof fn lemma_with_u64_len(b: Seq<u8>, o: int, v: u64)
    requires
        0 <= o,
        o + 8 <= b.len(),
    ensures
        #[trigger] with_u64(b, o, v).len() == b.len(),
{
    vstd::bytes::lemma_auto_spec_u64_to_from_le_bytes();
    assert(spec_u64_to_le_bytes(v).len() == 8);
}

/// The address at which the buffer's first byte lives in this process.
/// Relies on `Vec::as_ptr`; nothing is known of the value.
#[verifier::external_body]
fn address_of(bytes: &Vec<u8>) -> usize {
    bytes.as_ptr() as usize
}

/// A block of host memory, a whole number of pages long, that the guest sees
/// as its physical memory. Every typed access is checked against the block's
/// bounds. The block itself is an ordinary heap allocation: its start is not
/// promised to be page-aligned.
#[derive(Debug)]
pub struct SharedMemory {
    bytes: Vec<u8>,
    base_addr: usize,
}

impl View for SharedMemory {
    type V = Seq<u8>;

    closed spec fn view(&self) -> Seq<u8> {
        self.bytes@
    }
}

impl SharedMemory {
    /// Host address of the first byte of the block.
    pub closed spec fn spec_base_addr(&self) -> usize {
        self.base_addr
    }

    /// A zeroed block of `min_size` bytes rounded up to a whole number of
    /// pages. Fails when `min_size` is zero or cannot be rounded up.
    pub fn new(min_size: usize) -> (r: Result<SharedMemory, HyperlightError>)
        ensures
            (min_size == 0 || min_size + PAGE_SIZE - 1 > usize::MAX) <==> r is Err,
            r is Err ==> r->Err_0 == HyperlightError::MemoryAllocationFailed(min_size),
            r is Ok ==> r->Ok_0@.len() == page_up(min_size as int),
            r is Ok ==> forall|i: int| 0 <= i < r->Ok_0@.len() ==> r->Ok_0@[i] == 0u8,
    {
        if min_size == 0 || min_size > usize::MAX - (PAGE_SIZE - 1) {
            return Err(HyperlightError::MemoryAllocationFailed(min_size));
        }
        let size = crate::layout::round_up_to(min_size, PAGE_SIZE);
        let bytes: Vec<u8> = vec![0u8; size];
        let base_addr = address_of(&bytes);
        Ok(SharedMemory { bytes, base_addr })
    }

    /// Size of the block in bytes.
    pub fn mem_size(&self) -> (r: usize)
        ensures
            r == self@.len(),
    {
        self.bytes.len()
    }

    /// Host address of the first byte of the block.
    pub fn base_addr(&self) -> (r: usize)
        ensures
            r == self.spec_base_addr(),
    {
        self.base_addr
    }

    /// Host address of the byte at `offset`; fails when `offset` is outside
    /// the block or the address does not fit a `usize`.
    pub fn calculate_address(&self, offset: usize) -> (r: Result<usize, HyperlightError>)
        ensures
            r is Ok <==> offset < self@.len() && self.spec_base_addr() + offset <= usize::MAX,
            r is Ok ==> r->Ok_0 == self.spec_base_addr() + offset,
            r is Err ==> r->Err_0 == HyperlightError::MemoryAccessOutOfBounds(offset, 1, self@.len() as usize),
    {
        if offset >= self.bytes.len() || self.base_addr > usize::MAX - offset {
            return Err(HyperlightError::MemoryAccessOutOfBounds(offset, 1, self.bytes.len()));
        }
        Ok(self.base_addr + offset)
    }

    /// Copy of the `len` bytes at `offset`.
    fn bytes_at(&self, offset: usize, len: usize) -> (r: Vec<u8>)
        requires
            offset + len <= self@.len(),
        ensures
            r@ == self@.subrange(offset as int, offset + len),
    {
        let total = self.bytes.len();
        let mut out: Vec<u8> = Vec::with_capacity(len);
        let mut i: usize = 0;
        while i < len
            invariant
                offset + len <= self@.len(),
                self@.len() == total,
                i <= len,
                out@ == self@.subrange(offset as int, offset + i),
            decreases len - i,
        {
            out.push(self.bytes[offset + i]);
            i = i + 1;
            assert(out@ =~= self@.subrange(offset as int, offset + i));
        }
        out
    }

    /// Write `src` into the block at `offset`, which must be in bounds.
    fn write_bytes(&mut self, src: &[u8], offset: usize)
        requires
            offset + src@.len() <= old(self)@.len(),
        ensures
            final(self)@ == splice(old(self)@, offset as int, src@),
            final(self).spec_base_addr() == old(self).spec_base_addr(),
    {
        let ghost before = self@;
        let total = self.bytes.len();
        let mut i: usize = 0;
        while i < src.len()
            invariant
                offset + src@.len() <= before.len(),
                before.len() == total,
                i <= src@.len(),
                self@.len() == before.len(),
                self.spec_base_addr() == old(self).spec_base_addr(),
                forall|j: int| 0 <= j < offset ==> self@[j] == before[j],
                forall|j: int| offset + src@.len() <= j < before.len() ==> self@[j] == before[j],
                forall|j: int| offset + i <= j < offset + src@.len() ==> self@[j] == before[j],
                forall|j: int| 0 <= j < i ==> self@[offset + j] == src@[j],
            decreases src@.len() - i,
        {
            self.bytes[offset + i] = src[i];
            i = i + 1;
        }
        assert(self@ =~= splice(before, offset as int, src@));
    }

    /// Read the little-endian `u64` at `offset`.
    pub fn read_u64(&self, offset: usize) -> (r: Result<u64, HyperlightError>)
        ensures
            r is Ok <==> offset + 8 <= self@.len(),
            r is Ok ==> r->Ok_0 == u64_at(self@, offset as int),
            r is Err ==> r->Err_0 == HyperlightError::MemoryAccessOutOfBounds(offset, 8, self@.len() as usize),
    {
        if offset > self.bytes.len() || self.bytes.len() - offset < 8 {
            return Err(HyperlightError::MemoryAccessOutOfBounds(offset, 8, self.bytes.len()));
        }
        let b = self.bytes_at(offset, 8);
        Ok(u64_from_le_bytes(b.as_slice()))
    }

    /// Read the little-endian `i64` at `offset`.
    pub fn read_i64(&self, offset: usize) -> (r: Result<i64, HyperlightError>)
        ensures
            r is Ok <==> offset + 8 <= self@.len(),
            r is Ok ==> r->Ok_0 == u64_at(self@, offset as int) as i64,
            r is Err ==> r->Err_0 == HyperlightError::MemoryAccessOutOfBounds(offset, 8, self@.len() as usize),
    {
        match self.read_u64(offset) {
            Ok(v) => Ok(v as i64),
            Err(e) => Err(e),
        }
    }

    /// Read the little-endian `u32` at `offset`.
    pub fn read_u32(&self, offset: usize) -> (r: Result<u32, HyperlightError>)
        ensures
            r is Ok <==> offset + 4 <= self@.len(),
            r is Ok ==> r->Ok_0 == u32_at(self@, offset as int),
            r is Err ==> r->Err_0 == HyperlightError::MemoryAccessOutOfBounds(offset, 4, self@.len() as usize),
    {
        if offset > self.bytes.len() || self.bytes.len() - offset < 4 {
            return Err(HyperlightError::MemoryAccessOutOfBounds(offset, 4, self.bytes.len()));
        }
        let b = self.bytes_at(offset, 4);
        Ok(u32_from_le_bytes(b.as_slice()))
    }

    /// Read the little-endian `i32` at `offset`.
    pub fn read_i32(&self, offset: usize) -> (r: Result<i32, HyperlightError>)
        ensures
            r is Ok <==> offset + 4 <= self@.len(),
            r is Ok ==> r->Ok_0 == u32_at(self@, offset as int) as i32,
            r is Err ==> r->Err_0 == HyperlightError::MemoryAccessOutOfBounds(offset, 4, self@.len() as usize),
    {
        match self.read_u32(offset) {
            Ok(v) => Ok(v as i32),
            Err(e) => Err(e),
        }
    }

    /// Write `value` as a little-endian `u64` at `offset`.
    pub fn write_u64(&mut self, offset: usize, value: u64) -> (r: Result<(), HyperlightError>)
        ensures
            r is Ok <==> offset + 8 <= old(self)@.len(),
            r is Ok ==> final(self)@ == with_u64(old(self)@, offset as int, value),
            r is Err ==> final(self)@ == old(self)@ && r->Err_0
                == HyperlightError::MemoryAccessOutOfBounds(offset, 8, old(self)@.len() as usize),
            final(self).spec_base_addr() == old(self).spec_base_addr(),
    {
        if offset > self.bytes.len() || self.bytes.len() - offset < 8 {
            return Err(HyperlightError::MemoryAccessOutOfBounds(offset, 8, self.bytes.len()));
        }
        let b = u64_to_le_bytes(value);
        self.write_bytes(b.as_slice(), offset);
        Ok(())
    }

    /// Write `value` as a little-endian `i32` at `offset`.
    pub fn write_i32(&mut self, offset: usize, value: i32) -> (r: Result<(), HyperlightError>)
        ensures
            r is Ok <==> offset + 4 <= old(self)@.len(),
            r is Ok ==> final(self)@ == with_u32(old(self)@, offset as int, value as u32),
            r is Err ==> final(self)@ == old(self)@ && r->Err_0
                == HyperlightError::MemoryAccessOutOfBounds(offset, 4, old(self)@.len() as usize),
            final(self).spec_base_addr() == old(self).spec_base_addr(),
    {
        if offset > self.bytes.len() || self.bytes.len() - offset < 4 {
            return Err(HyperlightError::MemoryAccessOutOfBounds(offset, 4, self.bytes.len()));
        }
        let b = u32_to_le_bytes(value as u32);
        self.write_bytes(b.as_slice(), offset);
        Ok(())
    }

    /// Copy `src` into the block at `offset`; fails, changing nothing, when
    /// it does not fit.
    pub fn copy_from_slice(&mut self, src: &[u8], offset: usize) -> (r: Result<(), HyperlightError>)
        ensures
            r is Ok <==> offset + src@.len() <= old(self)@.len(),
            r is Ok ==> final(self)@ == splice(old(self)@, offset as int, src@),
            r is Err ==> final(self)@ == old(self)@ && r->Err_0
                == HyperlightError::MemoryAccessOutOfBounds(offset, src@.len() as usize, old(self)@.len() as usize),
            final(self).spec_base_addr() == old(self).spec_base_addr(),
    {
        if offset > self.bytes.len() || self.bytes.len() - offset < src.len() {
            return Err(HyperlightError::MemoryAccessOutOfBounds(offset, src.len(), self.bytes.len()));
        }
        self.write_bytes(src, offset);
        Ok(())
    }

    /// Fill `dst` with the bytes of the block from `offset` on; fails,
    /// changing nothing, when they are not all in the block.
    pub fn copy_to_slice(&self, dst: &mut [u8], offset: usize) -> (r: Result<(), HyperlightError>)
        ensures
            r is Ok <==> offset + old(dst)@.len() <= self@.len(),
            r is Ok ==> final(dst)@ == self@.subrange(offset as int, offset + old(dst)@.len()),
            r is Err ==> final(dst)@ == old(dst)@ && r->Err_0
                == HyperlightError::MemoryAccessOutOfBounds(offset, old(dst)@.len() as usize, self@.len() as usize),
    {
        if offset > self.bytes.len() || self.bytes.len() - offset < dst.len() {
            return Err(HyperlightError::MemoryAccessOutOfBounds(offset, dst.len(), self.bytes.len()));
        }
        let ghost n = dst@.len();
        let total = self.bytes.len();
        let mut i: usize = 0;
        while i < dst.len()
            invariant
                offset + n <= self@.len(),
                self@.len() == total,
                dst@.len() == n,
                i <= n,
                forall|j: int| 0 <= j < i ==> dst@[j] == self@[offset + j],
            decreases n - i,
        {
            dst[i] = self.bytes[offset + i];
            i = i + 1;
        }
        assert(dst@ =~= self@.subrange(offset as int, offset + n));
        Ok(())
    }

    /// A copy of every byte of the block.
    pub fn copy_all_to_vec(&self) -> (r: Result<Vec<u8>, HyperlightError>)
        ensures
            r is Ok,
            r->Ok_0@ == self@,
    {
        let v = self.bytes_at(0, self.bytes.len());
        assert(self@.subrange(0, self@.len() as int) =~= self@);
        Ok(v)
    }
}

} // verus!
