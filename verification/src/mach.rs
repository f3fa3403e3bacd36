//! Page-aligned host memory regions, modelled as owned byte vectors.
//!
//! A [`MachVMBlock`] stands for a contiguous region of host virtual memory
//! that is mapped into the guest.  `start` is the host virtual address the
//! region is known by; the contents are held directly, so every read and
//! write is bounds-checked against the region's size.  The embedding host
//! is responsible for placing real allocations at the addresses the model
//! hands out.

use vstd::prelude::*;

use crate::err::Error;

verus! {

/// Base host-virtual address at which model allocations are placed.
pub const ALLOC_BASE: usize = 0x8000_0000;

/// A contiguous, exclusively owned region of host memory.
pub struct MachVMBlock {
    /// Host virtual address of the first byte.
    pub start: usize,
    /// The region's contents; its length is the region's size.
    pub data: Vec<u8>,
}

/// The 16-bit value stored little-endian at `base` of `s`.
pub open spec fn le16_at(s: Seq<u8>, base: int) -> u16 {
    (s[base] as u16) | (s[base + 1] as u16) << 8
}

/// The 32-bit value stored little-endian at `base` of `s`.
pub open spec fn le32_at(s: Seq<u8>, base: int) -> u32 {
    (s[base] as u32) | (s[base + 1] as u32) << 8 | (s[base + 2] as u32) << 16 | (s[base + 3]
        as u32) << 24
}

/// The 64-bit value stored little-endian at `base` of `s`.
pub open spec fn le64_at(s: Seq<u8>, base: int) -> u64 {
    (s[base] as u64) | (s[base + 1] as u64) << 8 | (s[base + 2] as u64) << 16 | (s[base + 3]
        as u64) << 24 | (s[base + 4] as u64) << 32 | (s[base + 5] as u64) << 40 | (s[base + 6]
        as u64) << 48 | (s[base + 7] as u64) << 56
}

impl View for MachVMBlock {
    type V = Seq<u8>;

    open spec fn view(&self) -> Seq<u8> {
        self.data@
    }
}

impl MachVMBlock {
    /// Size of the region in bytes.
    pub fn size(&self) -> (r: usize)
        ensures
            r == self@.len(),
    {
        self.data.len()
    }

    /// Allocates a zero-filled region of `size` bytes at the model base.
    pub fn new(size: usize) -> (r: Result<MachVMBlock, Error>)
        ensures
            r is Ok,
            r->Ok_0.start == ALLOC_BASE,
            r->Ok_0@ == Seq::<u8>::new(size as nat, |i: int| 0u8),
    {
        Ok(MachVMBlock { start: ALLOC_BASE, data: zeroed(size) })
    }

    /// Allocates a zero-filled region of `size` bytes at the host virtual
    /// address `start`.
    pub fn new_fixed(start: usize, size: usize) -> (r: Result<MachVMBlock, Error>)
        ensures
            r is Ok,
            r->Ok_0.start == start,
            r->Ok_0@ == Seq::<u8>::new(size as nat, |i: int| 0u8),
    {
        Ok(MachVMBlock { start, data: zeroed(size) })
    }

    /// Allocates a zero-filled region of `size` bytes whose start address
    /// is a positive multiple of `align`.
    pub fn new_aligned(size: usize, align: usize) -> (r: Result<MachVMBlock, Error>)
        requires
            0 < align,
            align <= usize::MAX - ALLOC_BASE,
        ensures
            r is Ok,
            r->Ok_0.start as int % align as int == 0,
            0 < r->Ok_0.start,
            r->Ok_0.start <= ALLOC_BASE + align,
            r->Ok_0@ == Seq::<u8>::new(size as nat, |i: int| 0u8),
    {
        let quot: usize = ALLOC_BASE / align;
        proof {
            assert((quot + 1) * align <= ALLOC_BASE + align && align <= (quot + 1) * align && ((
            quot + 1) * align) as int % align as int == 0) by (nonlinear_arith)
                requires
                    0 < align && quot == ALLOC_BASE as int / align as int,
            ;
        }
        let start_aligned: usize = (quot + 1) * align;
        Ok(MachVMBlock { start: start_aligned, data: zeroed(size) })
    }

    /// Reads the byte at `offset + index`.
    pub fn read_u8(&self, offset: usize, index: usize) -> (r: u8)
        requires
            offset + (index + 1) <= self@.len(),
        ensures
            r == self@[offset + index],
    {
        let n: usize = self.data.len();
        self.data[offset + index]
    }

    /// Writes `val` at `offset + index`.
    pub fn write_u8(&mut self, val: u8, offset: usize, index: usize)
        requires
            offset + (index + 1) <= old(self)@.len(),
        ensures
            final(self).start == old(self).start,
            final(self)@ == old(self)@.update(offset + index, val),
    {
        let n: usize = self.data.len();
        let i: usize = offset + index;
        self.data.set(i, val);
    }

    /// Reads the 16-bit little-endian value at `offset + 2 * index`.
    pub fn read_u16(&self, offset: usize, index: usize) -> (r: u16)
        requires
            offset + 2 * (index + 1) <= self@.len(),
        ensures
            r == le16_at(self@, offset + 2 * index),
    {
        let n: usize = self.data.len();
        let b: usize = offset + 2 * index;
        (self.data[b] as u16) | (self.data[b + 1] as u16) << 8
    }

    /// Writes `val` little-endian at `offset + 2 * index`.
    pub fn write_u16(&mut self, val: u16, offset: usize, index: usize)
        requires
            offset + 2 * (index + 1) <= old(self)@.len(),
        ensures
            final(self).start == old(self).start,
            final(self)@.len() == old(self)@.len(),
            ({
                let b = offset + 2 * index;
                &&& forall|i: int|
                    0 <= i < old(self)@.len() && !(b <= i < b + 2) ==> final(self)@[i] == old(self)@[i]
                &&& final(self)@[b] == (val & 0xff) as u8
                &&& final(self)@[b + 1] == ((val >> 8) & 0xff) as u8
                &&& le16_at(final(self)@, b as int) == val
            }),
    {
        let n: usize = self.data.len();
        let b: usize = offset + 2 * index;
        self.data.set(b, #[verifier::truncate] ((val & 0xff) as u8));
        self.data.set(b + 1, #[verifier::truncate] (((val >> 8) & 0xff) as u8));
        proof {
            let lo = #[verifier::truncate] ((val & 0xff) as u8);
            let hi = #[verifier::truncate] (((val >> 8) & 0xff) as u8);
            assert((lo as u16) | (hi as u16) << 8 == val) by (bit_vector)
                requires
                    lo == (val & 0xff) as u8 && hi == ((val >> 8) & 0xff) as u8,
            ;
        }
    }

    /// Reads the 32-bit little-endian value at `offset + 4 * index`.
    pub fn read_u32(&self, offset: usize, index: usize) -> (r: u32)
        requires
            offset + 4 * (index + 1) <= self@.len(),
        ensures
            r == le32_at(self@, offset + 4 * index),
    {
        let n: usize = self.data.len();
        let b: usize = offset + 4 * index;
        (self.data[b] as u32) | (self.data[b + 1] as u32) << 8 | (self.data[b + 2] as u32) << 16 | (
        self.data[b + 3] as u32) << 24
    }

    /// Writes `val` little-endian at `offset + 4 * index`.
    pub fn write_u32(&mut self, val: u32, offset: usize, index: usize)
        requires
            offset + 4 * (index + 1) <= old(self)@.len(),
        ensures
            final(self).start == old(self).start,
            final(self)@.len() == old(self)@.len(),
            ({
                let b = offset + 4 * index;
                &&& forall|i: int|
                    0 <= i < old(self)@.len() && !(b <= i < b + 4) ==> final(self)@[i] == old(self)@[i]
                &&& final(self)@[b] == (val & 0xff) as u8
                &&& final(self)@[b + 1] == ((val >> 8) & 0xff) as u8
                &&& final(self)@[b + 2] == ((val >> 16) & 0xff) as u8
                &&& final(self)@[b + 3] == ((val >> 24) & 0xff) as u8
                &&& le32_at(final(self)@, b as int) == val
            }),
    {
        let n: usize = self.data.len();
        let b: usize = offset + 4 * index;
        self.data.set(b, #[verifier::truncate] ((val & 0xff) as u8));
        self.data.set(b + 1, #[verifier::truncate] (((val >> 8) & 0xff) as u8));
        self.data.set(b + 2, #[verifier::truncate] (((val >> 16) & 0xff) as u8));
        self.data.set(b + 3, #[verifier::truncate] (((val >> 24) & 0xff) as u8));
        proof {
            let b0 = #[verifier::truncate] ((val & 0xff) as u8);
            let b1 = #[verifier::truncate] (((val >> 8) & 0xff) as u8);
            let b2 = #[verifier::truncate] (((val >> 16) & 0xff) as u8);
            let b3 = #[verifier::truncate] (((val >> 24) & 0xff) as u8);
            assert((b0 as u32) | (b1 as u32) << 8 | (b2 as u32) << 16 | (b3 as u32) << 24 == val)
                by (bit_vector)
                requires
                    b0 == (val & 0xff) as u8 && b1 == ((val >> 8) & 0xff) as u8 && b2 == ((val
                        >> 16) & 0xff) as u8 && b3 == ((val >> 24) & 0xff) as u8,
            ;
        }
    }

    /// Reads the 64-bit little-endian value at `offset + 8 * index`.
    pub fn read_u64(&self, offset: usize, index: usize) -> (r: u64)
        requires
            offset + 8 * (index + 1) <= self@.len(),
        ensures
            r == le64_at(self@, offset + 8 * index),
    {
        let n: usize = self.data.len();
        let b: usize = offset + 8 * index;
        (self.data[b] as u64) | (self.data[b + 1] as u64) << 8 | (self.data[b + 2] as u64) << 16 | (
        self.data[b + 3] as u64) << 24 | (self.data[b + 4] as u64) << 32 | (self.data[b + 5]
            as u64) << 40 | (self.data[b + 6] as u64) << 48 | (self.data[b + 7] as u64) << 56
    }

    /// Writes `val` little-endian at `offset + 8 * index`.
    pub fn write_u64(&mut self, val: u64, offset: usize, index: usize)
        requires
            offset + 8 * (index + 1) <= old(self)@.len(),
        ensures
            final(self).start == old(self).start,
            final(self)@.len() == old(self)@.len(),
            ({
                let b = offset + 8 * index;
                &&& forall|i: int|
                    0 <= i < old(self)@.len() && !(b <= i < b + 8) ==> final(self)@[i] == old(self)@[i]
                &&& le64_at(final(self)@, b as int) == val
            }),
    {
        let n: usize = self.data.len();
        let b: usize = offset + 8 * index;
        self.data.set(b, #[verifier::truncate] ((val & 0xff) as u8));
        self.data.set(b + 1, #[verifier::truncate] (((val >> 8) & 0xff) as u8));
        self.data.set(b + 2, #[verifier::truncate] (((val >> 16) & 0xff) as u8));
        self.data.set(b + 3, #[verifier::truncate] (((val >> 24) & 0xff) as u8));
        self.data.set(b + 4, #[verifier::truncate] (((val >> 32) & 0xff) as u8));
        self.data.set(b + 5, #[verifier::truncate] (((val >> 40) & 0xff) as u8));
        self.data.set(b + 6, #[verifier::truncate] (((val >> 48) & 0xff) as u8));
        self.data.set(b + 7, #[verifier::truncate] (((val >> 56) & 0xff) as u8));
        proof {
            let b0 = #[verifier::truncate] ((val & 0xff) as u8);
            let b1 = #[verifier::truncate] (((val >> 8) & 0xff) as u8);
            let b2 = #[verifier::truncate] (((val >> 16) & 0xff) as u8);
            let b3 = #[verifier::truncate] (((val >> 24) & 0xff) as u8);
            let b4 = #[verifier::truncate] (((val >> 32) & 0xff) as u8);
            let b5 = #[verifier::truncate] (((val >> 40) & 0xff) as u8);
            let b6 = #[verifier::truncate] (((val >> 48) & 0xff) as u8);
            let b7 = #[verifier::truncate] (((val >> 56) & 0xff) as u8);
            assert((b0 as u64) | (b1 as u64) << 8 | (b2 as u64) << 16 | (b3 as u64) << 24 | (b4
                as u64) << 32 | (b5 as u64) << 40 | (b6 as u64) << 48 | (b7 as u64) << 56 == val)
                by (bit_vector)
                requires
                    b0 == (val & 0xff) as u8 && b1 == ((val >> 8) & 0xff) as u8 && b2 == ((val
                        >> 16) & 0xff) as u8 && b3 == ((val >> 24) & 0xff) as u8 && b4 == ((val
                        >> 32) & 0xff) as u8 && b5 == ((val >> 40) & 0xff) as u8 && b6 == ((val
                        >> 48) & 0xff) as u8 && b7 == ((val >> 56) & 0xff) as u8,
            ;
        }
    }

    /// Copies `bytes` into the region starting at `offset`.
    pub fn write_bytes(&mut self, offset: usize, bytes: &[u8])
        requires
            offset + bytes@.len() <= old(self)@.len(),
        ensures
            final(self).start == old(self).start,
            final(self)@.len() == old(self)@.len(),
            forall|i: int|
                0 <= i < old(self)@.len() && !(offset <= i < offset + bytes@.len())
                    ==> final(self)@[i] == old(self)@[i],
            forall|i: int|
                0 <= i < bytes@.len() ==> final(self)@[offset + i] == bytes@[i],
    {
        let mut i: usize = 0;
        while i < bytes.len()
            invariant
                i <= bytes@.len(),
                offset + bytes@.len() <= self@.len(),
                self.start == old(self).start,
                self@.len() == old(self)@.len(),
                forall|j: int|
                    0 <= j < old(self)@.len() && !(offset <= j < offset + bytes@.len()) ==> self@[j]
                        == old(self)@[j],
                forall|j: int| 0 <= j < i ==> self@[offset + j] == bytes@[j],
            decreases bytes@.len() - i,
        {
            let n: usize = self.data.len();
            let v: u8 = bytes[i];
            self.data.set(offset + i, v);
            i = i + 1;
        }
    }

    /// The bytes in `[offset, offset + len)`, as a fresh vector.
    pub fn read_bytes(&self, offset: usize, len: usize) -> (r: Vec<u8>)
        requires
            offset + len <= self@.len(),
        ensures
            r@ == self@.subrange(offset as int, offset + len),
    {
        let mut r: Vec<u8> = Vec::new();
        let mut i: usize = 0;
        while i < len
            invariant
                i <= len,
                offset + len <= self@.len(),
                r@ == self@.subrange(offset as int, offset + i),
            decreases len - i,
        {
            let n: usize = self.data.len();
            r.push(self.data[offset + i]);
            proof {
                assert(r@ =~= self@.subrange(offset as int, offset + i + 1));
            }
            i = i + 1;
        }
        r
    }


    /// Fills `[offset, offset + len)` with zero bytes.
    pub fn fill_zero(&mut self, offset: usize, len: usize)
        requires
            offset + len <= old(self)@.len(),
        ensures
            final(self).start == old(self).start,
            final(self)@.len() == old(self)@.len(),
            forall|i: int|
                0 <= i < old(self)@.len() && !(offset <= i < offset + len)
                    ==> final(self)@[i] == old(self)@[i],
            forall|i: int| offset <= i < offset + len ==> final(self)@[i] == 0,
    {
        let mut i: usize = 0;
        while i < len
            invariant
                i <= len,
                offset + len <= self@.len(),
                self.start == old(self).start,
                self@.len() == old(self)@.len(),
                forall|j: int|
                    0 <= j < old(self)@.len() && !(offset <= j < offset + len)
                        ==> self@[j] == old(self)@[j],
                forall|j: int| offset <= j < offset + i ==> self@[j] == 0,
            decreases len - i,
        {
            let n: usize = self.data.len();
            self.data.set(offset + i, 0u8);
            i = i + 1;
        }
    }

    /// A borrowed view of the whole region as bytes.
    pub fn as_slice(&self) -> (r: &[u8])
        ensures
            r@ == self@,
    {
        self.data.as_slice()
    }
}

/// A zero-filled byte vector of length `size`.
fn zeroed(size: usize) -> (r: Vec<u8>)
    ensures
        r@ == Seq::<u8>::new(size as nat, |i: int| 0u8),
{
    let mut r: Vec<u8> = Vec::new();
    let mut i: usize = 0;
    while i < size
        invariant
            i <= size,
            r@ == Seq::<u8>::new(i as nat, |j: int| 0u8),
        decreases size - i,
    {
        r.push(0u8);
        proof {
            assert(r@ =~= Seq::<u8>::new((i + 1) as nat, |j: int| 0u8));
        }
        i = i + 1;
    }
    r
}


/// Reads the 16-bit little-endian value at `base` of `data`.
pub fn slice_u16(data: &[u8], base: usize) -> (r: u16)
    requires
        base + 2 <= data@.len(),
    ensures
        r == le16_at(data@, base as int),
{
    (data[base] as u16) | (data[base + 1] as u16) << 8
}

/// Reads the 32-bit little-endian value at `base` of `data`.
pub fn slice_u32(data: &[u8], base: usize) -> (r: u32)
    requires
        base + 4 <= data@.len(),
    ensures
        r == le32_at(data@, base as int),
{
    (data[base] as u32) | (data[base + 1] as u32) << 8 | (data[base + 2] as u32) << 16 | (data[base
        + 3] as u32) << 24
}

/// Reads the 64-bit little-endian value at `base` of `data`.
pub fn slice_u64(data: &[u8], base: usize) -> (r: u64)
    requires
        base + 8 <= data@.len(),
    ensures
        r == le64_at(data@, base as int),
{
    (data[base] as u64) | (data[base + 1] as u64) << 8 | (data[base + 2] as u64) << 16 | (data[base
        + 3] as u64) << 24 | (data[base + 4] as u64) << 32 | (data[base + 5] as u64) << 40 | (
    data[base + 6] as u64) << 48 | (data[base + 7] as u64) << 56
}

} // verus!
