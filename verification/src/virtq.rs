//! Virtqueue rings: the descriptor table, the available ring and the
//! used ring, read and written through the guest-memory model.

use vstd::prelude::*;

use crate::err::Error;
use crate::mach::le16_at;
use crate::mach::le32_at;
use crate::mach::le64_at;
use crate::mach::MachVMBlock;

verus! {

/// Descriptor flag: the chain continues at `next`.
pub const VIRTQ_DESC_F_NEXT: u16 = 1;

/// Descriptor flag: the buffer is device-writable.
pub const VIRTQ_DESC_F_WRITE: u16 = 2;

/// Descriptor flag: the buffer holds an indirect descriptor table.
pub const VIRTQ_DESC_F_INDIRECT: u16 = 4;

/// Used-ring flag: the driver asks not to be notified.
pub const VIRTQ_USED_F_NO_NOTIFY: u16 = 1;

/// Available-ring flag: the device is asked not to interrupt.
pub const VIRTQ_AVAIL_F_NO_INTERRUPT: u16 = 1;

/// Byte size of one descriptor.
pub const VIRTQ_DESC_SIZE: usize = 16;

/// Byte size of one used-ring element.
pub const VIRTQ_USED_ELEM_SIZE: usize = 8;

/// Byte size of the available ring's header (flags and index).
pub const VIRTQ_AVAIL_HEADER_SIZE: usize = 4;

/// Largest queue size the transport can offer.
pub const VIRTQ_SIZE_MAX: u16 = 0x8000;

/// One descriptor, as laid out in guest memory.
#[derive(Debug, Clone, Copy, PartialEq, Eq, Structural)]
pub struct VirtqDesc {
    pub addr: u64,
    pub len: u32,
    pub flags: u16,
    pub next: u16,
}

/// One used-ring element, as laid out in guest memory.
#[derive(Debug, Clone, Copy, PartialEq, Eq, Structural)]
pub struct VirtqUsedElem {
    pub id: u32,
    pub len: u32,
}

/// A virtqueue: its size and the addresses of its three rings.  The
/// driver hands the rings over as guest physical addresses; `to_hva`
/// rebases them to host virtual addresses.
#[derive(Debug, Clone, Copy, PartialEq, Eq, Structural)]
pub struct Virtq {
    pub num: u32,
    pub desc: u64,
    pub avail: u64,
    pub used: u64,
}

/// The guest-physical-to-host-virtual translation of a VM with an
/// optional low-memory block: addresses below the block's size belong to
/// the block, anything else maps identically.
#[derive(Debug, Clone, Copy, PartialEq, Eq, Structural)]
pub struct AddressConverter {
    pub low_mem_start: usize,
    pub low_mem_size: usize,
}

impl AddressConverter {
    pub open spec fn spec_convert(&self, gpa: u64) -> usize {
        if gpa < self.low_mem_size as u64 {
            (gpa + self.low_mem_start) as usize
        } else {
            gpa as usize
        }
    }

    /// Translates one guest physical address.
    pub fn convert(&self, gpa: u64) -> (r: usize)
        requires
            gpa < self.low_mem_size ==> gpa + self.low_mem_start <= usize::MAX,
            gpa >= self.low_mem_size ==> gpa <= usize::MAX,
        ensures
            r == self.spec_convert(gpa),
    {
        if gpa < self.low_mem_size as u64 {
            (gpa as usize) + self.low_mem_start
        } else {
            gpa as usize
        }
    }
}

impl Virtq {
    /// A queue definition with no rings yet.
    pub fn new(num: u32) -> (r: Virtq)
        ensures
            r == (Virtq { num, desc: 0, avail: 0, used: 0 }),
    {
        Virtq { num, desc: 0, avail: 0, used: 0 }
    }

    /// Rebases the three ring addresses from guest physical to host
    /// virtual.
    pub fn to_hva(&self, convert: &AddressConverter) -> (r: VirtqHva)
        requires
            self.desc + convert.low_mem_start <= usize::MAX,
            self.avail + convert.low_mem_start <= usize::MAX,
            self.used + convert.low_mem_start <= usize::MAX,
        ensures
            r.num == self.num,
            r.desc == convert.spec_convert(self.desc),
            r.avail == convert.spec_convert(self.avail),
            r.used == convert.spec_convert(self.used),
    {
        VirtqHva {
            num: self.num,
            desc: convert.convert(self.desc),
            avail: convert.convert(self.avail),
            used: convert.convert(self.used),
        }
    }
}

/// A virtqueue whose ring addresses are host virtual.
#[derive(Debug, Clone, Copy, PartialEq, Eq, Structural)]
pub struct VirtqHva {
    pub num: u32,
    pub desc: usize,
    pub avail: usize,
    pub used: usize,
}

/// The descriptor at slot `i` of a table at byte `base`.
pub open spec fn spec_desc_at(mem: Seq<u8>, base: int, i: int) -> VirtqDesc {
    VirtqDesc {
        addr: le64_at(mem, base + 16 * i),
        len: le32_at(mem, base + 16 * i + 8),
        flags: le16_at(mem, base + 16 * i + 12),
        next: le16_at(mem, base + 16 * i + 14),
    }
}

/// The available-ring entry at slot `i` of a ring at byte `base`.
pub open spec fn spec_avail_at(mem: Seq<u8>, base: int, i: int) -> u16 {
    le16_at(mem, base + 4 + 2 * i)
}

/// The used-ring element at slot `i` of a ring at byte `base`.
pub open spec fn spec_used_at(mem: Seq<u8>, base: int, i: int) -> VirtqUsedElem {
    VirtqUsedElem { id: le32_at(mem, base + 4 + 8 * i), len: le32_at(mem, base + 4 + 8 * i + 4) }
}

impl VirtqHva {
    /// The rings lie inside the memory region `mem` models, which starts
    /// at host virtual `mem.start`.
    pub open spec fn rings_in(&self, start: int, len: int) -> bool {
        &&& self.num > 0
        &&& self.num <= VIRTQ_SIZE_MAX
        &&& start <= self.desc
        &&& self.desc + 16 * self.num <= start + len
        &&& start <= self.avail
        &&& self.avail + 6 + 2 * self.num <= start + len
        &&& start <= self.used
        &&& self.used + 4 + 8 * self.num <= start + len
    }

    /// Reads descriptor `index % num`.
    pub fn read_desc(&self, mem: &MachVMBlock, index: u16) -> (r: VirtqDesc)
        requires
            self.rings_in(mem.start as int, mem@.len() as int),
        ensures
            r == spec_desc_at(mem@, self.desc - mem.start, index as int % self.num as int),
    {
        let n0: usize = mem.size();
        let real_index = (index as usize) % (self.num as usize);
        let off = self.desc - mem.start + VIRTQ_DESC_SIZE * real_index;
        VirtqDesc {
            addr: mem.read_u64(off, 0),
            len: mem.read_u32(off + 8, 0),
            flags: mem.read_u16(off + 12, 0),
            next: mem.read_u16(off + 14, 0),
        }
    }

    /// Reads available-ring entry `index % num`.
    pub fn read_avail(&self, mem: &MachVMBlock, index: u16) -> (r: u16)
        requires
            self.rings_in(mem.start as int, mem@.len() as int),
        ensures
            r == spec_avail_at(mem@, self.avail - mem.start, index as int % self.num as int),
    {
        let n0: usize = mem.size();
        let real_index = (index as usize) % (self.num as usize);
        mem.read_u16(self.avail - mem.start + 4 + 2 * real_index, 0)
    }

    /// The available ring's flags word.
    pub fn avail_flags(&self, mem: &MachVMBlock) -> (r: u16)
        requires
            self.rings_in(mem.start as int, mem@.len() as int),
        ensures
            r == le16_at(mem@, self.avail - mem.start),
    {
        let n0: usize = mem.size();
        mem.read_u16(self.avail - mem.start, 0)
    }

    /// The available ring's index word.
    pub fn avail_index(&self, mem: &MachVMBlock) -> (r: u16)
        requires
            self.rings_in(mem.start as int, mem@.len() as int),
        ensures
            r == le16_at(mem@, self.avail - mem.start + 2),
    {
        let n0: usize = mem.size();
        mem.read_u16(self.avail - mem.start + 2, 0)
    }

    /// The used ring's index word.
    pub fn used_index(&self, mem: &MachVMBlock) -> (r: u16)
        requires
            self.rings_in(mem.start as int, mem@.len() as int),
        ensures
            r == le16_at(mem@, self.used - mem.start + 2),
    {
        let n0: usize = mem.size();
        mem.read_u16(self.used - mem.start + 2, 0)
    }

    /// Publishes one completion: writes `(id, len)` into the used-ring
    /// slot named by the current used index and advances the index by
    /// one, wrapping at 65536.
    pub fn push_used(&self, mem: &mut MachVMBlock, id: u16, len: u32)
        requires
            self.rings_in(old(mem).start as int, old(mem)@.len() as int),
        ensures
            final(mem).start == old(mem).start,
            final(mem)@.len() == old(mem)@.len(),
            ({
                let base = self.used - old(mem).start;
                let idx = le16_at(old(mem)@, base + 2);
                let slot = idx as int % self.num as int;
                &&& spec_used_at(final(mem)@, base, slot) == (VirtqUsedElem {
                    id: id as u32,
                    len,
                })
                &&& le16_at(final(mem)@, base + 2) == ((idx + 1) % 0x10000) as u16
                &&& forall|i: int|
                    0 <= i < old(mem)@.len() && !(base + 4 + 8 * slot <= i < base + 4 + 8 * slot
                        + 8) && !(base + 2 <= i < base + 4) ==> final(mem)@[i] == old(mem)@[i]
            }),
    {
        let n0: usize = mem.size();
        let base = self.used - mem.start;
        let used_idx = mem.read_u16(base + 2, 0);
        let slot = (used_idx as usize) % (self.num as usize);
        let elem_off = base + 4 + VIRTQ_USED_ELEM_SIZE * slot;
        mem.write_u32(id as u32, elem_off, 0);
        mem.write_u32(len, elem_off + 4, 0);
        let next_idx: u16 = (((used_idx as u32) + 1) % 0x10000) as u16;
        mem.write_u16(next_idx, base + 2, 0);
    }

    /// Walks the descriptor chain that starts at available-ring slot
    /// `index`, translating each buffer to host virtual addresses.
    ///
    /// Returns the `(address, length)` pairs in chain order together
    /// with the count of device-writable buffers, exactly as
    /// `spec_chain_from` describes the walk; a chain that places a
    /// readable buffer after a writable one, holds an address beyond the
    /// host's range, or runs longer than the queue (a cycle) is refused.
    pub fn get_desc_chain(&self, mem: &MachVMBlock, index: u16, convert: &AddressConverter) -> (r:
        Result<(Vec<(usize, usize)>, usize), Error>)
        requires
            self.rings_in(mem.start as int, mem@.len() as int),
            convert.low_mem_start + convert.low_mem_size <= usize::MAX,
        ensures
            ({
                let head = spec_avail_at(mem@, self.avail - mem.start, index as int % self.num as int);
                let walk = spec_chain_from(
                    mem@,
                    mem.start as int,
                    *self,
                    *convert,
                    head as int,
                    0,
                    self.num as nat,
                );
                match r {
                    Ok((chain, wc)) => walk == Some((chain@, wc as int)),
                    Err(_) => walk is None,
                }
            }),
    {
        let head = self.read_avail(mem, index);
        self.walk_chain(mem, head, 0, self.num, convert)
    }

    /// The recursive walk behind `get_desc_chain`.
    fn walk_chain(&self, mem: &MachVMBlock, idx: u16, pwc: usize, fuel: u32, convert:
        &AddressConverter) -> (r: Result<(Vec<(usize, usize)>, usize), Error>)
        requires
            self.rings_in(mem.start as int, mem@.len() as int),
            convert.low_mem_start + convert.low_mem_size <= usize::MAX,
            pwc + fuel <= 0x10000,
        ensures
            ({
                let walk = spec_chain_from(
                    mem@,
                    mem.start as int,
                    *self,
                    *convert,
                    idx as int,
                    pwc as int,
                    fuel as nat,
                );
                match r {
                    Ok((chain, wc)) => walk == Some((chain@, wc as int)) && chain@.len() <= fuel
                        && wc <= pwc + chain@.len(),
                    Err(_) => walk is None,
                }
            }),
        decreases fuel,
    {
        if fuel == 0 {
            return Err(Error::Program("descriptor chain longer than the queue".to_owned()));
        }
        let desc = self.read_desc(mem, idx);
        let writable = desc.flags & VIRTQ_DESC_F_WRITE != 0;
        if !writable && pwc > 0 {
            return Err(
                Error::Program(
                    "device-readable descriptor after a device-writable one".to_owned(),
                ),
            );
        }
        let hva: usize = if desc.addr < convert.low_mem_size as u64 {
            (desc.addr as usize) + convert.low_mem_start
        } else {
            if desc.addr > usize::MAX as u64 {
                return Err(Error::Program("descriptor address out of range".to_owned()));
            }
            desc.addr as usize
        };
        let link = (hva, desc.len as usize);
        let wc: usize = if writable {
            pwc + 1
        } else {
            0
        };
        if desc.flags & VIRTQ_DESC_F_NEXT == 0 {
            let mut chain: Vec<(usize, usize)> = Vec::new();
            chain.push(link);
            proof {
                assert(chain@ =~= seq![link]);
            }
            Ok((chain, wc))
        } else {
            match self.walk_chain(mem, desc.next, wc, fuel - 1, convert) {
                Ok((tail, twc)) => {
                    let mut chain: Vec<(usize, usize)> = Vec::new();
                    chain.push(link);
                    let mut k: usize = 0;
                    while k < tail.len()
                        invariant
                            k <= tail@.len(),
                            chain@ == seq![link] + tail@.take(k as int),
                        decreases tail@.len() - k,
                    {
                        chain.push(tail[k]);
                        proof {
                            assert(chain@ =~= seq![link] + tail@.take(k + 1));
                        }
                        k = k + 1;
                    }
                    proof {
                        assert(tail@.take(tail@.len() as int) =~= tail@);
                    }
                    Ok((chain, twc))
                },
                Err(e) => Err(e),
            }
        }
    }
}

/// The descriptor walk: from slot `idx` with `pwc` writable buffers seen
/// so far, the chain of translated buffers and the final writable count,
/// or nothing if the chain is malformed or `fuel` runs out.
pub open spec fn spec_chain_from(mem: Seq<u8>, start: int, q: VirtqHva, conv: AddressConverter,
    idx: int, pwc: int, fuel: nat) -> Option<(Seq<(usize, usize)>, int)>
    decreases fuel,
{
    if fuel == 0 {
        None
    } else {
        let d = spec_desc_at(mem, q.desc - start, idx % q.num as int);
        let writable = d.flags & VIRTQ_DESC_F_WRITE != 0;
        if !writable && pwc > 0 {
            None
        } else if d.addr >= conv.low_mem_size as u64 && d.addr > usize::MAX as u64 {
            None
        } else {
            let link = (conv.spec_convert(d.addr), d.len as usize);
            let wc = if writable {
                pwc + 1
            } else {
                0
            };
            if d.flags & VIRTQ_DESC_F_NEXT == 0 {
                Some((seq![link], wc))
            } else {
                match spec_chain_from(mem, start, q, conv, d.next as int, wc, (fuel - 1) as nat) {
                    Some((t, w)) => Some((seq![link] + t, w)),
                    None => None,
                }
            }
        }
    }
}

/// The sum of the buffer lengths of a chain.
pub open spec fn chain_bytes(chain: Seq<(usize, usize)>) -> int
    decreases chain.len(),
{
    if chain.len() == 0 {
        0
    } else {
        chain_bytes(chain.drop_last()) + chain.last().1
    }
}


/// A successful walk yields between one and `fuel` buffers, each at most
/// `u32::MAX` bytes long.
pub proof fn lemma_chain_from_shape(mem: Seq<u8>, start: int, q: VirtqHva,
    conv: AddressConverter, idx: int, pwc: int, fuel: nat)
    ensures
        match spec_chain_from(mem, start, q, conv, idx, pwc, fuel) {
            Option::Some(out) => 1 <= out.0.len() <= fuel && (forall|k: int|
                0 <= k < out.0.len() ==> #[trigger] out.0[k].1 <= 0xffffffff),
            Option::None => true,
        },
    decreases fuel,
{
    if fuel > 0 {
        let d = spec_desc_at(mem, q.desc - start, idx % q.num as int);
        if d.flags & VIRTQ_DESC_F_NEXT != 0 {
            lemma_chain_from_shape(mem, start, q, conv, d.next as int, if d.flags
                & VIRTQ_DESC_F_WRITE != 0 {
                pwc + 1
            } else {
                0
            }, (fuel - 1) as nat);
        }
    }
}

/// One buffer lies inside a region of `len` bytes starting at `start`.
pub open spec fn buffer_in(link: (usize, usize), start: int, len: int) -> bool {
    &&& link.0 >= start
    &&& link.1 <= len
    &&& link.0 - start <= len - link.1
}

/// Every buffer of the chain lies inside the region.
pub open spec fn chain_buffers_in(chain: Seq<(usize, usize)>, start: int, len: int) -> bool {
    forall|k: int| 0 <= k < chain.len() ==> #[trigger] buffer_in(chain[k], start, len)
}

} // verus!
