//! The emulated I/O APIC: a 24-entry redirection table behind an
//! index/window register pair, and the routing decision that turns a
//! hardware IRQ into vectors for the target processors.

use vstd::prelude::*;

verus! {

pub const IOAPIC_NUM_PINS: u32 = 24;

pub const IOAPIC_VERSION: u32 = 0x11;

/// The I/O APIC's registers: the index register, the id, the arbitration
/// id, and 48 dwords of redirection entries (two per pin).
pub struct IoApic {
    pub id: u32,
    pub reg: u32,
    pub arbid: u32,
    /// The redirection table, two dwords per pin.
    pub value: Vec<u32>,
}

/// Whether bit `i` of the destination byte is set.
pub open spec fn dest_bit(dest: u64, i: int) -> bool {
    (dest >> (i as u64)) & 1 == 1
}

/// Where an IRQ is delivered: the vector, and the set of target vCPU
/// indices.
pub struct IoApicDelivery {
    pub vector: u8,
    pub targets: Vec<usize>,
}

impl IoApic {
    /// The table is always 48 dwords.
    pub open spec fn wf(&self) -> bool {
        self.value@.len() == 48
    }

    /// The 64-bit redirection entry of `irq`.
    pub open spec fn entry(&self, irq: int) -> u64 {
        self.value@[2 * irq] as u64 | (self.value@[2 * irq + 1] as u64) << 32
    }

    pub fn new() -> (r: IoApic)
        ensures
            r.wf(),
            r.id == 0,
            r.reg == 0,
            r.arbid == 0,
            forall|i: int| 0 <= i < 48 ==> r.value@[i] == 0,
    {
        let mut value: Vec<u32> = Vec::new();
        let mut i: usize = 0;
        while i < 48
            invariant
                i <= 48,
                value@.len() == i,
                forall|j: int| 0 <= j < i ==> value@[j] == 0,
            decreases 48 - i,
        {
            value.push(0);
            i = i + 1;
        }
        IoApic { id: 0, reg: 0, arbid: 0, value }
    }

    /// A store at MMIO offset 0 selects a register; a store at offset
    /// `0x10` writes the selected register (the id, or a redirection
    /// dword); anything else is ignored.
    pub fn write(&mut self, offset: usize, value: u32)
        requires
            old(self).wf(),
        ensures
            final(self).wf(),
            offset == 0 ==> *final(self) == (IoApic { reg: value, ..*old(self) }),
            offset != 0 && old(self).reg == 0 ==> *final(self) == (IoApic {
                id: value,
                ..*old(self)
            }),
            offset != 0 && 0x10 <= old(self).reg < 0x40 ==> final(self).value@ == old(
                self,
            ).value@.update(old(self).reg - 0x10, value) && final(self).reg == old(self).reg
                && final(self).id == old(self).id,
            offset != 0 && !(old(self).reg == 0 || 0x10 <= old(self).reg < 0x40) ==> *final(self)
                == *old(self),
    {
        if offset == 0 {
            self.reg = value;
        } else {
            if self.reg == 0 {
                self.id = value;
            } else if 0x10 <= self.reg && self.reg < 0x40 {
                let idx = (self.reg - 0x10) as usize;
                self.value.set(idx, value);
            } else {
                // Writes to read-only or unknown registers are dropped.
            }
        }
    }

    /// A load at MMIO offset 0 returns the index register; a load at
    /// offset `0x10` reads the selected register; unknown registers read
    /// as all-ones.
    pub fn read(&self, offset: usize) -> (r: u32)
        requires
            self.wf(),
        ensures
            offset == 0 ==> r == self.reg,
            offset != 0 ==> r == (if self.reg == 0 {
                self.id
            } else if self.reg == 1 {
                (IOAPIC_NUM_PINS << 16) | IOAPIC_VERSION
            } else if self.reg == 2 {
                self.arbid
            } else if 0x10 <= self.reg < 0x40 {
                self.value@[self.reg - 0x10]
            } else {
                u32::MAX
            }),
    {
        if offset == 0 {
            self.reg
        } else {
            if self.reg == 0 {
                self.id
            } else if self.reg == 1 {
                (IOAPIC_NUM_PINS << 16) | IOAPIC_VERSION
            } else if self.reg == 2 {
                self.arbid
            } else if 0x10 <= self.reg && self.reg < 0x40 {
                self.value[(self.reg - 0x10) as usize]
            } else {
                u32::MAX
            }
        }
    }

    /// Routes `irq` by its redirection entry: the vector is the entry's
    /// low byte; in physical mode (bit 11 clear) the single target is the
    /// low four bits of the destination byte, in logical mode each set
    /// bit of the destination byte names a target.
    ///
    /// The embedding dispatch thread pushes the vector to each target's
    /// receive queue and interrupts the target vCPU, in table order.
    pub fn route(&self, irq: u32) -> (r: IoApicDelivery)
        requires
            self.wf(),
            irq < IOAPIC_NUM_PINS,
        ensures
            r.vector == (self.entry(irq as int) & 0xff) as u8,
            ({
                let dest = self.entry(irq as int) >> 56;
                if self.entry(irq as int) & 0x800 == 0 {
                    r.targets@ == seq![(dest & 0xf) as usize]
                } else {
                    &&& r.targets@.len() <= 8
                    &&& (forall|k: int|
                        0 <= k < r.targets@.len() ==> #[trigger] r.targets@[k] < 8 && dest_bit(
                            dest,
                            r.targets@[k] as int,
                        ))
                    &&& (forall|i: int|
                        0 <= i < 8 && #[trigger] dest_bit(dest, i) ==> r.targets@.contains(
                            i as usize,
                        ))
                    &&& (forall|k1: int, k2: int|
                        0 <= k1 < k2 < r.targets@.len() ==> r.targets@[k1] < r.targets@[k2])
                }
            }),
    {
        let lo = self.value[(2 * irq) as usize];
        let hi = self.value[(2 * irq + 1) as usize];
        let entry: u64 = lo as u64 | (hi as u64) << 32;
        let vector: u8 = (entry & 0xff) as u8;
        proof {
            assert((entry & 0xff) < 256) by (bit_vector);
        }
        let dest: u64 = entry >> 56;
        let mut targets: Vec<usize> = Vec::new();
        if entry & 0x800 == 0 {
            proof {
                assert((entry >> 56) & 0xf < 16) by (bit_vector);
            }
            targets.push((dest & 0xf) as usize);
            proof {
                assert(targets@ =~= seq![((entry >> 56) & 0xf) as usize]);
            }
        } else {
            let mut i: usize = 0;
            while i < 8
                invariant
                    i <= 8,
                    dest == self.entry(irq as int) >> 56,
                    targets@.len() <= i,
                    forall|k: int|
                        0 <= k < targets@.len() ==> #[trigger] targets@[k] < 8 && dest_bit(
                            dest,
                            targets@[k] as int,
                        ),
                    forall|j: int|
                        0 <= j < i && #[trigger] dest_bit(dest, j) ==> targets@.contains(
                            j as usize,
                        ),
                    forall|k: int| 0 <= k < targets@.len() ==> #[trigger] targets@[k] < i,
                    forall|k1: int, k2: int|
                        0 <= k1 < k2 < targets@.len() ==> targets@[k1] < targets@[k2],
                decreases 8 - i,
            {
                if (dest >> (i as u64)) & 1 == 1 {
                    let ghost pre_t = targets@;
                    targets.push(i);
                    proof {
                        assert(dest_bit(dest, i as int));
                        assert forall|j: int|
                            0 <= j < i + 1 && #[trigger] dest_bit(dest, j) implies
                            targets@.contains(j as usize) by {
                            if j < i {
                                assert(pre_t.contains(j as usize));
                                let k = choose|k: int| 0 <= k < pre_t.len() && pre_t[k] == (
                                j as usize);
                                assert(targets@[k] == j as usize);
                            } else {
                                assert(targets@[targets@.len() - 1] == i as usize);
                            }
                        }
                    }
                } else {
                    proof {
                        assert forall|j: int|
                            0 <= j < i + 1 && #[trigger] dest_bit(dest, j) implies
                            targets@.contains(j as usize) by {}
                    }
                }
                i = i + 1;
            }
        }
        IoApicDelivery { vector, targets }
    }
}

} // verus!
