//! The emulated local APIC: the xAPIC register page, priority resolution,
//! the in-service stack, and the timer driven by the host's preemption
//! timer.
//!
//! The interrupt-acceptance discipline keeps the in-service stack strictly
//! increasing from bottom to top: a vector is only accepted when its
//! priority exceeds the processor priority, which itself never falls below
//! the priority of the vector on top of the stack.

use vstd::prelude::*;

use crate::mach::le32_at;
use crate::mach::MachVMBlock;
use crate::msr::MSR_IA32_APIC_BASE_BSP;
use crate::msr::MSR_IA32_APIC_BASE_ENABLED;
use crate::msr::MSR_IA32_APIC_BASE_X2;

verus! {

pub const OFFSET_ID: usize = 0x20;

pub const OFFSET_VER: usize = 0x30;

pub const OFFSET_TPR: usize = 0x80;

pub const OFFSET_APR: usize = 0x90;

pub const OFFSET_PPR: usize = 0xa0;

pub const OFFSET_EOI: usize = 0xb0;

pub const OFFSET_LDR: usize = 0xd0;

pub const OFFSET_DFR: usize = 0xe0;

pub const OFFSET_SVR: usize = 0xf0;

pub const OFFSET_ISR: usize = 0x100;

pub const OFFSET_TMR: usize = 0x180;

pub const OFFSET_IRR: usize = 0x200;

pub const OFFSET_ESR: usize = 0x280;

pub const OFFSET_LVT_CMCI: usize = 0x2f0;

pub const OFFSET_ICR0: usize = 0x300;

pub const OFFSET_ICR32: usize = 0x310;

pub const OFFSET_LVT_TIMER: usize = 0x320;

pub const OFFSET_LVT_THERMAL: usize = 0x330;

pub const OFFSET_LVT_PERF: usize = 0x340;

pub const OFFSET_LVT_LINT0: usize = 0x350;

pub const OFFSET_LVT_LINT1: usize = 0x360;

pub const OFFSET_LVT_ERROR: usize = 0x370;

pub const OFFSET_INIT_COUNT: usize = 0x380;

pub const OFFSET_CURR_COUNT: usize = 0x390;

pub const OFFSET_DCR: usize = 0x3e0;

pub const OFFSET_SELF_IPI: usize = 0x3f0;

pub const APIC_VER: u32 = 0x10;

pub const BIT_LVT_MASKED: u32 = 0x10000;

pub const TIMER_ONE_SHOT: u32 = 0;

pub const TIMER_PERIODIC: u32 = 1;

pub const TIMER_TSC_DEADLINE: u32 = 2;

/// An upper bound on host-monotonic times this model accepts, so that a
/// deadline plus a period never overflows.
pub const TIME_BOUND: u64 = 0x4000_0000_0000_0000;

/// An LVT entry's mask bit.
pub fn lvt_masked(lvt: u32) -> (r: bool)
    ensures
        r == spec_lvt_masked(lvt),
{
    lvt & BIT_LVT_MASKED > 0
}

pub open spec fn spec_lvt_masked(lvt: u32) -> bool {
    lvt & BIT_LVT_MASKED > 0
}

/// An LVT entry's delivery-status bit, clear when idle.
pub fn lvt_idle(lvt: u32) -> (r: bool)
    ensures
        r == ((lvt >> 12) & 1 == 0),
{
    (lvt >> 12) & 1 == 0
}

/// The vector field of an LVT entry.
pub fn lvt_vec(lvt: u32) -> (r: u8)
    ensures
        r == spec_lvt_vec(lvt),
{
    (lvt & 0xff) as u8
}

pub open spec fn spec_lvt_vec(lvt: u32) -> u8 {
    (lvt & 0xff) as u8
}

/// The timer mode field of the timer LVT entry.
pub fn lvt_timer_mode(lvt: u32) -> (r: u32)
    ensures
        r == spec_lvt_timer_mode(lvt),
        r <= 3,
{
    let r = (lvt >> 17) & 0b11;
    proof {
        assert((lvt >> 17) & 0b11 <= 3) by (bit_vector);
    }
    r
}

pub open spec fn spec_lvt_timer_mode(lvt: u32) -> u32 {
    (lvt >> 17) & 3
}

/// The interrupt priority of a vector: its high nibble.
pub fn priority(v: u8) -> (r: u8)
    ensures
        r == spec_priority(v),
{
    v >> 4
}

pub open spec fn spec_priority(v: u8) -> u8 {
    v >> 4
}

/// Offset of the ISR dword holding `vector`'s bit.
pub fn isr_offset_vec(vector: u8) -> (r: usize)
    ensures
        r == OFFSET_ISR + (vector as int / 32) * 0x10,
{
    OFFSET_ISR + (vector as usize / 32) * 0x10
}

/// Offset of the IRR dword holding `vector`'s bit.
pub fn irr_offset_vec(vector: u8) -> (r: usize)
    ensures
        r == OFFSET_IRR + (vector as int / 32) * 0x10,
{
    OFFSET_IRR + (vector as usize / 32) * 0x10
}

/// Offset of the TMR dword holding `vector`'s bit.
pub fn tmr_offset_vec(vector: u8) -> (r: usize)
    ensures
        r == OFFSET_TMR + (vector as int / 32) * 0x10,
{
    OFFSET_TMR + (vector as usize / 32) * 0x10
}

/// Dword `j` of the 256-bit register bank starting at byte `block` of
/// the APIC page (`block` is the ISR, IRR or TMR base).
pub open spec fn bank_dword(page: Seq<u8>, block: int, j: int) -> u32 {
    le32_at(page, block + 0x10 * j)
}

/// Whether `vector`'s bit is set in the 256-bit register bank starting at
/// byte `block` of the APIC page.
pub open spec fn bank_bit(page: Seq<u8>, block: int, vector: u8) -> bool {
    (bank_dword(page, block, vector as int / 32) >> (vector as u32 % 32)) & 1 == 1
}

/// `vector`'s bit in the in-service registers.
pub open spec fn isr_bit(page: Seq<u8>, vector: u8) -> bool {
    bank_bit(page, OFFSET_ISR as int, vector)
}

/// `vector`'s bit in the interrupt-request registers.
pub open spec fn irr_bit(page: Seq<u8>, vector: u8) -> bool {
    bank_bit(page, OFFSET_IRR as int, vector)
}

/// `vector`'s bit in the trigger-mode registers.
pub open spec fn tmr_bit(page: Seq<u8>, vector: u8) -> bool {
    bank_bit(page, OFFSET_TMR as int, vector)
}

/// Setting bit `a` of a dword leaves every other bit alone.
proof fn lemma_set_bit(x: u32, a: u32)
    by (bit_vector)
    requires
        a < 32,
    ensures
        ((x | (1u32 << a)) >> a) & 1 == 1,
        forall|b: u32| b < 32 && b != a ==> ((x | (1u32 << a)) >> b) & 1 == (x >> b) & 1,
{
}

/// Clearing bit `a` of a dword leaves every other bit alone.
proof fn lemma_clear_bit(x: u32, a: u32)
    by (bit_vector)
    requires
        a < 32,
    ensures
        ((x & !(1u32 << a)) >> a) & 1 == 0,
        forall|b: u32| b < 32 && b != a ==> ((x & !(1u32 << a)) >> b) & 1 == (x >> b) & 1,
{
}

/// Two vectors share a register dword exactly when they agree on
/// everything but their low five bits.
proof fn lemma_same_dword(v: u8, w: u8)
    by (bit_vector)
    requires
        v != w,
        v as int / 32 == w as int / 32,
    ensures
        v as u32 % 32 != w as u32 % 32,
{
}

/// A strictly increasing sequence contains nothing above its last
/// element.
proof fn lemma_increasing_last_max(s: Seq<u8>, v: u8)
    requires
        s.len() > 0,
        forall|i: int, j: int| 0 <= i < j < s.len() ==> s[i] < s[j],
        v > s.last(),
    ensures
        !s.contains(v),
{
    assert forall|i: int| 0 <= i < s.len() implies s[i] != v by {
        if i < s.len() - 1 {
            assert(s[i] < s.last());
        }
    }
}

/// The in-service stack after dropping its top still relates to the bit
/// bank as membership.
proof fn lemma_increasing_drop_last_contains(s: Seq<u8>, w: u8)
    requires
        s.len() > 0,
        forall|i: int, j: int| 0 <= i < j < s.len() ==> s[i] < s[j],
    ensures
        s.drop_last().contains(w) <==> (s.contains(w) && w != s.last()),
{
    if s.drop_last().contains(w) {
        let i = choose|i: int| 0 <= i < s.drop_last().len() && s.drop_last()[i] == w;
        assert(s[i] == w);
        assert(s[i] < s.last());
    }
    if s.contains(w) && w != s.last() {
        let i = choose|i: int| 0 <= i < s.len() && s[i] == w;
        assert(i != s.len() - 1);
        assert(s.drop_last()[i] == w);
    }
}

/// The emulated local APIC of one virtual CPU.
pub struct Apic {
    /// APIC id (also the vCPU index).
    pub id: u32,
    /// The guest-visible IA32_APIC_BASE value.
    pub msr_apic_base: u64,
    /// The 4 KiB register page mirrored into the guest's APIC page.
    pub apic_page: MachVMBlock,
    /// The value latched for the next ESR read.
    pub pending_err: u32,
    /// Timer input frequency in Hz.
    pub frequency: u64,
    /// Host-monotonic absolute deadline of the next timer interrupt;
    /// `None` when the timer is disabled.
    pub sched_timer: Option<u64>,
    /// Interval of a periodic timer in host absolute units; zero for
    /// one-shot or disabled.
    pub timer_period: u64,
    /// The stack of in-service vectors, bottom first.
    pub isr_vec: Vec<u8>,
    /// Host timebase numerator.
    pub numer: u32,
    /// Host timebase denominator.
    pub denom: u32,
}

impl Apic {
    /// The register page's bytes.
    pub closed spec fn page(&self) -> Seq<u8> {
        self.apic_page@
    }

    /// The stack of in-service vectors, bottom first.
    pub closed spec fn isr_stack(&self) -> Seq<u8> {
        self.isr_vec@
    }

    pub closed spec fn spec_timer_period(&self) -> u64 {
        self.timer_period
    }

    pub closed spec fn spec_frequency(&self) -> u64 {
        self.frequency
    }

    pub closed spec fn spec_numer(&self) -> u32 {
        self.numer
    }

    pub closed spec fn spec_denom(&self) -> u32 {
        self.denom
    }

    pub closed spec fn spec_pending_err(&self) -> u32 {
        self.pending_err
    }

    /// The processor-priority byte.
    pub open spec fn ppr(&self) -> u8 {
        self.page()[OFFSET_PPR as int]
    }

    /// The well-formedness of an APIC: a 4 KiB page, an in-service stack
    /// that strictly increases from bottom to top and mirrors the ISR
    /// bits, a processor priority at least the top vector's, a positive
    /// timebase numerator, and a bounded timer period.
    pub closed spec fn wf(&self) -> bool {
        &&& self.apic_page@.len() == 4096
        &&& (forall|i: int, j: int|
            0 <= i < j < self.isr_vec@.len() ==> self.isr_vec@[i] < self.isr_vec@[j])
        &&& (forall|v: u8| isr_bit(self.apic_page@, v) <==> self.isr_vec@.contains(v))
        &&& (self.isr_vec@.len() > 0 ==> spec_priority(self.apic_page@[OFFSET_PPR as int])
            >= spec_priority(self.isr_vec@.last()))
        &&& self.numer > 0
        &&& self.timer_period < TIME_BOUND
    }

    /// Whether the APIC is in x2APIC mode (bit 10 of the base MSR).
    pub fn x2mode(&self) -> (r: bool)
        ensures
            r == self.spec_x2mode(),
    {
        self.msr_apic_base & 0x400 > 0
    }

    pub open spec fn spec_x2mode(&self) -> bool {
        self.msr_apic_base & 0x400 > 0
    }

    /// Converts nanoseconds to host absolute time units.
    fn ns_to_abs(&self, ns: u64) -> (r: u64)
        requires
            self.wf(),
            ns <= 1_000_000_000,
        ensures
            r == ns as int * self.spec_denom() as int / self.spec_numer() as int,
            r < TIME_BOUND,
    {
        proof {
            assert(ns as int * self.denom as int <= 1_000_000_000int * 0xffffffffint)
                by (nonlinear_arith)
                requires
                    ns <= 1_000_000_000 && self.denom <= 0xffffffff,
            ;
            assert(ns as int * self.denom as int / self.numer as int <= ns as int * self.denom
                as int) by (nonlinear_arith)
                requires
                    self.numer >= 1 && ns as int * self.denom as int >= 0,
            ;
        }
        ns * (self.denom as u64) / (self.numer as u64)
    }

    /// Creates an APIC in xAPIC mode for vCPU `id`.
    ///
    /// `frequency` is the timer's input frequency in Hz (the host TSC
    /// frequency scaled by the crystal ratio), and `numer`/`denom` the
    /// host's monotonic-clock timebase factors.
    pub fn new(base: u64, enabled: bool, x2mode: bool, id: u32, bsp: bool, frequency: u64,
        numer: u32, denom: u32) -> (r: Apic)
        requires
            !x2mode,
            numer > 0,
        ensures
            r.wf(),
            r.id == id,
            r.isr_stack().len() == 0,
            r.sched_timer is None,
            r.spec_timer_period() == 0,
            r.msr_apic_base == base | (if enabled {
                MSR_IA32_APIC_BASE_ENABLED
            } else {
                0
            }) | (if bsp {
                MSR_IA32_APIC_BASE_BSP
            } else {
                0
            }),
            r.spec_frequency() == frequency,
            le32_at(r.page(), OFFSET_ID as int) == (id as u32) << 24,
            le32_at(r.page(), OFFSET_VER as int) == APIC_VER | 0x60000,
            le32_at(r.page(), OFFSET_TPR as int) == 0,
            r.page()[OFFSET_PPR as int] == 0,
            le32_at(r.page(), OFFSET_DFR as int) == 0xffffffff,
            le32_at(r.page(), OFFSET_SVR as int) == 0xff,
            le32_at(r.page(), OFFSET_LVT_TIMER as int) == BIT_LVT_MASKED,
            le32_at(r.page(), OFFSET_ICR0 as int) == 0,
            le32_at(r.page(), OFFSET_DCR as int) == 0,
            le32_at(r.page(), OFFSET_INIT_COUNT as int) == 0,
            forall|v: u8| !isr_bit(r.page(), v) && !irr_bit(r.page(), v) && !tmr_bit(r.page(), v),
    {
        let page = match MachVMBlock::new(4096) {
            Ok(b) => b,
            Err(_) => MachVMBlock { start: 0, data: Vec::new() },
        };
        let msr_apic_base = base | (if enabled {
            MSR_IA32_APIC_BASE_ENABLED
        } else {
            0
        }) | (if x2mode {
            MSR_IA32_APIC_BASE_X2
        } else {
            0
        }) | (if bsp {
            MSR_IA32_APIC_BASE_BSP
        } else {
            0
        });
        proof {
            crate::vmx::lemma_and_zero();
        }
        let mut apic = Apic {
            id,
            msr_apic_base,
            apic_page: page,
            pending_err: 0,
            frequency,
            sched_timer: None,
            timer_period: 0,
            isr_vec: Vec::new(),
            numer,
            denom,
        };
        apic.reset();
        apic
    }

    /// Power-up state (Intel SDM 10.4.7.1): id and version set, DFR all
    /// ones, SVR `0xff`, everything else -- IRR, ISR, TMR, the in-service
    /// stack, LVTs (masked), ICR, counts, DCR -- cleared, timer off.
    #[verifier::rlimit(100)]
    #[verifier::spinoff_prover]
    pub fn reset(&mut self)
        requires
            old(self).wf() || (old(self).page().len() == 4096 && old(self).spec_numer() > 0),
        ensures
            final(self).wf(),
            final(self).isr_stack().len() == 0,
            final(self).sched_timer is None,
            final(self).spec_timer_period() == 0,
            final(self).id == old(self).id,
            final(self).msr_apic_base == old(self).msr_apic_base,
            final(self).frequency == old(self).frequency,
            final(self).numer == old(self).numer,
            final(self).denom == old(self).denom,
            final(self).apic_page.start == old(self).apic_page.start,
            le32_at(final(self).page(), OFFSET_ID as int) == (old(self).id as u32) << 24,
            le32_at(final(self).page(), OFFSET_VER as int) == APIC_VER | 0x60000,
            le32_at(final(self).page(), OFFSET_TPR as int) == 0,
            le32_at(final(self).page(), OFFSET_APR as int) == 0,
            final(self).page()[OFFSET_PPR as int] == 0,
            le32_at(final(self).page(), OFFSET_LDR as int) == 0,
            le32_at(final(self).page(), OFFSET_DFR as int) == 0xffffffff,
            le32_at(final(self).page(), OFFSET_SVR as int) == 0xff,
            le32_at(final(self).page(), OFFSET_LVT_CMCI as int) == BIT_LVT_MASKED,
            le32_at(final(self).page(), OFFSET_LVT_TIMER as int) == BIT_LVT_MASKED,
            le32_at(final(self).page(), OFFSET_LVT_THERMAL as int) == BIT_LVT_MASKED,
            le32_at(final(self).page(), OFFSET_LVT_PERF as int) == BIT_LVT_MASKED,
            le32_at(final(self).page(), OFFSET_LVT_LINT0 as int) == BIT_LVT_MASKED,
            le32_at(final(self).page(), OFFSET_LVT_LINT1 as int) == BIT_LVT_MASKED,
            le32_at(final(self).page(), OFFSET_LVT_ERROR as int) == BIT_LVT_MASKED,
            le32_at(final(self).page(), OFFSET_ICR0 as int) == 0,
            le32_at(final(self).page(), OFFSET_ICR32 as int) == 0,
            le32_at(final(self).page(), OFFSET_ESR as int) == 0,
            le32_at(final(self).page(), OFFSET_DCR as int) == 0,
            le32_at(final(self).page(), OFFSET_CURR_COUNT as int) == 0,
            le32_at(final(self).page(), OFFSET_INIT_COUNT as int) == 0,
            forall|v: u8|
                !isr_bit(final(self).page(), v) && !irr_bit(final(self).page(), v) && !tmr_bit(
                    final(self).page(),
                    v,
                ),
    {
        self.apic_page.write_u32((self.id as u32) << 24, OFFSET_ID, 0);
        self.apic_page.write_u32(APIC_VER | 0x60000, OFFSET_VER, 0);
        self.apic_page.write_u32(0, OFFSET_TPR, 0);
        self.apic_page.write_u32(0, OFFSET_APR, 0);
        self.apic_page.write_u32(0, OFFSET_PPR, 0);
        self.apic_page.write_u32(0, OFFSET_LDR, 0);
        self.apic_page.write_u32(0xffffffff, OFFSET_DFR, 0);
        self.apic_page.write_u32(0xff, OFFSET_SVR, 0);
        proof {
            assert((0u32 & 0xff) as u8 == 0) by (bit_vector);
        }
        let mut i: usize = 0;
        while i < 8
            invariant
                i <= 8,
                self.apic_page@.len() == 4096,
                self.apic_page.start == old(self).apic_page.start,
                self.id == old(self).id,
                self.msr_apic_base == old(self).msr_apic_base,
                self.numer == old(self).numer,
                self.denom == old(self).denom,
                self.frequency == old(self).frequency,
                self.pending_err == old(self).pending_err,
                self.isr_vec@ == old(self).isr_vec@,
                self.sched_timer == old(self).sched_timer,
                self.timer_period == old(self).timer_period,
                le32_at(self.apic_page@, OFFSET_ID as int) == (self.id as u32) << 24,
                le32_at(self.apic_page@, OFFSET_VER as int) == APIC_VER | 0x60000,
                le32_at(self.apic_page@, OFFSET_TPR as int) == 0,
                le32_at(self.apic_page@, OFFSET_APR as int) == 0,
                self.apic_page@[OFFSET_PPR as int] == 0,
                le32_at(self.apic_page@, OFFSET_LDR as int) == 0,
                le32_at(self.apic_page@, OFFSET_DFR as int) == 0xffffffff,
                le32_at(self.apic_page@, OFFSET_SVR as int) == 0xff,
                forall|j: int|
                    0 <= j < i ==> #[trigger] bank_dword(self.apic_page@, OFFSET_ISR as int, j)
                        == 0 && bank_dword(self.apic_page@, OFFSET_IRR as int, j) == 0
                        && bank_dword(self.apic_page@, OFFSET_TMR as int, j) == 0,
            decreases 8 - i,
        {
            let ghost pre = self.apic_page@;
            self.apic_page.write_u32(0, OFFSET_TMR + i * 0x10, 0);
            self.apic_page.write_u32(0, OFFSET_ISR + i * 0x10, 0);
            self.apic_page.write_u32(0, OFFSET_IRR + i * 0x10, 0);
            proof {
                assert(le32_at(self.apic_page@, OFFSET_ID as int) == le32_at(pre, OFFSET_ID as int));
                assert(le32_at(self.apic_page@, OFFSET_VER as int) == le32_at(
                    pre,
                    OFFSET_VER as int,
                ));
                assert(le32_at(self.apic_page@, OFFSET_TPR as int) == le32_at(
                    pre,
                    OFFSET_TPR as int,
                ));
                assert(le32_at(self.apic_page@, OFFSET_APR as int) == le32_at(
                    pre,
                    OFFSET_APR as int,
                ));
                assert(le32_at(self.apic_page@, OFFSET_LDR as int) == le32_at(
                    pre,
                    OFFSET_LDR as int,
                ));
                assert(le32_at(self.apic_page@, OFFSET_DFR as int) == le32_at(
                    pre,
                    OFFSET_DFR as int,
                ));
                assert(le32_at(self.apic_page@, OFFSET_SVR as int) == le32_at(
                    pre,
                    OFFSET_SVR as int,
                ));
                assert forall|j: int|
                    0 <= j < i + 1 implies #[trigger] bank_dword(
                    self.apic_page@,
                    OFFSET_ISR as int,
                    j,
                ) == 0 && bank_dword(self.apic_page@, OFFSET_IRR as int, j) == 0 && bank_dword(
                    self.apic_page@,
                    OFFSET_TMR as int,
                    j,
                ) == 0 by {
                    if j < i {
                        assert(bank_dword(pre, OFFSET_ISR as int, j) == 0);
                        assert(bank_dword(pre, OFFSET_IRR as int, j) == 0);
                        assert(bank_dword(pre, OFFSET_TMR as int, j) == 0);
                    }
                }
            }
            i = i + 1;
        }
        let ghost after_banks = self.apic_page@;
        self.apic_page.write_u32(0, OFFSET_ESR, 0);
        self.apic_page.write_u32(BIT_LVT_MASKED, OFFSET_LVT_CMCI, 0);
        self.apic_page.write_u32(BIT_LVT_MASKED, OFFSET_LVT_TIMER, 0);
        self.apic_page.write_u32(BIT_LVT_MASKED, OFFSET_LVT_THERMAL, 0);
        self.apic_page.write_u32(BIT_LVT_MASKED, OFFSET_LVT_PERF, 0);
        self.apic_page.write_u32(BIT_LVT_MASKED, OFFSET_LVT_LINT0, 0);
        self.apic_page.write_u32(BIT_LVT_MASKED, OFFSET_LVT_LINT1, 0);
        self.apic_page.write_u32(BIT_LVT_MASKED, OFFSET_LVT_ERROR, 0);
        self.apic_page.write_u32(0, OFFSET_ICR0, 0);
        self.apic_page.write_u32(0, OFFSET_ICR32, 0);
        self.apic_page.write_u32(0, OFFSET_DCR, 0);
        self.apic_page.write_u32(0, OFFSET_CURR_COUNT, 0);
        self.apic_page.write_u32(0, OFFSET_INIT_COUNT, 0);
        self.isr_vec = Vec::new();
        self.sched_timer = None;
        self.timer_period = 0;
        proof {
            assert(self.apic_page@[OFFSET_PPR as int] == 0) by {
                assert((0u32 & 0xff) as u8 == 0) by (bit_vector);
                assert(self.apic_page@[OFFSET_PPR as int] == after_banks[OFFSET_PPR as int]);
            }
            assert(le32_at(self.apic_page@, OFFSET_ID as int) == le32_at(
                after_banks,
                OFFSET_ID as int,
            ));
            assert(le32_at(self.apic_page@, OFFSET_VER as int) == le32_at(
                after_banks,
                OFFSET_VER as int,
            ));
            assert(le32_at(self.apic_page@, OFFSET_TPR as int) == le32_at(
                after_banks,
                OFFSET_TPR as int,
            ));
            assert(le32_at(self.apic_page@, OFFSET_APR as int) == le32_at(
                after_banks,
                OFFSET_APR as int,
            ));
            assert(le32_at(self.apic_page@, OFFSET_LDR as int) == le32_at(
                after_banks,
                OFFSET_LDR as int,
            ));
            assert(le32_at(self.apic_page@, OFFSET_DFR as int) == le32_at(
                after_banks,
                OFFSET_DFR as int,
            ));
            assert(le32_at(self.apic_page@, OFFSET_SVR as int) == le32_at(
                after_banks,
                OFFSET_SVR as int,
            ));
            assert forall|v: u8| !isr_bit(self.apic_page@, v) && !irr_bit(
                self.apic_page@,
                v,
            ) && !tmr_bit(self.apic_page@, v) by {
                let blk = v as int / 32;
                assert(0 <= blk < 8);
                assert(bank_dword(self.apic_page@, OFFSET_ISR as int, blk) == bank_dword(
                    after_banks,
                    OFFSET_ISR as int,
                    blk,
                ));
                assert(bank_dword(self.apic_page@, OFFSET_IRR as int, blk) == bank_dword(
                    after_banks,
                    OFFSET_IRR as int,
                    blk,
                ));
                assert(bank_dword(self.apic_page@, OFFSET_TMR as int, blk) == bank_dword(
                    after_banks,
                    OFFSET_TMR as int,
                    blk,
                ));
                assert((0u32 >> (v as u32 % 32)) & 1 == 0) by (bit_vector);
            }
        }
    }

    /// Reads register `offset` as the guest would by an aligned 32-bit
    /// load (in x2APIC mode the ICR reads as one 64-bit value).
    pub fn read(&self, offset: usize) -> (r: u64)
        requires
            self.wf(),
            offset + 4 <= 4096,
            offset != OFFSET_CURR_COUNT,
        ensures
            !(offset == OFFSET_ICR0 && self.spec_x2mode()) ==> r == le32_at(
                self.page(),
                offset as int,
            ) as u64,
            (offset == OFFSET_ICR0 && self.spec_x2mode()) ==> r == le32_at(
                self.page(),
                OFFSET_ICR0 as int,
            ) as u64 | (le32_at(self.page(), OFFSET_ICR32 as int) as u64) << 32,
    {
        let mut result = self.apic_page.read_u32(offset, 0) as u64;
        if offset == OFFSET_ICR0 && self.x2mode() {
            result = result | (self.apic_page.read_u32(OFFSET_ICR32, 0) as u64) << 32;
        }
        result
    }
}


/// What the run loop must do after asking the APIC to inject: deliver
/// `vector` through the VM-entry interruption field, open the interrupt
/// window, or nothing because no deliverable interrupt is pending.
#[derive(Debug, Clone, Copy, PartialEq, Eq, Structural)]
pub enum InjectAction {
    Injected(u8),
    OpenWindow,
    NoPending,
}

/// The processor priority for a task priority `tpr` and an in-service
/// vector `isrv` (Intel SDM 10.8.3.1).
pub open spec fn spec_ppr(tpr: u8, isrv: u8) -> u8 {
    if spec_priority(tpr) >= spec_priority(isrv) {
        tpr
    } else {
        isrv & 0xf0
    }
}

/// The divide-configuration shift encoded by the DCR.
pub open spec fn spec_dcr_shift(dcr: u32) -> u32 {
    ((((dcr & 3) | ((dcr & 8) >> 1)) + 1) as u32) & 7
}

/// The timer interrupt frequency in Hz for the given configuration.
pub open spec fn spec_timer_hz(frequency: u64, dcr: u32, init: u32) -> int {
    (frequency >> spec_dcr_shift(dcr)) as int / init as int
}

/// The timer interval in host absolute units.
pub open spec fn spec_timer_interval(frequency: u64, dcr: u32, init: u32, numer: u32,
    denom: u32) -> int {
    (1_000_000_000int / spec_timer_hz(frequency, dcr, init)) * denom as int / numer as int
}

/// The timer LVT, initial count and DCR found on a page.
pub open spec fn page_lvt_timer(page: Seq<u8>) -> u32 {
    le32_at(page, OFFSET_LVT_TIMER as int)
}

pub open spec fn page_init_count(page: Seq<u8>) -> u32 {
    le32_at(page, OFFSET_INIT_COUNT as int)
}

pub open spec fn page_dcr(page: Seq<u8>) -> u32 {
    le32_at(page, OFFSET_DCR as int)
}

/// An armed timer configuration must be one-shot or periodic with a
/// nonzero interrupt rate; TSC-deadline mode is not implemented.
pub open spec fn timer_config_ok(lvt: u32, dcr: u32, init: u32, frequency: u64) -> bool {
    (!spec_lvt_masked(lvt) && init > 0) ==> (spec_lvt_timer_mode(lvt) <= 1 && spec_timer_hz(
        frequency,
        dcr,
        init,
    ) > 0)
}

/// A dword below a power of two has no bits at or above that position.
proof fn lemma_high_bits_zero(x: u32, r: u32)
    by (bit_vector)
    requires
        r < 32,
        (x as u64) < (1u64 << (r + 1)),
    ensures
        forall|b: u32| r < b < 32 ==> (x >> b) & 1 == 0,
{
}

/// Higher vectors never have lower interrupt priority.
proof fn lemma_priority_monotone(v: u8, w: u8)
    by (bit_vector)
    requires
        v <= w,
    ensures
        (v >> 4) <= (w >> 4),
{
}

/// Strictly higher priority implies a strictly higher vector.
proof fn lemma_priority_strict(v: u8, w: u8)
    by (bit_vector)
    requires
        (v >> 4) < (w >> 4),
    ensures
        v < w,
{
}

/// Masking the low nibble keeps the priority.
proof fn lemma_priority_mask(v: u8)
    by (bit_vector)
    ensures
        ((v & 0xf0) >> 4) == v >> 4,
{
}

impl Apic {
    /// Everything but the register page and the in-service stack is the
    /// same in `a` and `b`.
    pub open spec fn eq_except_page(a: Apic, b: Apic) -> bool {
        &&& a.id == b.id
        &&& a.msr_apic_base == b.msr_apic_base
        &&& a.pending_err == b.pending_err
        &&& a.frequency == b.frequency
        &&& a.sched_timer == b.sched_timer
        &&& a.timer_period == b.timer_period
        &&& a.numer == b.numer
        &&& a.denom == b.denom
        &&& a.apic_page.start == b.apic_page.start
        &&& a.isr_vec@ == b.isr_vec@
    }

    /// Sets `vector`'s bit in one bank of the page; `block` names the
    /// bank.
    fn set_bank_bit(&mut self, block: usize, vector: u8)
        requires
            old(self).page().len() == 4096,
            block == OFFSET_ISR || block == OFFSET_IRR || block == OFFSET_TMR,
        ensures
            Self::eq_except_page(*final(self), *old(self)),
            final(self).page().len() == 4096,
            bank_bit(final(self).page(), block as int, vector),
            forall|w: u8|
                w != vector ==> #[trigger] bank_bit(final(self).page(), block as int, w)
                    == bank_bit(old(self).page(), block as int, w),
            forall|i: int|
                0 <= i < 4096 && !(block + (vector as int / 32) * 0x10 <= i < block + (vector
                    as int / 32) * 0x10 + 4) ==> final(self).page()[i] == old(self).page()[i],
    {
        let off = block + (vector as usize / 32) * 0x10;
        let cur = self.apic_page.read_u32(off, 0);
        let bit: u32 = 1u32 << ((vector as u32) % 32);
        self.apic_page.write_u32(cur | bit, off, 0);
        proof {
            lemma_set_bit(cur, (vector as u32) % 32);
            assert forall|w: u8|
                w != vector implies #[trigger] bank_bit(final(self).page(), block as int, w)
                == bank_bit(old(self).page(), block as int, w) by {
                if w as int / 32 == vector as int / 32 {
                    lemma_same_dword(vector, w);
                } else {
                    assert(bank_dword(final(self).page(), block as int, w as int / 32)
                        == bank_dword(old(self).page(), block as int, w as int / 32));
                }
            }
        }
    }

    /// Clears `vector`'s bit in one bank of the page.
    fn clear_bank_bit(&mut self, block: usize, vector: u8)
        requires
            old(self).page().len() == 4096,
            block == OFFSET_ISR || block == OFFSET_IRR || block == OFFSET_TMR,
        ensures
            Self::eq_except_page(*final(self), *old(self)),
            final(self).page().len() == 4096,
            !bank_bit(final(self).page(), block as int, vector),
            forall|w: u8|
                w != vector ==> #[trigger] bank_bit(final(self).page(), block as int, w)
                    == bank_bit(old(self).page(), block as int, w),
            forall|i: int|
                0 <= i < 4096 && !(block + (vector as int / 32) * 0x10 <= i < block + (vector
                    as int / 32) * 0x10 + 4) ==> final(self).page()[i] == old(self).page()[i],
    {
        let off = block + (vector as usize / 32) * 0x10;
        let cur = self.apic_page.read_u32(off, 0);
        let bit: u32 = 1u32 << ((vector as u32) % 32);
        self.apic_page.write_u32(cur & !bit, off, 0);
        proof {
            lemma_clear_bit(cur, (vector as u32) % 32);
            assert forall|w: u8|
                w != vector implies #[trigger] bank_bit(final(self).page(), block as int, w)
                == bank_bit(old(self).page(), block as int, w) by {
                if w as int / 32 == vector as int / 32 {
                    lemma_same_dword(vector, w);
                } else {
                    assert(bank_dword(final(self).page(), block as int, w as int / 32)
                        == bank_dword(old(self).page(), block as int, w as int / 32));
                }
            }
        }
    }

    /// Marks `vector` requested.
    fn set_irr(&mut self, vector: u8)
        requires
            old(self).page().len() == 4096,
        ensures
            Self::eq_except_page(*final(self), *old(self)),
            final(self).page().len() == 4096,
            irr_bit(final(self).page(), vector),
            forall|w: u8|
                w != vector ==> #[trigger] irr_bit(final(self).page(), w) == irr_bit(
                    old(self).page(),
                    w,
                ),
            forall|w: u8| #[trigger]
                isr_bit(final(self).page(), w) == isr_bit(old(self).page(), w),
            final(self).page()[OFFSET_PPR as int] == old(self).page()[OFFSET_PPR as int],
            forall|i: int|
                0 <= i < 4096 && !(OFFSET_IRR + (vector as int / 32) * 0x10 <= i < OFFSET_IRR + (
                vector as int / 32) * 0x10 + 4) ==> final(self).page()[i] == old(self).page()[i],
            old(self).wf() ==> final(self).wf(),
    {
        self.set_bank_bit(OFFSET_IRR, vector);
        proof {
            assert forall|w: u8| #[trigger]
                isr_bit(final(self).page(), w) == isr_bit(old(self).page(), w) by {
                assert(bank_dword(final(self).page(), OFFSET_ISR as int, w as int / 32)
                    == bank_dword(old(self).page(), OFFSET_ISR as int, w as int / 32));
            }
        }
    }

    /// Drops `vector` from the request bits.
    fn clear_irr(&mut self, vector: u8)
        requires
            old(self).page().len() == 4096,
            irr_bit(old(self).page(), vector),
        ensures
            Self::eq_except_page(*final(self), *old(self)),
            final(self).page().len() == 4096,
            !irr_bit(final(self).page(), vector),
            forall|w: u8|
                w != vector ==> #[trigger] irr_bit(final(self).page(), w) == irr_bit(
                    old(self).page(),
                    w,
                ),
            forall|w: u8| #[trigger]
                isr_bit(final(self).page(), w) == isr_bit(old(self).page(), w),
            final(self).page()[OFFSET_PPR as int] == old(self).page()[OFFSET_PPR as int],
            old(self).wf() ==> final(self).wf(),
    {
        self.clear_bank_bit(OFFSET_IRR, vector);
        proof {
            assert forall|w: u8| #[trigger]
                isr_bit(final(self).page(), w) == isr_bit(old(self).page(), w) by {
                assert(bank_dword(final(self).page(), OFFSET_ISR as int, w as int / 32)
                    == bank_dword(old(self).page(), OFFSET_ISR as int, w as int / 32));
            }
        }
    }

    /// Marks `vector` in service in the page bits (the caller maintains
    /// the stack).
    fn set_isr(&mut self, vector: u8)
        requires
            old(self).page().len() == 4096,
            !isr_bit(old(self).page(), vector),
        ensures
            Self::eq_except_page(*final(self), *old(self)),
            final(self).page().len() == 4096,
            isr_bit(final(self).page(), vector),
            forall|w: u8|
                w != vector ==> #[trigger] isr_bit(final(self).page(), w) == isr_bit(
                    old(self).page(),
                    w,
                ),
            forall|w: u8| #[trigger]
                irr_bit(final(self).page(), w) == irr_bit(old(self).page(), w),
            final(self).page()[OFFSET_TPR as int] == old(self).page()[OFFSET_TPR as int],
            final(self).page()[OFFSET_PPR as int] == old(self).page()[OFFSET_PPR as int],
    {
        self.set_bank_bit(OFFSET_ISR, vector);
        proof {
            assert forall|w: u8| #[trigger]
                irr_bit(final(self).page(), w) == irr_bit(old(self).page(), w) by {
                assert(bank_dword(final(self).page(), OFFSET_IRR as int, w as int / 32)
                    == bank_dword(old(self).page(), OFFSET_IRR as int, w as int / 32));
            }
        }
    }

    /// Clears `vector` from the in-service page bits (the caller
    /// maintains the stack).
    fn clear_isr(&mut self, vector: u8)
        requires
            old(self).page().len() == 4096,
            isr_bit(old(self).page(), vector),
        ensures
            Self::eq_except_page(*final(self), *old(self)),
            final(self).page().len() == 4096,
            !isr_bit(final(self).page(), vector),
            forall|w: u8|
                w != vector ==> #[trigger] isr_bit(final(self).page(), w) == isr_bit(
                    old(self).page(),
                    w,
                ),
            forall|w: u8| #[trigger]
                irr_bit(final(self).page(), w) == irr_bit(old(self).page(), w),
            forall|w: u8| #[trigger]
                tmr_bit(final(self).page(), w) == tmr_bit(old(self).page(), w),
            final(self).page()[OFFSET_TPR as int] == old(self).page()[OFFSET_TPR as int],
            final(self).page()[OFFSET_PPR as int] == old(self).page()[OFFSET_PPR as int],
    {
        self.clear_bank_bit(OFFSET_ISR, vector);
        proof {
            assert forall|w: u8| #[trigger]
                irr_bit(final(self).page(), w) == irr_bit(old(self).page(), w) && #[trigger]
                tmr_bit(final(self).page(), w) == tmr_bit(old(self).page(), w) by {
                assert(bank_dword(final(self).page(), OFFSET_IRR as int, w as int / 32)
                    == bank_dword(old(self).page(), OFFSET_IRR as int, w as int / 32));
                assert(bank_dword(final(self).page(), OFFSET_TMR as int, w as int / 32)
                    == bank_dword(old(self).page(), OFFSET_TMR as int, w as int / 32));
            }
        }
    }

    /// Whether `vector` is level triggered.
    pub fn tmr_is_set(&self, vector: u8) -> (r: bool)
        requires
            self.page().len() == 4096,
        ensures
            r == tmr_bit(self.page(), vector),
    {
        let off = tmr_offset_vec(vector);
        let tmr = self.apic_page.read_u32(off, 0);
        let bit: u32 = 1u32 << ((vector as u32) % 32);
        let r = tmr & bit == bit;
        proof {
            let a = (vector as u32) % 32;
            assert((tmr & (1u32 << a) == (1u32 << a)) == ((tmr >> a) & 1 == 1)) by (bit_vector)
                requires
                    a < 32,
            ;
        }
        r
    }

    /// Recomputes the processor priority from the task priority and the
    /// top in-service vector (Intel SDM 10.8.3.1).
    fn update_ppr(&mut self)
        requires
            old(self).page().len() == 4096,
        ensures
            final(self).page().len() == 4096,
            Self::eq_except_page(*final(self), *old(self)),
            ({
                let isrv: u8 = if old(self).isr_vec@.len() > 0 {
                    old(self).isr_vec@.last()
                } else {
                    0
                };
                final(self).page() == old(self).page().update(
                    OFFSET_PPR as int,
                    spec_ppr(old(self).page()[OFFSET_TPR as int], isrv),
                )
            }),
            spec_priority(final(self).page()[OFFSET_PPR as int]) >= spec_priority(
                if old(self).isr_vec@.len() > 0 {
                    old(self).isr_vec@.last()
                } else {
                    0
                },
            ),
    {
        let tpr = self.apic_page.read_u8(OFFSET_TPR, 0);
        let isrv: u8 = if self.isr_vec.len() > 0 {
            self.isr_vec[self.isr_vec.len() - 1]
        } else {
            0
        };
        let ppr: u8 = if priority(tpr) >= priority(isrv) {
            tpr
        } else {
            isrv & 0xf0
        };
        self.apic_page.write_u8(ppr, OFFSET_PPR, 0);
        proof {
            lemma_priority_mask(isrv);
        }
    }

    /// Re-derives the timer deadline from the timer LVT, the initial
    /// count and the divide configuration: disabled configurations clear
    /// the deadline; armed ones schedule `now` plus the configured
    /// interval, with the interval retained as the period in periodic
    /// mode.
    pub fn update_timer_period(&mut self, now: u64)
        requires
            old(self).wf(),
            now < TIME_BOUND,
            timer_config_ok(
                page_lvt_timer(old(self).page()),
                page_dcr(old(self).page()),
                page_init_count(old(self).page()),
                old(self).frequency,
            ),
        ensures
            final(self).wf(),
            final(self).page() == old(self).page(),
            final(self).isr_vec@ == old(self).isr_vec@,
            final(self).id == old(self).id,
            final(self).msr_apic_base == old(self).msr_apic_base,
            final(self).pending_err == old(self).pending_err,
            final(self).frequency == old(self).frequency,
            final(self).numer == old(self).numer,
            final(self).denom == old(self).denom,
            final(self).apic_page.start == old(self).apic_page.start,
            ({
                let lvt = page_lvt_timer(old(self).page());
                let init = page_init_count(old(self).page());
                let dcr = page_dcr(old(self).page());
                if !spec_lvt_masked(lvt) && init > 0 {
                    let interval = spec_timer_interval(
                        old(self).frequency,
                        dcr,
                        init,
                        old(self).numer,
                        old(self).denom,
                    );
                    &&& final(self).sched_timer == Some((now + interval) as u64)
                    &&& final(self).timer_period == (if spec_lvt_timer_mode(lvt)
                        == TIMER_PERIODIC {
                        interval
                    } else {
                        0
                    })
                } else {
                    &&& final(self).sched_timer is None
                    &&& final(self).timer_period == 0
                }
            }),
    {
        let init_count = self.apic_page.read_u32(OFFSET_INIT_COUNT, 0);
        let lvt_timer = self.apic_page.read_u32(OFFSET_LVT_TIMER, 0);
        if !lvt_masked(lvt_timer) && init_count > 0 {
            let dcr = self.apic_page.read_u32(OFFSET_DCR, 0);
            let dcr_value = (dcr & 0b11) | ((dcr & 0b1000) >> 1);
            proof {
                assert(dcr_value <= 7) by (bit_vector)
                    requires
                        dcr_value == (dcr & 0b11) | ((dcr & 0b1000) >> 1),
                ;
            }
            let dcr_shift = (dcr_value + 1) & 0b111;
            proof {
                assert(dcr_shift < 8 && dcr_shift == spec_dcr_shift(dcr)) by (bit_vector)
                    requires
                        dcr_value == (dcr & 0b11) | ((dcr & 0b1000) >> 1) && dcr_shift == ((
                        dcr_value + 1) as u32) & 0b111,
                ;
            }
            let interrupt_freq = (self.frequency >> dcr_shift) / (init_count as u64);
            let ns = 1_000_000_000u64 / interrupt_freq;
            let interval = self.ns_to_abs(ns);
            let mode = lvt_timer_mode(lvt_timer);
            if mode == TIMER_ONE_SHOT {
                self.sched_timer = Some(now + interval);
                self.timer_period = 0;
            } else {
                self.sched_timer = Some(now + interval);
                self.timer_period = interval;
            }
        } else {
            self.timer_period = 0;
            self.sched_timer = None;
        }
    }

    /// Masks every local-vector-table entry, then re-derives the timer
    /// (which is now off).
    pub fn mask_all_lvt(&mut self, now: u64)
        requires
            old(self).wf(),
            now < TIME_BOUND,
        ensures
            final(self).wf(),
            final(self).isr_vec@ == old(self).isr_vec@,
            final(self).id == old(self).id,
            final(self).msr_apic_base == old(self).msr_apic_base,
            final(self).pending_err == old(self).pending_err,
            final(self).frequency == old(self).frequency,
            final(self).numer == old(self).numer,
            final(self).denom == old(self).denom,
            final(self).apic_page.start == old(self).apic_page.start,
            final(self).sched_timer is None,
            final(self).timer_period == 0,
            spec_lvt_masked(page_lvt_timer(final(self).page())),
            forall|i: int|
                0 <= i < 4096 && !(OFFSET_LVT_CMCI <= i < OFFSET_LVT_ERROR + 4) ==> final(self).page()[i] == old(self).page()[i],
    {
        let ghost orig = self.apic_page@;
        let v0 = self.apic_page.read_u32(OFFSET_LVT_CMCI, 0);
        self.apic_page.write_u32(v0 | BIT_LVT_MASKED, OFFSET_LVT_CMCI, 0);
        let v1 = self.apic_page.read_u32(OFFSET_LVT_ERROR, 0);
        self.apic_page.write_u32(v1 | BIT_LVT_MASKED, OFFSET_LVT_ERROR, 0);
        let v2 = self.apic_page.read_u32(OFFSET_LVT_LINT0, 0);
        self.apic_page.write_u32(v2 | BIT_LVT_MASKED, OFFSET_LVT_LINT0, 0);
        let v3 = self.apic_page.read_u32(OFFSET_LVT_LINT1, 0);
        self.apic_page.write_u32(v3 | BIT_LVT_MASKED, OFFSET_LVT_LINT1, 0);
        let v4 = self.apic_page.read_u32(OFFSET_LVT_PERF, 0);
        self.apic_page.write_u32(v4 | BIT_LVT_MASKED, OFFSET_LVT_PERF, 0);
        let v5 = self.apic_page.read_u32(OFFSET_LVT_THERMAL, 0);
        self.apic_page.write_u32(v5 | BIT_LVT_MASKED, OFFSET_LVT_THERMAL, 0);
        let v6 = self.apic_page.read_u32(OFFSET_LVT_TIMER, 0);
        self.apic_page.write_u32(v6 | BIT_LVT_MASKED, OFFSET_LVT_TIMER, 0);
        proof {
            assert((v6 | BIT_LVT_MASKED) & BIT_LVT_MASKED > 0) by (bit_vector);
            assert forall|w: u8| #[trigger]
                isr_bit(self.apic_page@, w) == isr_bit(orig, w) by {
                assert(bank_dword(self.apic_page@, OFFSET_ISR as int, w as int / 32) == bank_dword(
                    orig,
                    OFFSET_ISR as int,
                    w as int / 32,
                ));
            }
        }
        self.update_timer_period(now);
    }

    /// Requests delivery of `vector`, as the I/O APIC does when its
    /// routing selects this processor.
    pub fn fire_external_interrupt(&mut self, vector: u8)
        requires
            old(self).wf(),
        ensures
            final(self).wf(),
            irr_bit(final(self).page(), vector),
            forall|w: u8|
                w != vector ==> #[trigger] irr_bit(final(self).page(), w) == irr_bit(
                    old(self).page(),
                    w,
                ),
            final(self).isr_stack() == old(self).isr_stack(),
            final(self).sched_timer == old(self).sched_timer,
            final(self).timer_period == old(self).timer_period,
            final(self).msr_apic_base == old(self).msr_apic_base,
            final(self).id == old(self).id,
            final(self).pending_err == old(self).pending_err,
            forall|i: int|
                0 <= i < 4096 && !(OFFSET_IRR + (vector as int / 32) * 0x10 <= i < OFFSET_IRR + (
                vector as int / 32) * 0x10 + 4) ==> final(self).page()[i] == old(self).page()[i],
    {
        self.set_irr(vector);
    }

    /// Fires the timer interrupt at host time `now`: requests the timer
    /// LVT's vector and re-arms a periodic timer one period ahead (a
    /// one-shot timer goes quiet).
    pub fn fire_timer_interrupt(&mut self, now: u64)
        requires
            old(self).wf(),
            now < TIME_BOUND,
            !spec_lvt_masked(page_lvt_timer(old(self).page())),
        ensures
            final(self).wf(),
            irr_bit(final(self).page(), spec_lvt_vec(page_lvt_timer(old(self).page()))),
            final(self).isr_stack() == old(self).isr_stack(),
            final(self).sched_timer == (if old(self).timer_period == 0 {
                Option::<u64>::None
            } else {
                Some((now + old(self).timer_period) as u64)
            }),
            final(self).timer_period == old(self).timer_period,
    {
        let timer_lvt = self.apic_page.read_u32(OFFSET_LVT_TIMER, 0);
        let vector = lvt_vec(timer_lvt);
        self.set_irr(vector);
        if self.timer_period == 0 {
            self.sched_timer = None;
        } else {
            self.sched_timer = Some(now + self.timer_period);
        }
    }

    /// The index of the highest set bit of a nonzero dword.
    fn top_bit(x: u32) -> (r: u32)
        requires
            x != 0,
        ensures
            r < 32,
            (x >> r) & 1 == 1,
            forall|b: u32| r < b < 32 ==> (x >> b) & 1 == 0,
    {
        proof {
            assert((x as u64) < (1u64 << (31u32 + 1))) by (bit_vector);
        }
        let mut b: u32 = 31;
        while b > 0
            invariant
                b <= 31,
                (x as u64) < (1u64 << (b + 1)),
            decreases b,
        {
            if (x >> b) & 1 == 1 {
                proof {
                    lemma_high_bits_zero(x, b);
                }
                return b;
            }
            proof {
                assert((x as u64) < (1u64 << b)) by (bit_vector)
                    requires
                        (x as u64) < (1u64 << (b + 1)) && (x >> b) & 1 != 1 && 0 < b < 32,
                ;
            }
            b = b - 1;
        }
        proof {
            assert((x >> 0u32) & 1 == 1) by (bit_vector)
                requires
                    x != 0 && (x as u64) < (1u64 << (0u32 + 1)),
            ;
            lemma_high_bits_zero(x, 0);
        }
        0
    }

    /// Picks the highest requested vector whose priority exceeds the
    /// processor priority, if any (Intel SDM 10.8.4).
    fn get_vector_from_irr(&self) -> (r: Result<u8, crate::err::Error>)
        requires
            self.page().len() == 4096,
        ensures
            r is Ok ==> ({
                let v = r->Ok_0;
                &&& irr_bit(self.page(), v)
                &&& spec_priority(v) > spec_priority(self.page()[OFFSET_PPR as int])
                &&& forall|w: u8|
                    w > v && #[trigger] irr_bit(self.page(), w) ==> spec_priority(w)
                        <= spec_priority(self.page()[OFFSET_PPR as int])
            }),
            r is Err ==> forall|w: u8|
                irr_bit(self.page(), w) ==> spec_priority(w) <= spec_priority(
                    self.page()[OFFSET_PPR as int],
                ),
    {
        let ppr = self.apic_page.read_u8(OFFSET_PPR, 0);
        let mut i: usize = 8;
        while i > 0
            invariant
                i <= 8,
                self.page().len() == 4096,
                ppr == self.page()[OFFSET_PPR as int],
                forall|w: u8|
                    w as int / 32 >= i ==> #[trigger] irr_bit(self.page(), w) ==> spec_priority(w)
                        <= spec_priority(ppr),
            decreases i,
        {
            i = i - 1;
            let irr = self.apic_page.read_u32(OFFSET_IRR + i * 0x10, 0);
            if irr != 0 {
                let top = Self::top_bit(irr);
                let vector: u8 = (i as u8) * 32 + (top as u8);
                proof {
                    assert(bank_dword(self.page(), OFFSET_IRR as int, i as int) == irr);
                    assert(vector as int / 32 == i && vector as u32 % 32 == top) by (bit_vector)
                        requires
                            vector == (i as u8) * 32 + (top as u8) && top < 32 && i < 8,
                    ;
                    assert forall|w: u8|
                        w > vector && #[trigger] irr_bit(self.page(), w) implies spec_priority(w)
                        <= spec_priority(ppr) by {
                        if w as int / 32 == i as int {
                            assert(w as u32 % 32 > top) by (bit_vector)
                                requires
                                    w > vector && vector == (i as u8) * 32 + (top as u8) && top
                                        < 32 && i < 8 && w as int / 32 == i as int,
                            ;
                            assert((irr >> (w as u32 % 32)) & 1 == 0);
                            assert(false);
                        } else {
                            assert(w as int / 32 >= i + 1) by (bit_vector)
                                requires
                                    w > vector && vector == (i as u8) * 32 + (top as u8) && top
                                        < 32 && i < 8 && w as int / 32 != i as int,
                            ;
                        }
                    }
                }
                if priority(vector) > priority(ppr) {
                    return Ok(vector);
                }
                proof {
                    assert forall|w: u8|
                        w as int / 32 >= i && #[trigger] irr_bit(self.page(), w) implies
                        spec_priority(w) <= spec_priority(ppr) by {
                        if w as int / 32 == i as int {
                            assert(w <= vector);
                            lemma_priority_monotone(w, vector);
                        }
                    }
                }
            } else {
                proof {
                    assert(bank_dword(self.page(), OFFSET_IRR as int, i as int) == 0);
                    assert forall|w: u8|
                        w as int / 32 >= i && #[trigger] irr_bit(self.page(), w) implies
                        spec_priority(w) <= spec_priority(ppr) by {
                        if w as int / 32 == i as int {
                            assert((0u32 >> (w as u32 % 32)) & 1 == 0) by (bit_vector);
                        }
                    }
                }
            }
        }
        Err(crate::err::Error::Program("find no vector".to_owned()))
    }

    /// Accepts `vector`: clears its request bit, pushes it in service and
    /// raises the processor priority to cover it.
    fn mark_intr_in_service(&mut self, vector: u8)
        requires
            old(self).wf(),
            irr_bit(old(self).page(), vector),
            spec_priority(vector) > spec_priority(old(self).page()[OFFSET_PPR as int]),
        ensures
            final(self).wf(),
            final(self).isr_stack() == old(self).isr_stack().push(vector),
            !irr_bit(final(self).page(), vector),
            forall|w: u8|
                w != vector ==> #[trigger] irr_bit(final(self).page(), w) == irr_bit(
                    old(self).page(),
                    w,
                ),
    {
        proof {
            if self.isr_vec@.len() > 0 {
                let top = self.isr_vec@.last();
                lemma_priority_monotone(top, top);
                assert(spec_priority(self.apic_page@[OFFSET_PPR as int]) >= spec_priority(top));
                lemma_priority_strict(top, vector);
                lemma_increasing_last_max(self.isr_vec@, vector);
            }
            assert(!self.isr_vec@.contains(vector));
        }
        self.clear_irr(vector);
        self.set_isr(vector);
        self.isr_vec.push(vector);
        let ghost mid = *self;
        self.update_ppr();
        proof {
            let stack = mid.isr_vec@;
            assert forall|w: u8| #[trigger]
                isr_bit(final(self).page(), w) == isr_bit(mid.page(), w) by {
                assert(bank_dword(final(self).page(), OFFSET_ISR as int, w as int / 32)
                    == bank_dword(mid.page(), OFFSET_ISR as int, w as int / 32));
            }
            assert forall|w: u8| #[trigger]
                irr_bit(final(self).page(), w) == irr_bit(mid.page(), w) by {
                assert(bank_dword(final(self).page(), OFFSET_IRR as int, w as int / 32)
                    == bank_dword(mid.page(), OFFSET_IRR as int, w as int / 32));
            }
            assert(stack.last() == vector);
            assert forall|i: int, j: int|
                0 <= i < j < stack.len() implies stack[i] < stack[j] by {
                if j == stack.len() - 1 && old(self).isr_vec@.len() > 0 {
                    assert(stack[i] == old(self).isr_vec@[i]);
                    if i < old(self).isr_vec@.len() - 1 {
                        assert(old(self).isr_vec@[i] < old(self).isr_vec@.last());
                    }
                    lemma_priority_strict(old(self).isr_vec@.last(), vector);
                }
            }
            assert forall|w: u8| #[trigger]
                isr_bit(final(self).page(), w) <==> stack.contains(w) by {
                if w == vector {
                    assert(stack[stack.len() - 1] == vector);
                } else {
                    assert(isr_bit(mid.page(), w) == isr_bit(old(self).page(), w));
                    assert(old(self).isr_vec@.contains(w) <==> stack.contains(w)) by {
                        if old(self).isr_vec@.contains(w) {
                            let k = choose|k: int|
                                0 <= k < old(self).isr_vec@.len() && old(self).isr_vec@[k] == w;
                            assert(stack[k] == w);
                        }
                        if stack.contains(w) {
                            let k = choose|k: int| 0 <= k < stack.len() && stack[k] == w;
                            assert(k < stack.len() - 1);
                            assert(old(self).isr_vec@[k] == w);
                        }
                    }
                }
            }
        }
    }

    /// Decides interrupt injection for the next VM entry.
    ///
    /// `rflags`, `blocking` and `entry_info` are the guest's RFLAGS, the
    /// interruptibility state and the current VM-entry interruption field.
    /// If a deliverable vector is pending and the guest can take it now,
    /// the vector is accepted (request bit cleared, pushed in service) and
    /// the caller must write `(1 << 31) | vector` to the interruption
    /// field; if the guest cannot take it, the caller must open the
    /// interrupt window; with nothing deliverable there is nothing to do.
    pub fn inject_interrupt(&mut self, rflags: u64, blocking: u64, entry_info: u64) -> (r:
        InjectAction)
        requires
            old(self).wf(),
        ensures
            final(self).wf(),
            match r {
                InjectAction::Injected(v) => {
                    &&& rflags & crate::x86::FL_IF == crate::x86::FL_IF
                    &&& blocking & 3 == 0
                    &&& entry_info & 0x80000000 == 0
                    &&& irr_bit(old(self).page(), v)
                    &&& spec_priority(v) > spec_priority(old(self).page()[OFFSET_PPR as int])
                    &&& forall|w: u8|
                        w > v && #[trigger] irr_bit(old(self).page(), w) ==> spec_priority(w)
                            <= spec_priority(old(self).page()[OFFSET_PPR as int])
                    &&& final(self).isr_stack() == old(self).isr_stack().push(v)
                    &&& !irr_bit(final(self).page(), v)
                },
                InjectAction::OpenWindow => {
                    &&& *final(self) == *old(self)
                    &&& exists|v: u8|
                        irr_bit(old(self).page(), v) && spec_priority(v) > spec_priority(
                            old(self).page()[OFFSET_PPR as int],
                        )
                },
                InjectAction::NoPending => {
                    &&& *final(self) == *old(self)
                    &&& forall|w: u8|
                        irr_bit(old(self).page(), w) ==> spec_priority(w) <= spec_priority(
                            old(self).page()[OFFSET_PPR as int],
                        )
                },
            },
    {
        let picked = self.get_vector_from_irr();
        match picked {
            Ok(vector) => {
                if rflags & crate::x86::FL_IF == crate::x86::FL_IF && blocking & 3 == 0
                    && entry_info & 0x80000000 == 0 {
                    self.mark_intr_in_service(vector);
                    InjectAction::Injected(vector)
                } else {
                    InjectAction::OpenWindow
                }
            },
            Err(_) => InjectAction::NoPending,
        }
    }
}

/// After any run of EOIs and interrupt acceptances, the in-service
/// vector stack of a well-formed APIC is strictly increasing from bottom
/// to top.
pub proof fn lemma_isr_stack_increasing(a: Apic)
    requires
        a.wf(),
    ensures
        forall|i: int, j: int|
            0 <= i < j < a.isr_stack().len() ==> a.isr_stack()[i] < a.isr_stack()[j],
{
}


/// Which register writes the emulation accepts: the self-IPI register is
/// not implemented, and in x2APIC mode neither are ID, LDR, DFR and ICR
/// writes.
pub open spec fn write_supported(a: Apic, offset: usize) -> bool {
    &&& offset != OFFSET_SELF_IPI
    &&& (a.spec_x2mode() ==> offset != OFFSET_ID && offset != OFFSET_LDR && offset != OFFSET_DFR
        && offset != OFFSET_ICR0)
}

/// The timer configuration that would result from writing `value` to
/// `offset` must be implementable (one-shot or periodic, nonzero rate).
pub open spec fn write_timer_ok(a: Apic, offset: usize, value: u64) -> bool {
    if offset == OFFSET_LVT_TIMER {
        timer_config_ok(value as u32, page_dcr(a.page()), page_init_count(a.page()), a.frequency)
    } else if offset == OFFSET_INIT_COUNT {
        timer_config_ok(page_lvt_timer(a.page()), page_dcr(a.page()), value as u32, a.frequency)
    } else if offset == OFFSET_DCR {
        timer_config_ok(page_lvt_timer(a.page()), value as u32, page_init_count(a.page()), a.frequency)
    } else {
        true
    }
}

impl Apic {
    /// Whether `timer_config_ok` holds of the given timer registers.
    fn timer_config_check(&self, lvt: u32, dcr: u32, init: u32) -> (r: bool)
        ensures
            r == timer_config_ok(lvt, dcr, init, self.frequency),
    {
        if lvt_masked(lvt) || init == 0 {
            return true;
        }
        if lvt_timer_mode(lvt) > 1 {
            return false;
        }
        let dcr_value = (dcr & 0b11) | ((dcr & 0b1000) >> 1);
        proof {
            assert(dcr_value <= 7) by (bit_vector)
                requires
                    dcr_value == (dcr & 0b11) | ((dcr & 0b1000) >> 1),
            ;
        }
        let dcr_shift = (dcr_value + 1) & 0b111;
        proof {
            assert(dcr_shift < 8 && dcr_shift == spec_dcr_shift(dcr)) by (bit_vector)
                requires
                    dcr_value == (dcr & 0b11) | ((dcr & 0b1000) >> 1) && dcr_shift == ((dcr_value
                        + 1) as u32) & 0b111,
            ;
        }
        (self.frequency >> dcr_shift) / (init as u64) > 0
    }

    /// Whether a guest store of `value` to register `offset` is within
    /// what `write` implements; the embedding tests this and reports an
    /// unhandled exit when it fails.
    pub fn can_write(&self, offset: usize, value: u64) -> (r: bool)
        requires
            self.wf(),
        ensures
            r == (write_supported(*self, offset) && write_timer_ok(*self, offset, value)),
    {
        if offset == OFFSET_SELF_IPI {
            return false;
        }
        if self.x2mode() && (offset == OFFSET_ID || offset == OFFSET_LDR || offset == OFFSET_DFR
            || offset == OFFSET_ICR0) {
            return false;
        }
        if offset == OFFSET_LVT_TIMER {
            let dcr = self.apic_page.read_u32(OFFSET_DCR, 0);
            let init = self.apic_page.read_u32(OFFSET_INIT_COUNT, 0);
            self.timer_config_check(#[verifier::truncate] (value as u32), dcr, init)
        } else if offset == OFFSET_INIT_COUNT {
            let lvt = self.apic_page.read_u32(OFFSET_LVT_TIMER, 0);
            let dcr = self.apic_page.read_u32(OFFSET_DCR, 0);
            self.timer_config_check(lvt, dcr, #[verifier::truncate] (value as u32))
        } else if offset == OFFSET_DCR {
            let lvt = self.apic_page.read_u32(OFFSET_LVT_TIMER, 0);
            let init = self.apic_page.read_u32(OFFSET_INIT_COUNT, 0);
            self.timer_config_check(lvt, #[verifier::truncate] (value as u32), init)
        } else {
            true
        }
    }

    /// Handles a guest store of `value` to register `offset` at host time
    /// `now`, with the semantics of Intel SDM chapter 10: TPR stores
    /// recompute the processor priority; EOI retires the top in-service
    /// vector; an SVR store that clears the enable bit masks every LVT;
    /// LVT-timer, initial-count and divide-configuration stores re-derive
    /// the timer; an ESR store latches the pending error; LDR, DFR, ICR
    /// and the remaining LVT entries are stored; unknown registers are
    /// ignored.
    pub fn write(&mut self, offset: usize, value: u64, now: u64)
        requires
            old(self).wf(),
            now < TIME_BOUND,
            write_supported(*old(self), offset),
            write_timer_ok(*old(self), offset, value),
        ensures
            final(self).wf(),
            final(self).id == old(self).id,
            final(self).msr_apic_base == old(self).msr_apic_base,
            offset != OFFSET_EOI ==> final(self).isr_stack() == old(self).isr_stack(),
            offset == OFFSET_EOI ==> (if old(self).isr_stack().len() > 0 {
                &&& final(self).isr_stack() == old(self).isr_stack().drop_last()
                &&& !isr_bit(final(self).page(), old(self).isr_stack().last())
                &&& final(self).page()[OFFSET_PPR as int] == spec_ppr(
                    old(self).page()[OFFSET_TPR as int],
                    if old(self).isr_stack().len() > 1 {
                        old(self).isr_stack()[old(self).isr_stack().len() - 2]
                    } else {
                        0
                    },
                )
            } else {
                *final(self) == *old(self)
            }),
            offset == OFFSET_TPR ==> final(self).page()[OFFSET_TPR as int] == value as u8
                && (old(self).page()[OFFSET_TPR as int] != value as u8
                ==> final(self).page()[OFFSET_PPR as int] == spec_ppr(
                value as u8,
                if old(self).isr_stack().len() > 0 {
                    old(self).isr_stack().last()
                } else {
                    0
                },
            )) && (old(self).page()[OFFSET_TPR as int] == value as u8
                ==> *final(self) == *old(self)),
            (offset == OFFSET_LDR && !old(self).spec_x2mode()) ==> le32_at(
                final(self).page(),
                OFFSET_LDR as int,
            ) == value as u32,
            (offset == OFFSET_DFR && !old(self).spec_x2mode()) ==> le32_at(
                final(self).page(),
                OFFSET_DFR as int,
            ) == value as u32,
            offset == OFFSET_SVR ==> le32_at(final(self).page(), OFFSET_SVR as int) == value
                as u32,
            (offset == OFFSET_ICR0 && !old(self).spec_x2mode()) ==> le32_at(
                final(self).page(),
                OFFSET_ICR0 as int,
            ) == value as u32,
            offset == OFFSET_ICR32 ==> le32_at(final(self).page(), OFFSET_ICR32 as int) == value
                as u32,
            (offset == OFFSET_LVT_THERMAL || offset == OFFSET_LVT_PERF || offset
                == OFFSET_LVT_LINT0 || offset == OFFSET_LVT_LINT1 || offset == OFFSET_LVT_ERROR
                || offset == OFFSET_LVT_TIMER) ==> le32_at(final(self).page(), offset as int)
                == value as u32,
            offset == OFFSET_LVT_TIMER || offset == OFFSET_INIT_COUNT || offset == OFFSET_DCR
                ==> ({
                let lvt = page_lvt_timer(final(self).page());
                let init = page_init_count(final(self).page());
                let dcr = page_dcr(final(self).page());
                if !spec_lvt_masked(lvt) && init > 0 {
                    let interval = spec_timer_interval(
                        old(self).frequency,
                        dcr,
                        init,
                        old(self).numer,
                        old(self).denom,
                    );
                    &&& final(self).sched_timer == Some((now + interval) as u64)
                    &&& final(self).timer_period == (if spec_lvt_timer_mode(lvt)
                        == TIMER_PERIODIC {
                        interval
                    } else {
                        0
                    })
                } else {
                    &&& final(self).sched_timer is None
                    &&& final(self).timer_period == 0
                }
            }),
            offset == OFFSET_ESR ==> le32_at(final(self).page(), OFFSET_ESR as int) == old(
                self,
            ).pending_err && final(self).pending_err == 0,
            !(offset == OFFSET_ID || offset == OFFSET_TPR || offset == OFFSET_EOI || offset
                == OFFSET_LDR || offset == OFFSET_DFR || offset == OFFSET_SVR || offset
                == OFFSET_ICR0 || offset == OFFSET_ICR32 || offset == OFFSET_LVT_CMCI || offset
                == OFFSET_LVT_TIMER || offset == OFFSET_LVT_THERMAL || offset == OFFSET_LVT_PERF
                || offset == OFFSET_LVT_LINT0 || offset == OFFSET_LVT_LINT1 || offset
                == OFFSET_LVT_ERROR || offset == OFFSET_INIT_COUNT || offset == OFFSET_DCR
                || offset == OFFSET_ESR) ==> *final(self) == *old(self),
    {
        if offset == OFFSET_ID {
            // In xAPIC mode a changed id is ignored with a warning.
        } else if offset == OFFSET_TPR {
            let current = self.apic_page.read_u8(OFFSET_TPR, 0);
            let new_tpr: u8 = #[verifier::truncate] (value as u8);
            if current != new_tpr {
                self.apic_page.write_u8(new_tpr, OFFSET_TPR, 0);
                proof {
                    assert forall|w: u8| #[trigger]
                        isr_bit(self.apic_page@, w) == isr_bit(old(self).page(), w) by {
                        assert(bank_dword(self.apic_page@, OFFSET_ISR as int, w as int / 32)
                            == bank_dword(old(self).page(), OFFSET_ISR as int, w as int / 32));
                    }
                }
                let ghost mid = *self;
                self.update_ppr();
                proof {
                    assert forall|w: u8| #[trigger]
                        isr_bit(self.apic_page@, w) == isr_bit(mid.page(), w) by {
                        assert(bank_dword(self.apic_page@, OFFSET_ISR as int, w as int / 32)
                            == bank_dword(mid.page(), OFFSET_ISR as int, w as int / 32));
                    }
                }
            }
        } else if offset == OFFSET_EOI {
            if self.isr_vec.len() > 0 {
                let vector = self.isr_vec[self.isr_vec.len() - 1];
                self.isr_vec.pop();
                proof {
                    assert(self.isr_vec@ == old(self).isr_vec@.drop_last());
                    assert(old(self).isr_vec@.contains(vector));
                }
                self.clear_isr(vector);
                let ghost mid = *self;
                self.update_ppr();
                proof {
                    assert forall|w: u8| #[trigger]
                        isr_bit(self.apic_page@, w) == isr_bit(mid.page(), w) by {
                        assert(bank_dword(self.apic_page@, OFFSET_ISR as int, w as int / 32)
                            == bank_dword(mid.page(), OFFSET_ISR as int, w as int / 32));
                    }
                    let stack = old(self).isr_vec@;
                    assert forall|w: u8| #[trigger]
                        isr_bit(self.apic_page@, w) <==> stack.drop_last().contains(w) by {
                        lemma_increasing_drop_last_contains(stack, w);
                        assert(isr_bit(mid.page(), w) <==> (stack.contains(w) && w != vector));
                    }
                    if stack.drop_last().len() > 0 {
                        assert(stack.drop_last().last() == stack[stack.len() - 2]);
                        assert(stack[stack.len() - 2] <= stack.last());
                    }
                }
            }
            // An EOI with nothing in service is meaningless and ignored.
        } else if offset == OFFSET_LDR {
            self.store_dword(offset, #[verifier::truncate] (value as u32));
        } else if offset == OFFSET_DFR {
            self.store_dword(offset, #[verifier::truncate] (value as u32));
        } else if offset == OFFSET_SVR {
            let svr_old = self.apic_page.read_u32(OFFSET_SVR, 0);
            let enabled_old = svr_old & 0x100 > 0;
            let enabled = value & 0x100 > 0;
            if enabled_old && !enabled {
                self.mask_all_lvt(now);
            }
            self.store_dword(OFFSET_SVR, #[verifier::truncate] (value as u32));
        } else if offset == OFFSET_ICR0 {
            self.store_dword(OFFSET_ICR0, #[verifier::truncate] (value as u32));
        } else if offset == OFFSET_ICR32 {
            self.store_dword(OFFSET_ICR32, #[verifier::truncate] (value as u32));
        } else if offset == OFFSET_LVT_CMCI {
            // Not implemented; the store is dropped.
        } else if offset == OFFSET_LVT_TIMER || offset == OFFSET_INIT_COUNT || offset
            == OFFSET_DCR {
            self.store_dword(offset, #[verifier::truncate] (value as u32));
            self.update_timer_period(now);
        } else if offset == OFFSET_LVT_THERMAL || offset == OFFSET_LVT_PERF || offset
            == OFFSET_LVT_LINT0 || offset == OFFSET_LVT_LINT1 || offset == OFFSET_LVT_ERROR {
            self.store_dword(offset, #[verifier::truncate] (value as u32));
        } else if offset == OFFSET_ESR {
            let err = self.pending_err;
            self.store_dword(OFFSET_ESR, err);
            self.pending_err = 0;
        } else {
            // Stores to unknown or read-only registers are dropped.
        }
    }

    /// Stores one dword into the page, preserving well-formedness: the
    /// target must lie outside the ISR bank and the PPR.
    fn store_dword(&mut self, offset: usize, value: u32)
        requires
            old(self).wf(),
            offset + 4 <= 4096,
            offset % 4 == 0,
            !(OFFSET_ISR <= offset < OFFSET_ISR + 0x80),
            !(OFFSET_PPR <= offset < OFFSET_PPR + 4),
        ensures
            final(self).wf(),
            le32_at(final(self).page(), offset as int) == value,
            forall|i: int|
                0 <= i < 4096 && !(offset <= i < offset + 4) ==> final(self).page()[i] == old(
                    self,
                ).page()[i],
            Self::eq_except_page(*final(self), *old(self)),
    {
        self.apic_page.write_u32(value, offset, 0);
        proof {
            assert forall|w: u8| #[trigger]
                isr_bit(self.apic_page@, w) == isr_bit(old(self).page(), w) by {
                assert(bank_dword(self.apic_page@, OFFSET_ISR as int, w as int / 32) == bank_dword(
                    old(self).page(),
                    OFFSET_ISR as int,
                    w as int / 32,
                ));
            }
        }
    }
}

} // verus!
