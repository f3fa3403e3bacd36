//! The vthread staging: a guest stack whose top word returns into a halt
//! routine, a two-page identity paging structure, and the long-mode
//! register seed; the embedding host maps the two blocks and runs the
//! guest function on a fresh vCPU.

use vstd::prelude::*;

use crate::consts::PAGE_SIZE;
use crate::err::Error;
use crate::mach::le64_at;
use crate::mach::MachVMBlock;
use crate::vmx::VcpuSeed;
use crate::vmx::VmxCapSet;
use crate::vmx::X86Reg;
use crate::x86::FL_RSVD_1;
use crate::x86::PG_P;
use crate::x86::PG_PS;
use crate::x86::PG_RW;

verus! {

/// Default stack size of a vthread: ten pages.
pub const VTHREAD_STACK_SIZE: usize = 40960;

/// Size of the identity paging structure: a PML4 page and a PDPT page.
pub const PAGING_SIZE: usize = 8192;

/// The staged state of one vthread, ready to be mapped and run.
pub struct VThread {
    /// The guest stack; its top word is the address of the host's halt
    /// routine, so that returning from the guest function exits cleanly.
    pub stack: MachVMBlock,
    /// PML4 and PDPT pages mapping the first 512 GiB identically.
    pub paging: MachVMBlock,
    /// Initial registers and the long-mode VMCS seed.
    pub seed: VcpuSeed,
}

impl VThread {
    /// Stages a vthread that enters at `entry` and returns into
    /// `hlt_addr`.
    pub fn new(stack_size: usize, entry: usize, hlt_addr: usize, caps: &VmxCapSet) -> (r: Result<
        VThread,
        Error,
    >)
        requires
            2 * PAGE_SIZE <= stack_size,
            stack_size % 4096 == 0,
            stack_size <= usize::MAX - crate::mach::ALLOC_BASE,
            (crate::vmx::CPU_BASED_HLT | crate::vmx::CPU_BASED_CR8_LOAD
                | crate::vmx::CPU_BASED_CR8_STORE) & !(caps.cpu >> 32) == 0,
            crate::vmx::CPU_BASED2_RDTSCP & !(caps.cpu2 >> 32) == 0,
            crate::vmx::VMENTRY_GUEST_IA32E & !(caps.entry >> 32) == 0,
        ensures
            r is Ok,
            r is Ok ==> ({
                let v = r->Ok_0;
                let stack_top = v.stack.start + stack_size - 8;
                &&& v.stack@.len() == stack_size
                &&& le64_at(v.stack@, stack_size - 8) == hlt_addr as u64
                &&& v.paging@.len() == PAGING_SIZE
                &&& le64_at(v.paging@, 0) == PG_P | PG_RW | (v.paging.start + PAGE_SIZE) as u64
                &&& forall|i: int|
                    0 <= i < 512 ==> #[trigger] crate::linux::pdpte_at(
                        v.paging@,
                        PAGE_SIZE as int,
                        i,
                    ) == ((i as u64) << 30) | PG_P | PG_RW | PG_PS
                &&& v.seed.init_regs@ == seq![
                    (X86Reg::RIP, entry as u64),
                    (X86Reg::RFLAGS, FL_RSVD_1),
                    (X86Reg::RSP, stack_top as u64),
                    (X86Reg::CR3, v.paging.start as u64),
                ]
                &&& v.seed.init_vmcs@ == crate::vmx::spec_longmode_vmcs_seed(*caps)
            }),
    {
        let mut stack = match MachVMBlock::new(stack_size) {
            Ok(b) => b,
            Err(e) => {
                return Err(e);
            },
        };
        let stack_top = stack.start + stack_size - 8;
        stack.write_u64(hlt_addr as u64, stack_size - 8, 0);
        let mut paging = match MachVMBlock::new(PAGING_SIZE) {
            Ok(b) => b,
            Err(e) => {
                return Err(e);
            },
        };
        let pml4e: u64 = PG_P | PG_RW | (paging.start + PAGE_SIZE) as u64;
        paging.write_u64(pml4e, 0, 0);
        let pstart = paging.start;
        let mut i: usize = 0;
        while i < 512
            invariant
                i <= 512,
                paging@.len() == PAGING_SIZE,
                paging.start == pstart,
                le64_at(paging@, 0) == PG_P | PG_RW | (paging.start + PAGE_SIZE) as u64,
                forall|j: int|
                    0 <= j < i ==> #[trigger] crate::linux::pdpte_at(paging@, PAGE_SIZE as int, j)
                        == ((j as u64) << 30) | PG_P | PG_RW | PG_PS,
            decreases 512 - i,
        {
            let entry_val: u64 = ((i as u64) << 30) | PG_P | PG_RW | PG_PS;
            let ghost pre = paging@;
            paging.write_u64(entry_val, PAGE_SIZE, i);
            proof {
                assert(le64_at(paging@, 0) == le64_at(pre, 0));
                assert forall|j: int|
                    0 <= j < i + 1 implies #[trigger] crate::linux::pdpte_at(
                    paging@,
                    PAGE_SIZE as int,
                    j,
                ) == ((j as u64) << 30) | PG_P | PG_RW | PG_PS by {
                    if j < i {
                        assert(crate::linux::pdpte_at(pre, PAGE_SIZE as int, j) == ((j as u64)
                            << 30) | PG_P | PG_RW | PG_PS);
                    }
                }
            }
            i = i + 1;
        }
        let mut init_regs: Vec<(X86Reg, u64)> = Vec::new();
        init_regs.push((X86Reg::RIP, entry as u64));
        init_regs.push((X86Reg::RFLAGS, FL_RSVD_1));
        init_regs.push((X86Reg::RSP, stack_top as u64));
        init_regs.push((X86Reg::CR3, paging.start as u64));
        proof {
            assert(init_regs@ =~= seq![
                (X86Reg::RIP, entry as u64),
                (X86Reg::RFLAGS, FL_RSVD_1),
                (X86Reg::RSP, stack_top as u64),
                (X86Reg::CR3, paging.start as u64),
            ]);
        }
        let init_vmcs = crate::vmx::longmode_vmcs_seed(caps);
        Ok(VThread { stack, paging, seed: VcpuSeed { init_regs, init_vmcs } })
    }
}

} // verus!
