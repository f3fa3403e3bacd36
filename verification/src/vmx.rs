//! VMX definitions: VMCS field encodings, exit reasons, execution-control
//! bits, the architectural register set, and the resolution of capability
//! MSRs into concrete control-field values.

use vstd::prelude::*;

verus! {

// VMCS control fields.
pub const VMCS_CTRL_PIN_BASED: u32 = 0x4000;

pub const VMCS_CTRL_CPU_BASED: u32 = 0x4002;

pub const VMCS_CTRL_CPU_BASED2: u32 = 0x401e;

pub const VMCS_CTRL_EXC_BITMAP: u32 = 0x4004;

pub const VMCS_CTRL_VMENTRY_CONTROLS: u32 = 0x4012;

pub const VMCS_CTRL_VMENTRY_IRQ_INFO: u32 = 0x4016;

pub const VMCS_CTRL_VMENTRY_EXC_ERROR: u32 = 0x4018;

pub const VMCS_CTRL_CR0_MASK: u32 = 0x6000;

pub const VMCS_CTRL_CR4_MASK: u32 = 0x6002;

pub const VMCS_CTRL_CR0_SHADOW: u32 = 0x6004;

pub const VMCS_CTRL_CR4_SHADOW: u32 = 0x6006;

// VMCS guest-state fields.
pub const VMCS_GUEST_ES: u32 = 0x800;

pub const VMCS_GUEST_CS: u32 = 0x802;

pub const VMCS_GUEST_SS: u32 = 0x804;

pub const VMCS_GUEST_DS: u32 = 0x806;

pub const VMCS_GUEST_FS: u32 = 0x808;

pub const VMCS_GUEST_GS: u32 = 0x80a;

pub const VMCS_GUEST_LDTR: u32 = 0x80c;

pub const VMCS_GUEST_TR: u32 = 0x80e;

pub const VMCS_GUEST_PHYSICAL_ADDRESS: u32 = 0x2400;

pub const VMCS_GUEST_IA32_EFER: u32 = 0x2806;

pub const VMCS_GUEST_ES_LIMIT: u32 = 0x4800;

pub const VMCS_GUEST_CS_LIMIT: u32 = 0x4802;

pub const VMCS_GUEST_SS_LIMIT: u32 = 0x4804;

pub const VMCS_GUEST_DS_LIMIT: u32 = 0x4806;

pub const VMCS_GUEST_FS_LIMIT: u32 = 0x4808;

pub const VMCS_GUEST_GS_LIMIT: u32 = 0x480a;

pub const VMCS_GUEST_LDTR_LIMIT: u32 = 0x480c;

pub const VMCS_GUEST_TR_LIMIT: u32 = 0x480e;

pub const VMCS_GUEST_GDTR_LIMIT: u32 = 0x4810;

pub const VMCS_GUEST_IDTR_LIMIT: u32 = 0x4812;

pub const VMCS_GUEST_ES_AR: u32 = 0x4814;

pub const VMCS_GUEST_CS_AR: u32 = 0x4816;

pub const VMCS_GUEST_SS_AR: u32 = 0x4818;

pub const VMCS_GUEST_DS_AR: u32 = 0x481a;

pub const VMCS_GUEST_FS_AR: u32 = 0x481c;

pub const VMCS_GUEST_GS_AR: u32 = 0x481e;

pub const VMCS_GUEST_LDTR_AR: u32 = 0x4820;

pub const VMCS_GUEST_TR_AR: u32 = 0x4822;

/// Guest interruptibility state (sti / mov-ss blocking bits).
pub const VMCS_GUEST_IGNORE_IRQ: u32 = 0x4824;

pub const VMCS_GUEST_ES_BASE: u32 = 0x6806;

pub const VMCS_GUEST_CS_BASE: u32 = 0x6808;

pub const VMCS_GUEST_SS_BASE: u32 = 0x680a;

pub const VMCS_GUEST_DS_BASE: u32 = 0x680c;

pub const VMCS_GUEST_FS_BASE: u32 = 0x680e;

pub const VMCS_GUEST_GS_BASE: u32 = 0x6810;

pub const VMCS_GUEST_LDTR_BASE: u32 = 0x6812;

pub const VMCS_GUEST_TR_BASE: u32 = 0x6814;

pub const VMCS_GUEST_GDTR_BASE: u32 = 0x6816;

pub const VMCS_GUEST_IDTR_BASE: u32 = 0x6818;

pub const VMCS_GUEST_CR0: u32 = 0x6800;

pub const VMCS_GUEST_CR3: u32 = 0x6802;

pub const VMCS_GUEST_CR4: u32 = 0x6804;

pub const VMCS_GUEST_RIP: u32 = 0x681e;

// VMCS read-only fields.
pub const VMCS_RO_EXIT_REASON: u32 = 0x4402;

pub const VMCS_RO_VMEXIT_INSTR_LEN: u32 = 0x440c;

pub const VMCS_RO_EXIT_QUALIFIC: u32 = 0x6400;

pub const VMCS_RO_GUEST_LIN_ADDR: u32 = 0x640a;

// Basic vm-exit reasons.
pub const VMX_REASON_IRQ: u64 = 1;

pub const VMX_REASON_IRQ_WND: u64 = 7;

pub const VMX_REASON_CPUID: u64 = 10;

pub const VMX_REASON_HLT: u64 = 12;

pub const VMX_REASON_MOV_CR: u64 = 28;

pub const VMX_REASON_IO: u64 = 30;

pub const VMX_REASON_RDMSR: u64 = 31;

pub const VMX_REASON_WRMSR: u64 = 32;

pub const VMX_REASON_MTF: u64 = 37;

pub const VMX_REASON_EPT_VIOLATION: u64 = 48;

pub const VMX_REASON_VMX_TIMER_EXPIRED: u64 = 52;

// Primary processor-based execution controls.
pub const CPU_BASED_IRQ_WND: u64 = 0x4;

pub const CPU_BASED_HLT: u64 = 0x80;

pub const CPU_BASED_CR8_LOAD: u64 = 0x80000;

pub const CPU_BASED_CR8_STORE: u64 = 0x100000;

// Secondary processor-based execution controls.
pub const CPU_BASED2_RDTSCP: u64 = 0x8;

pub const CPU_BASED2_INVPCID: u64 = 0x1000;

pub const CPU_BASED2_XSAVES_XRSTORS: u64 = 0x100000;

// VM-entry controls.
pub const VMENTRY_GUEST_IA32E: u64 = 0x200;

/// An x86 architectural register, as the host primitive names them.
#[allow(non_camel_case_types)]
#[derive(Debug, Clone, Copy, Eq, PartialEq, Hash, Structural)]
pub enum X86Reg {
    RIP,
    RFLAGS,
    RAX,
    RCX,
    RDX,
    RBX,
    RSI,
    RDI,
    RSP,
    RBP,
    R8,
    R9,
    R10,
    R11,
    R12,
    R13,
    R14,
    R15,
    CS,
    SS,
    DS,
    ES,
    FS,
    GS,
    IDT_BASE,
    IDT_LIMIT,
    GDT_BASE,
    GDT_LIMIT,
    LDTR,
    LDT_BASE,
    LDT_LIMIT,
    LDT_AR,
    TR,
    TSS_BASE,
    TSS_LIMIT,
    TSS_AR,
    CR0,
    CR1,
    CR2,
    CR3,
    CR4,
    DR0,
    DR1,
    DR2,
    DR3,
    DR4,
    DR5,
    DR6,
    DR7,
    TPR,
    XCR0,
}

/// A VMX capability MSR the host primitive can be asked for.
#[derive(Clone, Copy, Debug, PartialEq, Eq, Structural)]
pub enum VMXCap {
    /// Pin-based controls.
    Pin,
    /// Primary processor-based controls.
    CPU,
    /// Secondary processor-based controls.
    CPU2,
    /// VM-entry controls.
    Entry,
    /// VM-exit controls.
    Exit,
    /// Preemption-timer frequency.
    PreemptionTimer,
}

/// A capability MSR is well formed when every must-be-one bit (low half)
/// is also a may-be-one bit (high half).
pub open spec fn cap_wf(cap: u64) -> bool {
    (cap & 0xffffffff) & !(cap >> 32) == 0
}

/// Resolves a capability MSR into a concrete execution-control value.
///
/// The low 32 bits of `cap` are the bits the host forces to one, the high
/// 32 bits the bits it allows to be one.  `one_setting` asks for extra
/// bits, `zero_setting` forbids bits.  The result honours both: every bit
/// of the result is allowed by the capability, every requested one-bit and
/// every forced bit is set, and no forbidden bit is forced.
pub fn gen_exec_ctrl(cap: u64, one_setting: u64, zero_setting: u64) -> (r: u64)
    requires
        one_setting & zero_setting == 0,
        one_setting & !(cap >> 32) == 0,
        (cap & 0xffffffff) & zero_setting == 0,
    ensures
        r == one_setting | (cap & 0xffffffff),
        cap_wf(cap) ==> r & !(cap >> 32) == 0,
        r & (cap & 0xffffffff) == cap & 0xffffffff,
        r & zero_setting == 0,
        r & one_setting == one_setting,
{
    let low: u64 = cap & 0xffffffff;
    let r: u64 = one_setting | low;
    proof {
        lemma_gen_exec_ctrl(cap, one_setting, zero_setting);
    }
    r
}

/// The control value `gen_exec_ctrl` returns stays inside the capability:
/// for a well-formed `cap` and any `one` and `zero` with `one & zero == 0`
/// that the capability admits, `(one | (cap & 0xffffffff))` has no bit
/// outside `cap >> 32`, and agrees with the must-be-one bits outside
/// `zero`.
pub proof fn lemma_gen_exec_ctrl(cap: u64, one_setting: u64, zero_setting: u64)
    requires
        one_setting & zero_setting == 0,
        one_setting & !(cap >> 32) == 0,
        (cap & 0xffffffff) & zero_setting == 0,
    ensures
        cap_wf(cap) ==> (one_setting | (cap & 0xffffffff)) & !(cap >> 32) == 0,
        (one_setting | (cap & 0xffffffff)) & (cap & 0xffffffff) == cap & 0xffffffff,
        (one_setting | (cap & 0xffffffff)) & zero_setting == 0,
        (one_setting | (cap & 0xffffffff)) & one_setting == one_setting,
{
    assert(((cap & 0xffffffff) & !(cap >> 32) == 0 ==> (one_setting | (cap & 0xffffffff)) & !(cap
        >> 32) == 0) && (one_setting | (cap & 0xffffffff)) & (cap & 0xffffffff) == cap & 0xffffffff
        && (one_setting | (cap & 0xffffffff)) & zero_setting == 0 && (one_setting | (cap
        & 0xffffffff)) & one_setting == one_setting) by (bit_vector)
        requires
            one_setting & zero_setting == 0 && one_setting & !(cap >> 32) == 0 && (cap & 0xffffffff)
                & zero_setting == 0,
    ;
}

/// The older form of capability resolution: force the must-be-one bits in
/// and mask everything by the may-be-one bits.
pub fn cap2ctrl(cap: u64, ctrl: u64) -> (r: u64)
    ensures
        r == (ctrl | (cap & 0xffffffff)) & (cap >> 32),
        r & !(cap >> 32) == 0,
{
    let r: u64 = (ctrl | (cap & 0xffffffff)) & (cap >> 32);
    proof {
        assert(r & !(cap >> 32) == 0) by (bit_vector)
            requires
                r == (ctrl | (cap & 0xffffffff)) & (cap >> 32),
        ;
    }
    r
}


/// The four VMX capability MSR values the seeds are resolved against.
#[derive(Debug, Clone, Copy)]
pub struct VmxCapSet {
    pub pin: u64,
    pub cpu: u64,
    pub cpu2: u64,
    pub entry: u64,
}

/// The initial architectural registers and VMCS fields of a vCPU, as
/// (register, value) and (field, value) pairs, ready for the host
/// primitive to write before the first entry.
pub struct VcpuSeed {
    pub init_regs: Vec<(X86Reg, u64)>,
    pub init_vmcs: Vec<(u32, u64)>,
}

/// `x & 0 == 0` and `0 & x == 0`, which the default solver does not
/// know of the bitwise operators.
pub(crate) proof fn lemma_and_zero()
    by (bit_vector)
    ensures
        forall|x: u64| #[trigger] (x & 0u64) == 0,
        forall|x: u64| #[trigger] (0u64 & x) == 0,
        forall|x: u64| #[trigger] (x | 0u64) == x,
        forall|x: u64| #[trigger] (0u64 | x) == x,
{
}

/// The MSRs a long-mode guest reads and writes natively, without a
/// vm-exit.
pub fn passthrough_msrs() -> (r: Vec<u32>)
    ensures
        r@ == seq![
            crate::msr::MSR_STAR,
            crate::msr::MSR_LSTAR,
            crate::msr::MSR_CSTAR,
            crate::msr::MSR_SYSCALL_MASK,
            crate::msr::MSR_KERNEL_GS_BASE,
            crate::msr::MSR_GS_BASE,
            crate::msr::MSR_FS_BASE,
            crate::msr::MSR_IA32_SYSENTER_CS,
            crate::msr::MSR_IA32_SYSENTER_ESP,
            crate::msr::MSR_IA32_SYSENTER_EIP,
            crate::msr::MSR_IA32_TSC,
            crate::msr::MSR_TSC_AUX,
        ],
{
    let mut r: Vec<u32> = Vec::new();
    r.push(crate::msr::MSR_STAR);
    r.push(crate::msr::MSR_LSTAR);
    r.push(crate::msr::MSR_CSTAR);
    r.push(crate::msr::MSR_SYSCALL_MASK);
    r.push(crate::msr::MSR_KERNEL_GS_BASE);
    r.push(crate::msr::MSR_GS_BASE);
    r.push(crate::msr::MSR_FS_BASE);
    r.push(crate::msr::MSR_IA32_SYSENTER_CS);
    r.push(crate::msr::MSR_IA32_SYSENTER_ESP);
    r.push(crate::msr::MSR_IA32_SYSENTER_EIP);
    r.push(crate::msr::MSR_IA32_TSC);
    r.push(crate::msr::MSR_TSC_AUX);
    proof {
        assert(r@ =~= seq![
            crate::msr::MSR_STAR,
            crate::msr::MSR_LSTAR,
            crate::msr::MSR_CSTAR,
            crate::msr::MSR_SYSCALL_MASK,
            crate::msr::MSR_KERNEL_GS_BASE,
            crate::msr::MSR_GS_BASE,
            crate::msr::MSR_FS_BASE,
            crate::msr::MSR_IA32_SYSENTER_CS,
            crate::msr::MSR_IA32_SYSENTER_ESP,
            crate::msr::MSR_IA32_SYSENTER_EIP,
            crate::msr::MSR_IA32_TSC,
            crate::msr::MSR_TSC_AUX,
        ]);
    }
    r
}

/// The exception bitmap that traps every vector except #BP and #PF.
pub const EXC_BITMAP_ALL_BUT_BP_PF: u64 = 0xffffffff & !0x4000 & !0x8;

/// The VMCS seed for direct long-mode entry: flat 64-bit segments, the
/// execution controls resolved against `caps`, CR0 `{NE, ET, PE, PG}`,
/// CR4 `{VMXE, OSFXSR, OSXSAVE, PAE}`, and EFER `{LMA, LME}`.
pub fn longmode_vmcs_seed(caps: &VmxCapSet) -> (r: Vec<(u32, u64)>)
    requires
        (CPU_BASED_HLT | CPU_BASED_CR8_LOAD | CPU_BASED_CR8_STORE) & !(caps.cpu >> 32) == 0,
        CPU_BASED2_RDTSCP & !(caps.cpu2 >> 32) == 0,
        VMENTRY_GUEST_IA32E & !(caps.entry >> 32) == 0,
    ensures
        r@ == spec_longmode_vmcs_seed(*caps),
{
    proof {
        lemma_and_zero();
    }
    let ctrl_pin = gen_exec_ctrl(caps.pin, 0, 0);
    let ctrl_cpu = gen_exec_ctrl(
        caps.cpu,
        CPU_BASED_HLT | CPU_BASED_CR8_LOAD | CPU_BASED_CR8_STORE,
        0,
    );
    let ctrl_cpu2 = gen_exec_ctrl(caps.cpu2, CPU_BASED2_RDTSCP, 0);
    let ctrl_entry = gen_exec_ctrl(caps.entry, VMENTRY_GUEST_IA32E, 0);
    let mut r: Vec<(u32, u64)> = Vec::new();
    r.push((VMCS_GUEST_CS, 0x10));
    r.push((VMCS_GUEST_CS_AR, 0xa09b));
    r.push((VMCS_GUEST_CS_LIMIT, 0xffffffff));
    r.push((VMCS_GUEST_CS_BASE, 0));
    r.push((VMCS_GUEST_DS, 0x18));
    r.push((VMCS_GUEST_DS_AR, 0xc093));
    r.push((VMCS_GUEST_DS_LIMIT, 0xffffffff));
    r.push((VMCS_GUEST_DS_BASE, 0));
    r.push((VMCS_GUEST_ES, 0x18));
    r.push((VMCS_GUEST_ES_AR, 0xc093));
    r.push((VMCS_GUEST_ES_LIMIT, 0xffffffff));
    r.push((VMCS_GUEST_ES_BASE, 0));
    r.push((VMCS_GUEST_FS, 0));
    r.push((VMCS_GUEST_FS_AR, 0x93));
    r.push((VMCS_GUEST_FS_LIMIT, 0xffff));
    r.push((VMCS_GUEST_FS_BASE, 0));
    r.push((VMCS_GUEST_GS, 0));
    r.push((VMCS_GUEST_GS_AR, 0x93));
    r.push((VMCS_GUEST_GS_LIMIT, 0xffff));
    r.push((VMCS_GUEST_GS_BASE, 0));
    r.push((VMCS_GUEST_SS, 0x18));
    r.push((VMCS_GUEST_SS_AR, 0xc093));
    r.push((VMCS_GUEST_SS_LIMIT, 0xffffffff));
    r.push((VMCS_GUEST_SS_BASE, 0));
    r.push((VMCS_GUEST_LDTR, 0));
    r.push((VMCS_GUEST_LDTR_AR, 0x82));
    r.push((VMCS_GUEST_LDTR_LIMIT, 0xffff));
    r.push((VMCS_GUEST_LDTR_BASE, 0));
    r.push((VMCS_GUEST_GDTR_BASE, 0x17));
    r.push((VMCS_GUEST_GDTR_LIMIT, 0xfe0));
    r.push((VMCS_GUEST_TR, 0));
    r.push((VMCS_GUEST_TR_AR, 0x8b));
    r.push((VMCS_GUEST_TR_LIMIT, 0));
    r.push((VMCS_GUEST_TR_BASE, 0));
    r.push((VMCS_GUEST_IDTR_LIMIT, 0));
    r.push((VMCS_GUEST_IDTR_BASE, 0));
    r.push((VMCS_CTRL_PIN_BASED, ctrl_pin));
    r.push((VMCS_CTRL_CPU_BASED, ctrl_cpu));
    r.push((VMCS_CTRL_CPU_BASED2, ctrl_cpu2));
    r.push((VMCS_CTRL_VMENTRY_CONTROLS, ctrl_entry));
    r.push((VMCS_CTRL_EXC_BITMAP, EXC_BITMAP_ALL_BUT_BP_PF));
    r.push((VMCS_GUEST_CR0, 0x80000031));
    r.push((VMCS_CTRL_CR0_MASK, 0x80000001));
    r.push((VMCS_CTRL_CR0_SHADOW, 0x80000001));
    r.push((VMCS_GUEST_CR4, 0x42220));
    r.push((VMCS_CTRL_CR4_MASK, 0x2000));
    r.push((VMCS_CTRL_CR4_SHADOW, 0));
    r.push((VMCS_GUEST_IA32_EFER, 0x500));
    proof {
        assert(r@ =~= spec_longmode_vmcs_seed(*caps));
    }
    r
}

/// The exact long-mode VMCS seed for a given capability set.
pub open spec fn spec_longmode_vmcs_seed(caps: VmxCapSet) -> Seq<(u32, u64)> {
    seq![
        (VMCS_GUEST_CS, 0x10u64),
        (VMCS_GUEST_CS_AR, 0xa09bu64),
        (VMCS_GUEST_CS_LIMIT, 0xffffffffu64),
        (VMCS_GUEST_CS_BASE, 0u64),
        (VMCS_GUEST_DS, 0x18u64),
        (VMCS_GUEST_DS_AR, 0xc093u64),
        (VMCS_GUEST_DS_LIMIT, 0xffffffffu64),
        (VMCS_GUEST_DS_BASE, 0u64),
        (VMCS_GUEST_ES, 0x18u64),
        (VMCS_GUEST_ES_AR, 0xc093u64),
        (VMCS_GUEST_ES_LIMIT, 0xffffffffu64),
        (VMCS_GUEST_ES_BASE, 0u64),
        (VMCS_GUEST_FS, 0u64),
        (VMCS_GUEST_FS_AR, 0x93u64),
        (VMCS_GUEST_FS_LIMIT, 0xffffu64),
        (VMCS_GUEST_FS_BASE, 0u64),
        (VMCS_GUEST_GS, 0u64),
        (VMCS_GUEST_GS_AR, 0x93u64),
        (VMCS_GUEST_GS_LIMIT, 0xffffu64),
        (VMCS_GUEST_GS_BASE, 0u64),
        (VMCS_GUEST_SS, 0x18u64),
        (VMCS_GUEST_SS_AR, 0xc093u64),
        (VMCS_GUEST_SS_LIMIT, 0xffffffffu64),
        (VMCS_GUEST_SS_BASE, 0u64),
        (VMCS_GUEST_LDTR, 0u64),
        (VMCS_GUEST_LDTR_AR, 0x82u64),
        (VMCS_GUEST_LDTR_LIMIT, 0xffffu64),
        (VMCS_GUEST_LDTR_BASE, 0u64),
        (VMCS_GUEST_GDTR_BASE, 0x17u64),
        (VMCS_GUEST_GDTR_LIMIT, 0xfe0u64),
        (VMCS_GUEST_TR, 0u64),
        (VMCS_GUEST_TR_AR, 0x8bu64),
        (VMCS_GUEST_TR_LIMIT, 0u64),
        (VMCS_GUEST_TR_BASE, 0u64),
        (VMCS_GUEST_IDTR_LIMIT, 0u64),
        (VMCS_GUEST_IDTR_BASE, 0u64),
        (VMCS_CTRL_PIN_BASED, (caps.pin & 0xffffffff) as u64),
        (
            VMCS_CTRL_CPU_BASED,
            ((CPU_BASED_HLT | CPU_BASED_CR8_LOAD | CPU_BASED_CR8_STORE) | (caps.cpu
                & 0xffffffff)) as u64,
        ),
        (VMCS_CTRL_CPU_BASED2, (CPU_BASED2_RDTSCP | (caps.cpu2 & 0xffffffff)) as u64),
        (VMCS_CTRL_VMENTRY_CONTROLS, (VMENTRY_GUEST_IA32E | (caps.entry & 0xffffffff)) as u64),
        (VMCS_CTRL_EXC_BITMAP, EXC_BITMAP_ALL_BUT_BP_PF as u64),
        (VMCS_GUEST_CR0, 0x80000031u64),
        (VMCS_CTRL_CR0_MASK, 0x80000001u64),
        (VMCS_CTRL_CR0_SHADOW, 0x80000001u64),
        (VMCS_GUEST_CR4, 0x42220u64),
        (VMCS_CTRL_CR4_MASK, 0x2000u64),
        (VMCS_CTRL_CR4_SHADOW, 0u64),
        (VMCS_GUEST_IA32_EFER, 0x500u64),
    ]
}

} // verus!
