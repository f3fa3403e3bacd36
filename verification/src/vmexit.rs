//! The pure decision logic of the vm-exit dispatcher: register numbering,
//! exit-qualification fields, CPUID adjustment, control-register and MSR
//! handling, I/O-port routing, EPT-fault classification, and the guest
//! page walk used to fetch instruction bytes.
//!
//! The embedding run loop reads guest state from the host primitive,
//! calls these functions, and writes their answers back.

use vstd::prelude::*;

use crate::err::Error;
use crate::mach::le64_at;
use crate::mach::MachVMBlock;
use crate::virtq::AddressConverter;
use crate::vmx::X86Reg;
use crate::x86::CPUID_HV;
use crate::x86::CPUID_MONITOR;
use crate::x86::CPUID_OSXSAVE;
use crate::x86::CPUID_PDCM;
use crate::x86::CPUID_TSC_ADJUST;
use crate::x86::CPUID_TSC_DL;
use crate::x86::CPUID_VMX;
use crate::x86::CPUID_XSAVE;
use crate::x86::EFER_LMA;
use crate::x86::EFER_LME;
use crate::x86::PG_P;
use crate::x86::PG_PS;
use crate::x86::X86_CR0_NE;
use crate::x86::X86_CR0_PE;
use crate::x86::X86_CR0_PG;
use crate::x86::X86_CR4_OSXSAVE;
use crate::x86::X86_CR4_PAE;
use crate::x86::X86_CR4_VMXE;
use crate::MsrPolicy;
use crate::PortPolicy;

verus! {

/// What the run loop does after a handler returns: leave the loop,
/// re-enter the guest at the same instruction, or advance past it.
#[derive(Debug, Eq, PartialEq, Structural, Clone, Copy)]
pub enum HandleResult {
    Exit,
    Resume,
    Next,
}

/// The register a VMX exit qualification names (Intel SDM table 27-3).
pub fn vmx_guest_reg(num: u64) -> (r: X86Reg)
    requires
        num <= 15,
    ensures
        r == spec_vmx_guest_reg(num),
{
    if num == 0 {
        X86Reg::RAX
    } else if num == 1 {
        X86Reg::RCX
    } else if num == 2 {
        X86Reg::RDX
    } else if num == 3 {
        X86Reg::RBX
    } else if num == 4 {
        X86Reg::RSP
    } else if num == 5 {
        X86Reg::RBP
    } else if num == 6 {
        X86Reg::RSI
    } else if num == 7 {
        X86Reg::RDI
    } else if num == 8 {
        X86Reg::R8
    } else if num == 9 {
        X86Reg::R9
    } else if num == 10 {
        X86Reg::R10
    } else if num == 11 {
        X86Reg::R11
    } else if num == 12 {
        X86Reg::R12
    } else if num == 13 {
        X86Reg::R13
    } else if num == 14 {
        X86Reg::R14
    } else {
        X86Reg::R15
    }
}

pub open spec fn spec_vmx_guest_reg(num: u64) -> X86Reg {
    if num == 0 {
        X86Reg::RAX
    } else if num == 1 {
        X86Reg::RCX
    } else if num == 2 {
        X86Reg::RDX
    } else if num == 3 {
        X86Reg::RBX
    } else if num == 4 {
        X86Reg::RSP
    } else if num == 5 {
        X86Reg::RBP
    } else if num == 6 {
        X86Reg::RSI
    } else if num == 7 {
        X86Reg::RDI
    } else if num == 8 {
        X86Reg::R8
    } else if num == 9 {
        X86Reg::R9
    } else if num == 10 {
        X86Reg::R10
    } else if num == 11 {
        X86Reg::R11
    } else if num == 12 {
        X86Reg::R12
    } else if num == 13 {
        X86Reg::R13
    } else if num == 14 {
        X86Reg::R14
    } else {
        X86Reg::R15
    }
}

/// Only the low 48 bits of a physical address take part in the walk.
pub const ADDR_MASK: u64 = 0xffffffffffff;

/// Page-table index of a linear address.
pub fn pt_index(addr: u64) -> (r: u64)
    ensures
        r == (addr >> 12) & 0x1ff,
        r < 512,
{
    proof {
        assert((addr >> 12) & 0x1ff < 512) by (bit_vector);
    }
    (addr >> 12) & 0x1ff
}

/// Page-directory index of a linear address.
pub fn pd_index(addr: u64) -> (r: u64)
    ensures
        r == (addr >> 21) & 0x1ff,
        r < 512,
{
    proof {
        assert((addr >> 21) & 0x1ff < 512) by (bit_vector);
    }
    (addr >> 21) & 0x1ff
}

/// Page-directory-pointer index of a linear address.
pub fn pdpt_index(addr: u64) -> (r: u64)
    ensures
        r == (addr >> 30) & 0x1ff,
        r < 512,
{
    proof {
        assert((addr >> 30) & 0x1ff < 512) by (bit_vector);
    }
    (addr >> 30) & 0x1ff
}

/// Page-map-level-4 index of a linear address.
pub fn pml4_index(addr: u64) -> (r: u64)
    ensures
        r == (addr >> 39) & 0x1ff,
        r < 512,
{
    proof {
        assert((addr >> 39) & 0x1ff < 512) by (bit_vector);
    }
    (addr >> 39) & 0x1ff
}

/// An I/O-exit qualification (Intel SDM table 27-5).
pub struct ExitQualIO(pub u64);

impl ExitQualIO {
    /// The access width in bytes (1, 2 or 4).
    pub fn size(&self) -> (r: u8)
        ensures
            r == (self.0 & 7) + 1,
            1 <= r <= 8,
    {
        let q = self.0;
        proof {
            assert((q & 7) < 8) by (bit_vector);
        }
        ((q & 7) + 1) as u8
    }

    /// Whether the access is an `in` (guest read).
    pub fn is_in(&self) -> (r: bool)
        ensures
            r == ((self.0 >> 3) & 1 == 1),
    {
        (self.0 >> 3) & 1 == 1
    }

    /// The port accessed.
    pub fn port(&self) -> (r: u16)
        ensures
            r == ((self.0 >> 16) & 0xffff) as u16,
    {
        let q = self.0;
        proof {
            assert((q >> 16) & 0xffff <= 0xffff) by (bit_vector);
        }
        ((q >> 16) & 0xffff) as u16
    }
}

/// The qualification is for a valid linear-address fault.
pub fn ept_valid(qual: u64) -> (r: bool)
    ensures
        r == (qual & 0x80 > 0),
{
    qual & 0x80 > 0
}

/// The fault was a data read.
pub fn ept_read(qual: u64) -> (r: bool)
    ensures
        r == (qual & 1 > 0),
{
    qual & 1 > 0
}

/// The fault was a data write.
pub fn ept_write(qual: u64) -> (r: bool)
    ensures
        r == (qual & 2 > 0),
{
    qual & 2 > 0
}

/// The fault was an instruction fetch.
pub fn ept_instr_fetch(qual: u64) -> (r: bool)
    ensures
        r == (qual & 4 > 0),
{
    qual & 4 > 0
}

/// The fault happened during the guest's own page walk.
pub fn ept_page_walk(qual: u64) -> (r: bool)
    ensures
        r == (qual & 0x80 > 0 && qual & 0x100 == 0),
{
    qual & 0x80 > 0 && qual & 0x100 == 0
}

/// A plain-words description of an EPT qualification, for diagnostics.
pub fn ept_qual_description(qual: u64) -> (r: String)
    ensures
        r@.len() > 0,
{
    let mut s = String::new();
    s.append("ept fault:");
    if ept_read(qual) {
        s.append(" read");
    }
    if ept_write(qual) {
        s.append(" write");
    }
    if ept_instr_fetch(qual) {
        s.append(" instruction-fetch");
    }
    if ept_valid(qual) {
        s.append(" valid");
    }
    if ept_page_walk(qual) {
        s.append(" page-walk");
    }
    let r = s;
    proof {
        assert(r@.len() >= "ept fault:"@.len());
        assert("ept fault:"@.len() == 10) by {
            reveal_strlit("ept fault:");
        }
    }
    r
}

/// The two VMCS writes that inject an exception: the entry-interruption
/// field, and the error code when the exception pushes one.
pub fn inject_exception(vector: u8, exception_type: u8, code: Option<u32>) -> (r: Vec<(u32, u64)>)
    ensures
        match code {
            Some(c) => r@ == seq![
                (crate::vmx::VMCS_CTRL_VMENTRY_EXC_ERROR, c as u64),
                (
                    crate::vmx::VMCS_CTRL_VMENTRY_IRQ_INFO,
                    (0x80000000u64 | vector as u64 | (exception_type as u64) << 8 | 0x800u64),
                ),
            ],
            None => r@ == seq![
                (
                    crate::vmx::VMCS_CTRL_VMENTRY_IRQ_INFO,
                    (0x80000000u64 | vector as u64 | (exception_type as u64) << 8),
                ),
            ],
        },
{
    let mut r: Vec<(u32, u64)> = Vec::new();
    match code {
        Some(c) => {
            r.push((crate::vmx::VMCS_CTRL_VMENTRY_EXC_ERROR, c as u64));
            r.push(
                (
                    crate::vmx::VMCS_CTRL_VMENTRY_IRQ_INFO,
                    0x80000000u64 | vector as u64 | (exception_type as u64) << 8 | 0x800u64,
                ),
            );
            proof {
                assert(r@ =~= seq![
                    (crate::vmx::VMCS_CTRL_VMENTRY_EXC_ERROR, c as u64),
                    (
                        crate::vmx::VMCS_CTRL_VMENTRY_IRQ_INFO,
                        (0x80000000u64 | vector as u64 | (exception_type as u64) << 8
                            | 0x800u64),
                    ),
                ]);
            }
        },
        None => {
            r.push(
                (
                    crate::vmx::VMCS_CTRL_VMENTRY_IRQ_INFO,
                    0x80000000u64 | vector as u64 | (exception_type as u64) << 8,
                ),
            );
            proof {
                assert(r@ =~= seq![
                    (
                        crate::vmx::VMCS_CTRL_VMENTRY_IRQ_INFO,
                        (0x80000000u64 | vector as u64 | (exception_type as u64) << 8),
                    ),
                ]);
            }
        },
    }
    r
}

/// Splits an MSR value into the EAX and EDX halves `rdmsr` returns.
pub fn write_msr_to_reg(msr_value: u64) -> (r: (u64, u64))
    ensures
        r.0 == msr_value & 0xffffffff,
        r.1 == msr_value >> 32,
{
    (msr_value & 0xffffffff, msr_value >> 32)
}

/// The IA32_MISC_ENABLE value the hypervisor reports: fast strings
/// enabled, PEBS and BTS unavailable.
pub fn emsr_miscenable() -> (r: u64)
    ensures
        r == 0x1801,
{
    proof {
        assert(1u64 | 0x1000 | 0x800 == 0x1801) by (bit_vector);
    }
    1u64 | 0x1000 | 0x800
}

/// The CPUID adjustment of the hypervisor (host values in, guest values
/// out): leaf 1 carries the vCPU topology and the hypervisor bit and
/// hides MONITOR, VMX, PDCM and the TSC-deadline timer; leaf 7 hides
/// TSC_ADJUST; leaves 10 and (without XSAVES) 13 vanish; the hypervisor
/// leaf reports itself.
pub fn handle_cpuid(eax_in: u32, ecx_in: u32, host: (u32, u32, u32, u32), cores: u32, id: u32,
    cr4: u64, xsaves_avail: bool) -> (r: (u32, u32, u32, u32))
    ensures
        r == spec_handle_cpuid(eax_in, ecx_in, host, cores, id, cr4, xsaves_avail),
{
    let (mut eax, mut ebx, mut ecx, mut edx) = host;
    if eax_in == 1 {
        ebx = ebx & 0x0000ffff;
        ebx = ebx | (cores & 0xff) << 16;
        ebx = ebx | (id & 0xff) << 24;
        ecx = ecx | CPUID_HV;
        ecx = ecx & !(CPUID_MONITOR | CPUID_VMX | CPUID_PDCM | CPUID_TSC_DL);
        if ecx & CPUID_XSAVE == 0 || cr4 & X86_CR4_OSXSAVE == 0 {
            ecx = ecx & !CPUID_OSXSAVE;
        } else {
            ecx = ecx | CPUID_OSXSAVE;
        }
    } else if eax_in == 7 {
        ebx = ebx & !CPUID_TSC_ADJUST;
    } else if eax_in == 0xa {
        eax = 0;
        ebx = 0;
        ecx = 0;
        edx = 0;
    } else if eax_in == 0xd {
        if !xsaves_avail {
            eax = 0;
            ebx = 0;
            ecx = 0;
            edx = 0;
        }
    } else if eax_in == 0x40000000 {
        eax = 0x40000000;
    }
    (eax, ebx, ecx, edx)
}

pub open spec fn spec_handle_cpuid(eax_in: u32, ecx_in: u32, host: (u32, u32, u32, u32),
    cores: u32, id: u32, cr4: u64, xsaves_avail: bool) -> (u32, u32, u32, u32) {
    let (eax, ebx, ecx, edx) = host;
    if eax_in == 1 {
        let ebx1 = ((ebx & 0x0000ffff) | ((cores & 0xff) << 16)) as u32 | ((id & 0xff) << 24)
            as u32;
        let ecx1 = ((ecx | CPUID_HV) & !(CPUID_MONITOR | CPUID_VMX | CPUID_PDCM
            | CPUID_TSC_DL)) as u32;
        let ecx2 = if ecx1 & CPUID_XSAVE == 0 || cr4 & X86_CR4_OSXSAVE == 0 {
            (ecx1 & !CPUID_OSXSAVE) as u32
        } else {
            (ecx1 | CPUID_OSXSAVE) as u32
        };
        (eax, ebx1, ecx2, edx)
    } else if eax_in == 7 {
        (eax, (ebx & !CPUID_TSC_ADJUST) as u32, ecx, edx)
    } else if eax_in == 0xa {
        (0u32, 0u32, 0u32, 0u32)
    } else if eax_in == 0xd {
        if !xsaves_avail {
            (0u32, 0u32, 0u32, 0u32)
        } else {
            host
        }
    } else if eax_in == 0x40000000 {
        (0x40000000u32, ebx, ecx, edx)
    } else {
        host
    }
}

/// The state the dispatcher writes after a move to CR0, CR3 or CR4.
pub struct CrEffect {
    /// The control register written and its new value.
    pub cr: X86Reg,
    pub value: u64,
    /// The shadow field mirrored, when the register has one.
    pub shadow: Option<(u32, u64)>,
    /// The EFER and entry-controls values after the long-mode
    /// transition check, when they changed.
    pub efer: Option<u64>,
    pub ctrl_entry: Option<u64>,
    /// Whether the TR access rights must be reloaded (set on long-mode
    /// activation).
    pub set_tr_ar: bool,
}

/// Decides a move-to-CR exit.  `qual` is the exit qualification,
/// `src_value` the source register's value, and `cr0`, `cr4`, `efer` and
/// `ctrl_entry` the current guest state -- with `cr0` and `cr4` taken
/// after the write being decided.  Only moves to CR0, CR3 and CR4 are
/// implemented; the long-mode bit of EFER follows `{PE, PG, PAE, LME}`.
pub fn handle_cr(qual: u64, src_value: u64, cr0_now: u64, cr4_now: u64, efer: u64,
    ctrl_entry: u64) -> (r: Result<CrEffect, Error>)
    ensures
        ({
            let cr_num = qual & 0xf;
            let access_type = (qual >> 4) & 3;
            &&& (r is Ok <==> (cr_num == 0 || cr_num == 3 || cr_num == 4) && access_type == 0)
            &&& r is Ok ==> ({
                let e = r->Ok_0;
                &&& (cr_num == 0 ==> e.cr == X86Reg::CR0 && e.value == src_value | X86_CR0_NE
                    && e.shadow == Some((crate::vmx::VMCS_CTRL_CR0_SHADOW, src_value
                    | X86_CR0_NE)))
                &&& (cr_num == 3 ==> e.cr == X86Reg::CR3 && e.value == src_value && e.shadow
                    is None && e.efer is None)
                &&& (cr_num == 4 ==> e.cr == X86Reg::CR4 && e.value == src_value | X86_CR4_VMXE
                    && e.shadow == Some(
                    (crate::vmx::VMCS_CTRL_CR4_SHADOW, (src_value | X86_CR4_VMXE)
                        & !X86_CR4_VMXE),
                ))
                &&& ((cr_num == 0 || cr_num == 4) ==> ({
                    let long_mode = cr0_now & X86_CR0_PE != 0 && cr0_now & X86_CR0_PG != 0
                        && cr4_now & X86_CR4_PAE != 0 && efer & EFER_LME != 0;
                    if long_mode && efer & EFER_LMA == 0 {
                        e.efer == Some(efer | EFER_LMA) && e.ctrl_entry == Some(
                            ctrl_entry | crate::vmx::VMENTRY_GUEST_IA32E,
                        ) && e.set_tr_ar
                    } else if !long_mode && efer & EFER_LMA != 0 {
                        e.efer == Some(efer & !EFER_LMA) && e.ctrl_entry == Some(
                            ctrl_entry & !crate::vmx::VMENTRY_GUEST_IA32E,
                        ) && !e.set_tr_ar
                    } else {
                        e.efer is None && e.ctrl_entry is None && !e.set_tr_ar
                    }
                }))
            })
        }),
{
    let cr_num = qual & 0xf;
    let access_type = (qual >> 4) & 3;
    if access_type != 0 {
        return Err(
            Error::Unhandled(
                crate::vmx::VMX_REASON_MOV_CR,
                "only move-to-CR accesses are implemented".to_owned(),
            ),
        );
    }
    if cr_num == 3 {
        return Ok(
            CrEffect {
                cr: X86Reg::CR3,
                value: src_value,
                shadow: None,
                efer: None,
                ctrl_entry: None,
                set_tr_ar: false,
            },
        );
    }
    if cr_num != 0 && cr_num != 4 {
        return Err(
            Error::Unhandled(
                crate::vmx::VMX_REASON_MOV_CR,
                "only CR0, CR3 and CR4 moves are implemented".to_owned(),
            ),
        );
    }
    let (cr, value, shadow) = if cr_num == 0 {
        let v = src_value | X86_CR0_NE;
        (X86Reg::CR0, v, Some((crate::vmx::VMCS_CTRL_CR0_SHADOW, v)))
    } else {
        let v = src_value | X86_CR4_VMXE;
        (X86Reg::CR4, v, Some((crate::vmx::VMCS_CTRL_CR4_SHADOW, v & !X86_CR4_VMXE)))
    };
    let long_mode = cr0_now & X86_CR0_PE != 0 && cr0_now & X86_CR0_PG != 0 && cr4_now
        & X86_CR4_PAE != 0 && efer & EFER_LME != 0;
    let (efer_out, entry_out, set_tr_ar) = if long_mode && efer & EFER_LMA == 0 {
        (
            Some(efer | EFER_LMA),
            Some(ctrl_entry | crate::vmx::VMENTRY_GUEST_IA32E),
            true,
        )
    } else if !long_mode && efer & EFER_LMA != 0 {
        (
            Some(efer & !EFER_LMA),
            Some(ctrl_entry & !crate::vmx::VMENTRY_GUEST_IA32E),
            false,
        )
    } else {
        (None, None, false)
    };
    Ok(CrEffect { cr, value, shadow, efer: efer_out, ctrl_entry: entry_out, set_tr_ar })
}

/// Everything the run loop must do after one MSR access: the value a
/// read hands back through EAX:EDX, the fields a write updates, whether
/// a general-protection fault goes in instead, and how to continue.
pub struct MsrOutcome {
    /// The value a read returns; `None` for writes and faults.
    pub read_back: Option<u64>,
    /// A new value for the guest's EFER in the VMCS.
    pub efer_write: Option<u64>,
    /// A new value for the per-guest PAT register.
    pub pat_write: Option<u64>,
    /// A new value for the APIC base MSR (stored without relocating the
    /// APIC page).
    pub apic_base_write: Option<u64>,
    /// Inject #GP(0) instead of completing the access.
    pub inject_gp: bool,
    pub result: HandleResult,
}

/// Decides one MSR access (Intel SDM and this hypervisor's policy):
/// EFER lives in the VMCS; IA32_MISC_ENABLE is the fixed value
/// `emsr_miscenable` and a store of anything else is an error;
/// IA32_BIOS_SIGN_ID reads zero; IA32_CR_PAT is the per-guest field;
/// IA32_APIC_BASE is stored verbatim; anything else follows the
/// unknown-MSR policy when the policy list covers it and is an error
/// otherwise.
pub fn handle_msr_access(msr: u32, new_value: Option<u64>, efer: u64, pat_msr: u64,
    apic_base: u64, policy: MsrPolicy, covered: bool) -> (r: Result<MsrOutcome, Error>)
    ensures
        ({
            let class = if msr == crate::msr::MSR_EFER {
                MsrClass::Efer
            } else if msr == crate::msr::MSR_IA32_MISC_ENABLE {
                MsrClass::MiscEnable
            } else if msr == crate::msr::MSR_IA32_BIOS_SIGN_ID {
                MsrClass::BiosSignId
            } else if msr == crate::msr::MSR_IA32_CR_PAT {
                MsrClass::Pat
            } else if msr == crate::msr::MSR_IA32_APIC_BASE {
                MsrClass::ApicBase
            } else {
                MsrClass::Unknown
            };
            &&& (r is Ok <==> !(class == MsrClass::MiscEnable && new_value is Some
                && new_value->0 != 0x1801) && !(class == MsrClass::Unknown && !covered))
            &&& r is Ok ==> ({
                let o = r->Ok_0;
                &&& (class == MsrClass::Efer ==> o.read_back == (if new_value is None {
                    Some(efer)
                } else {
                    Option::<u64>::None
                }) && o.efer_write == new_value && !o.inject_gp && o.result
                    == HandleResult::Next)
                &&& (class == MsrClass::MiscEnable ==> o.read_back == (if new_value is None {
                    Some(0x1801u64)
                } else {
                    Option::<u64>::None
                }) && o.efer_write is None && !o.inject_gp && o.result == HandleResult::Next)
                &&& (class == MsrClass::BiosSignId ==> o.read_back == (if new_value is None {
                    Some(0u64)
                } else {
                    Option::<u64>::None
                }) && !o.inject_gp && o.result == HandleResult::Next)
                &&& (class == MsrClass::Pat ==> o.read_back == (if new_value is None {
                    Some(pat_msr)
                } else {
                    Option::<u64>::None
                }) && o.pat_write == new_value && !o.inject_gp && o.result == HandleResult::Next)
                &&& (class == MsrClass::ApicBase ==> o.read_back == (if new_value is None {
                    Some(apic_base)
                } else {
                    Option::<u64>::None
                }) && o.apic_base_write == new_value && !o.inject_gp && o.result
                    == HandleResult::Next)
                &&& (class == MsrClass::Unknown && policy == MsrPolicy::GP ==> o.inject_gp
                    && o.read_back is None && o.result == HandleResult::Resume)
                &&& (class == MsrClass::Unknown && policy == MsrPolicy::AllOne && new_value
                    is None ==> o.read_back == Some(u64::MAX) && !o.inject_gp && o.result
                    == HandleResult::Next)
                &&& (class == MsrClass::Unknown && policy == MsrPolicy::Random && new_value
                    is None ==> o.read_back is Some && !o.inject_gp && o.result
                    == HandleResult::Next)
                &&& (class == MsrClass::Unknown && policy != MsrPolicy::GP && new_value is Some
                    ==> o.read_back is None && !o.inject_gp && o.result == HandleResult::Next)
                &&& (class != MsrClass::Efer ==> o.efer_write is None)
                &&& (class != MsrClass::Pat ==> o.pat_write is None)
                &&& (class != MsrClass::ApicBase ==> o.apic_base_write is None)
            })
        }),
{
    let quiet = MsrOutcome {
        read_back: None,
        efer_write: None,
        pat_write: None,
        apic_base_write: None,
        inject_gp: false,
        result: HandleResult::Next,
    };
    match classify_msr(msr) {
        MsrClass::Efer => {
            match new_value {
                Some(v) => Ok(MsrOutcome { efer_write: Some(v), ..quiet }),
                None => Ok(MsrOutcome { read_back: Some(efer), ..quiet }),
            }
        },
        MsrClass::MiscEnable => {
            match new_value {
                Some(v) => {
                    if v == 0x1801 {
                        Ok(quiet)
                    } else {
                        Err(
                            Error::Unhandled(
                                crate::vmx::VMX_REASON_WRMSR,
                                "a store changed the fixed feature-control image".to_owned(),
                            ),
                        )
                    }
                },
                None => Ok(MsrOutcome { read_back: Some(emsr_miscenable()), ..quiet }),
            }
        },
        MsrClass::BiosSignId => {
            match new_value {
                Some(_) => Ok(quiet),
                None => Ok(MsrOutcome { read_back: Some(0), ..quiet }),
            }
        },
        MsrClass::Pat => {
            match new_value {
                Some(v) => Ok(MsrOutcome { pat_write: Some(v), ..quiet }),
                None => Ok(MsrOutcome { read_back: Some(pat_msr), ..quiet }),
            }
        },
        MsrClass::ApicBase => {
            match new_value {
                Some(v) => Ok(MsrOutcome { apic_base_write: Some(v), ..quiet }),
                None => Ok(MsrOutcome { read_back: Some(apic_base), ..quiet }),
            }
        },
        MsrClass::Unknown => {
            if !covered {
                return Err(
                    Error::Unhandled(
                        if new_value.is_some() {
                            crate::vmx::VMX_REASON_WRMSR
                        } else {
                            crate::vmx::VMX_REASON_RDMSR
                        },
                        "access to a register the policy does not cover".to_owned(),
                    ),
                );
            }
            match msr_apply_policy(policy, new_value.is_some()) {
                PolicyOutcome::InjectGP => Ok(
                    MsrOutcome { inject_gp: true, result: HandleResult::Resume, ..quiet },
                ),
                PolicyOutcome::ReturnValue(v) => Ok(MsrOutcome { read_back: Some(v), ..quiet }),
                PolicyOutcome::AcceptWrite => Ok(quiet),
            }
        },
    }
}

/// Which special handling an MSR number gets.
#[derive(Debug, Clone, Copy, PartialEq, Eq, Structural)]
pub enum MsrClass {
    Efer,
    MiscEnable,
    BiosSignId,
    Pat,
    ApicBase,
    Unknown,
}

/// Routes an MSR number to its handler.
pub fn classify_msr(msr: u32) -> (r: MsrClass)
    ensures
        r == (if msr == crate::msr::MSR_EFER {
            MsrClass::Efer
        } else if msr == crate::msr::MSR_IA32_MISC_ENABLE {
            MsrClass::MiscEnable
        } else if msr == crate::msr::MSR_IA32_BIOS_SIGN_ID {
            MsrClass::BiosSignId
        } else if msr == crate::msr::MSR_IA32_CR_PAT {
            MsrClass::Pat
        } else if msr == crate::msr::MSR_IA32_APIC_BASE {
            MsrClass::ApicBase
        } else {
            MsrClass::Unknown
        }),
{
    if msr == crate::msr::MSR_EFER {
        MsrClass::Efer
    } else if msr == crate::msr::MSR_IA32_MISC_ENABLE {
        MsrClass::MiscEnable
    } else if msr == crate::msr::MSR_IA32_BIOS_SIGN_ID {
        MsrClass::BiosSignId
    } else if msr == crate::msr::MSR_IA32_CR_PAT {
        MsrClass::Pat
    } else if msr == crate::msr::MSR_IA32_APIC_BASE {
        MsrClass::ApicBase
    } else {
        MsrClass::Unknown
    }
}

/// What the dispatcher does with an access a policy covers.
pub enum PolicyOutcome {
    /// Inject #GP(0).
    InjectGP,
    /// Complete a read with this value.
    ReturnValue(u64),
    /// Accept a write and move on.
    AcceptWrite,
}

/// Applies the unknown-MSR policy: `GP` injects a fault; for reads,
/// `AllOne` returns all-ones and `Random` a value from the host's random
/// source; writes under `AllOne` and `Random` are accepted.
pub fn msr_apply_policy(policy: MsrPolicy, is_write: bool) -> (r: PolicyOutcome)
    ensures
        policy == MsrPolicy::GP ==> r is InjectGP,
        policy != MsrPolicy::GP && is_write ==> r is AcceptWrite,
        policy == MsrPolicy::AllOne && !is_write ==> r == PolicyOutcome::ReturnValue(u64::MAX),
        policy == MsrPolicy::Random && !is_write ==> r is ReturnValue,
{
    match policy {
        MsrPolicy::GP => PolicyOutcome::InjectGP,
        MsrPolicy::AllOne => {
            if is_write {
                PolicyOutcome::AcceptWrite
            } else {
                PolicyOutcome::ReturnValue(u64::MAX)
            }
        },
        MsrPolicy::Random => {
            if is_write {
                PolicyOutcome::AcceptWrite
            } else {
                PolicyOutcome::ReturnValue(crate::utils::random_u64())
            }
        },
    }
}

/// Applies the unknown-port policy to a read of `size` bytes: `AllOne`
/// returns all-ones of the access width, `Random` a value from the
/// host's random source.
pub fn port_apply_policy(policy: PortPolicy, size: u8) -> (r: u64)
    requires
        size == 1 || size == 2 || size == 4,
    ensures
        policy == PortPolicy::AllOne && size == 1 ==> r == 0xff,
        policy == PortPolicy::AllOne && size == 2 ==> r == 0xffff,
        policy == PortPolicy::AllOne && size == 4 ==> r == 0xffffffff,
        size == 1 ==> r <= 0xff,
        size == 2 ==> r <= 0xffff,
        size == 4 ==> r <= 0xffffffff,
{
    let raw: u64 = match policy {
        PortPolicy::AllOne => u64::MAX,
        PortPolicy::Random => crate::utils::random_u64(),
    };
    proof {
        assert(0xffffffffffffffffu64 & 0xff == 0xff && 0xffffffffffffffffu64 & 0xffff == 0xffff
            && 0xffffffffffffffffu64 & 0xffffffff == 0xffffffff) by (bit_vector);
        assert(raw & 0xff <= 0xff && raw & 0xffff <= 0xffff && raw & 0xffffffff <= 0xffffffff)
            by (bit_vector);
    }
    if size == 1 {
        raw & 0xff
    } else if size == 2 {
        raw & 0xffff
    } else {
        raw & 0xffffffff
    }
}

/// The device an I/O port belongs to.
#[derive(Debug, Clone, Copy, PartialEq, Eq, Structural)]
pub enum PortTarget {
    RtcReg,
    RtcData,
    /// COM1, with the register offset within the port block.
    Com1(u16),
    PciConfigAddr,
    /// The config-data window, with the byte offset within it.
    PciConfigData(u16),
    Other,
}

/// Routes an I/O port to the device that claims it: the RTC at
/// `0x70`/`0x71`, COM1 at `0x3f8..=0x3ff`, the PCI config-address port at
/// `0xcf8` and its data window at `0xcfc..=0xcff`.
pub fn classify_port(port: u16) -> (r: PortTarget)
    ensures
        r == spec_classify_port(port),
{
    if port == 0x70 {
        PortTarget::RtcReg
    } else if port == 0x71 {
        PortTarget::RtcData
    } else if 0x3f8 <= port && port <= 0x3ff {
        PortTarget::Com1(port - 0x3f8)
    } else if port == 0xcf8 {
        PortTarget::PciConfigAddr
    } else if 0xcfc <= port && port <= 0xcff {
        PortTarget::PciConfigData(port - 0xcfc)
    } else {
        PortTarget::Other
    }
}

pub open spec fn spec_classify_port(port: u16) -> PortTarget {
    if port == 0x70 {
        PortTarget::RtcReg
    } else if port == 0x71 {
        PortTarget::RtcData
    } else if 0x3f8 <= port <= 0x3ff {
        PortTarget::Com1((port - 0x3f8) as u16)
    } else if port == 0xcf8 {
        PortTarget::PciConfigAddr
    } else if 0xcfc <= port <= 0xcff {
        PortTarget::PciConfigData((port - 0xcfc) as u16)
    } else {
        PortTarget::Other
    }
}

/// Aligns a 32-bit config-data value to the byte lane a narrow read
/// named: one-byte reads shift by the low two port bits, two-byte reads
/// by bit one.
pub fn pci_data_shift(v: u32, port: u16, size: u8) -> (r: u32)
    ensures
        size == 1 ==> r == v >> (((port & 3) * 8) as u32),
        size == 2 ==> r == v >> (((port & 2) * 8) as u32),
        !(size == 1 || size == 2) ==> r == v,
{
    proof {
        assert((port & 3) * 8 <= 24 && (port & 2) * 8 <= 16) by (bit_vector);
    }
    if size == 1 {
        let sh = (port & 3) * 8;
        v >> (sh as u32)
    } else if size == 2 {
        let sh = (port & 2) * 8;
        v >> (sh as u32)
    } else {
        v
    }
}

/// The region an EPT-faulting guest physical address falls in.
#[derive(Debug, Clone, Copy, PartialEq, Eq, Structural)]
pub enum EptTarget {
    Apic,
    IoApic,
    /// A virtio-mmio device, by index.
    Virtio(usize),
    Other,
}

/// Classifies an EPT fault address against the APIC page, the I/O APIC
/// page and the virtio-mmio window.
pub fn classify_ept_gpa(gpa: usize, apic_base: usize, virtio_base: usize, virtio_devices:
    usize) -> (r: EptTarget)
    requires
        virtio_base + virtio_devices * 4096 <= usize::MAX,
    ensures
        gpa & !0xfff == apic_base ==> r == EptTarget::Apic,
        gpa & !0xfff != apic_base && gpa & !0xfff == crate::x86::IO_APIC_BASE ==> r
            == EptTarget::IoApic,
        gpa & !0xfff != apic_base && gpa & !0xfff != crate::x86::IO_APIC_BASE && virtio_base <= gpa
            && gpa < virtio_base + virtio_devices * 4096 ==> r == EptTarget::Virtio(
            ((gpa - virtio_base) / 4096) as usize,
        ),
        gpa & !0xfff != apic_base && gpa & !0xfff != crate::x86::IO_APIC_BASE && !(virtio_base
            <= gpa && gpa < virtio_base + virtio_devices * 4096) ==> r == EptTarget::Other,
{
    let page = gpa & !0xfff;
    if page == apic_base {
        EptTarget::Apic
    } else if page == crate::x86::IO_APIC_BASE {
        EptTarget::IoApic
    } else if virtio_base <= gpa && gpa < virtio_base + virtio_devices * 4096 {
        EptTarget::Virtio((gpa - virtio_base) / 4096)
    } else {
        EptTarget::Other
    }
}

/// One 64-bit page-table entry read during the emulated walk, through
/// the guest-physical to host-virtual translation and the memory model.
fn walk_entry(mem: &MachVMBlock, convert: &AddressConverter, table: u64, index: u64) -> (r: Result<
    u64,
    Error,
>)
    requires
        index < 512,
        convert.low_mem_start + convert.low_mem_size <= usize::MAX,
    ensures
        match spec_walk_entry(mem@, mem.start as int, *convert, table, index as int) {
            Some(v) => r == Ok::<u64, Error>(v),
            None => r is Err,
        },
{
    let n0: usize = mem.size();
    let base_gpa: u64 = (table & 0xfffffffff000) ;
    if base_gpa >= convert.low_mem_size as u64 && base_gpa > usize::MAX as u64 {
        return Err(Error::Program("page table lies outside the host address space".to_owned()));
    }
    let hva = convert.convert(base_gpa);
    if hva < mem.start {
        return Err(Error::Program("page table lies outside guest memory".to_owned()));
    }
    let off = hva - mem.start;
    if off > n0 || n0 - off < 4096 {
        return Err(Error::Program("page table lies outside guest memory".to_owned()));
    }
    Ok(mem.read_u64(off, index as usize))
}

/// The entry the emulated walk reads, or nothing when the table lies
/// outside the modelled memory.
pub open spec fn spec_walk_entry(mem: Seq<u8>, start: int, conv: AddressConverter, table: u64,
    index: int) -> Option<u64> {
    let base_gpa = table & 0xfffffffff000;
    if base_gpa >= conv.low_mem_size as u64 && base_gpa > usize::MAX as u64 {
        None
    } else {
        let hva = conv.spec_convert(base_gpa);
        if hva < start || hva - start > mem.len() || mem.len() - (hva - start) < 4096 {
            None
        } else {
            Some(le64_at(mem, hva - start + 8 * index))
        }
    }
}

/// The four-level page walk of `emulate_paging`, honouring 1 GiB and
/// 2 MiB pages: the translated physical address, or nothing on a
/// not-present entry or a table outside the modelled memory.
pub open spec fn spec_emulate_paging(mem: Seq<u8>, start: int, conv: AddressConverter,
    linear: u64, cr0: u64, cr3: u64) -> Option<u64> {
    if cr0 & X86_CR0_PG == 0 {
        Some(linear)
    } else {
        match spec_walk_entry(mem, start, conv, cr3 & ADDR_MASK, ((linear >> 39) & 0x1ff) as int) {
            None => None,
            Some(pml4e) => if pml4e & PG_P == 0 {
                None
            } else {
                match spec_walk_entry(
                    mem,
                    start,
                    conv,
                    pml4e & ADDR_MASK,
                    ((linear >> 30) & 0x1ff) as int,
                ) {
                    None => None,
                    Some(pdpte) => if pdpte & PG_P == 0 {
                        None
                    } else if pdpte & PG_PS != 0 {
                        Some((pdpte & !0x3fffffff) | (linear & 0x3fffffff))
                    } else {
                        match spec_walk_entry(
                            mem,
                            start,
                            conv,
                            pdpte & ADDR_MASK,
                            ((linear >> 21) & 0x1ff) as int,
                        ) {
                            None => None,
                            Some(pde) => if pde & PG_P == 0 {
                                None
                            } else if pde & PG_PS != 0 {
                                Some((pde & !0x1fffff) | (linear & 0x1fffff))
                            } else {
                                match spec_walk_entry(
                                    mem,
                                    start,
                                    conv,
                                    pde & ADDR_MASK,
                                    ((linear >> 12) & 0x1ff) as int,
                                ) {
                                    None => None,
                                    Some(pte) => if pte & PG_P == 0 {
                                        None
                                    } else {
                                        Some((((pte & !0xfff) | (linear & 0xfff)) & ADDR_MASK))
                                    },
                                }
                            },
                        }
                    },
                }
            },
        }
    }
}

/// Walks the guest's own page tables to translate a linear address, as
/// the dispatcher does to fetch the faulting instruction's bytes.  Only
/// four-level paging is supported; a not-present entry is an error, not
/// an injected fault.
pub fn emulate_paging(mem: &MachVMBlock, convert: &AddressConverter, linear_addr: u64, cr0: u64,
    cr3: u64) -> (r: Result<u64, Error>)
    requires
        convert.low_mem_start + convert.low_mem_size <= usize::MAX,
    ensures
        match spec_emulate_paging(mem@, mem.start as int, *convert, linear_addr, cr0, cr3) {
            Some(v) => r == Ok::<u64, Error>(v),
            None => r is Err,
        },
{
    if cr0 & X86_CR0_PG == 0 {
        return Ok(linear_addr);
    }
    let pml4e = match walk_entry(mem, convert, cr3 & ADDR_MASK, pml4_index(linear_addr)) {
        Ok(v) => v,
        Err(e) => {
            return Err(e);
        },
    };
    if pml4e & PG_P == 0 {
        return Err(Error::Program("page walk: entry not present at the top level".to_owned()));
    }
    let pdpte = match walk_entry(mem, convert, pml4e & ADDR_MASK, pdpt_index(linear_addr)) {
        Ok(v) => v,
        Err(e) => {
            return Err(e);
        },
    };
    if pdpte & PG_P == 0 {
        return Err(Error::Program("page walk: entry not present at the third level".to_owned()));
    }
    if pdpte & PG_PS != 0 {
        return Ok((pdpte & !0x3fffffff) | (linear_addr & 0x3fffffff));
    }
    let pde = match walk_entry(mem, convert, pdpte & ADDR_MASK, pd_index(linear_addr)) {
        Ok(v) => v,
        Err(e) => {
            return Err(e);
        },
    };
    if pde & PG_P == 0 {
        return Err(Error::Program("page walk: entry not present at the second level".to_owned()));
    }
    if pde & PG_PS != 0 {
        return Ok((pde & !0x1fffff) | (linear_addr & 0x1fffff));
    }
    let pte = match walk_entry(mem, convert, pde & ADDR_MASK, pt_index(linear_addr)) {
        Ok(v) => v,
        Err(e) => {
            return Err(e);
        },
    };
    if pte & PG_P == 0 {
        return Err(Error::Program("page walk: entry not present at the leaf level".to_owned()));
    }
    Ok(((pte & !0xfff) | (linear_addr & 0xfff)) & ADDR_MASK)
}

/// Whether guest physical `gpa` translates to a host address with `len`
/// bytes of room inside the modelled block.
pub open spec fn guest_range_in(mem_len: int, start: int, conv: AddressConverter, gpa: u64,
    len: int) -> bool {
    &&& (gpa >= conv.low_mem_size ==> gpa <= usize::MAX)
    &&& conv.spec_convert(gpa) >= start
    &&& conv.spec_convert(gpa) - start + len <= mem_len
}

/// Reads `len` instruction bytes at guest physical `gpa`, through the
/// translation and the memory model.
pub fn fetch_guest_bytes(mem: &MachVMBlock, convert: &AddressConverter, gpa: u64, len: usize) -> (
    r: Result<Vec<u8>, Error>)
    requires
        convert.low_mem_start + convert.low_mem_size <= usize::MAX,
    ensures
        r is Ok <==> guest_range_in(
            mem@.len() as int,
            mem.start as int,
            *convert,
            gpa,
            len as int,
        ),
        r is Ok ==> r->Ok_0@.len() == len,
        r is Ok ==> ({
            let off = convert.spec_convert(gpa) - mem.start;
            forall|i: int| 0 <= i < len ==> r->Ok_0@[i] == mem@[off + i]
        }),
{
    let n0: usize = mem.size();
    if gpa >= convert.low_mem_size as u64 && gpa > usize::MAX as u64 {
        return Err(Error::Program("instruction bytes outside the host address space".to_owned()));
    }
    let hva = convert.convert(gpa);
    if hva < mem.start {
        return Err(Error::Program("instruction bytes outside guest memory".to_owned()));
    }
    let off = hva - mem.start;
    if off > n0 || n0 - off < len {
        return Err(Error::Program("instruction bytes outside guest memory".to_owned()));
    }
    Ok(mem.read_bytes(off, len))
}

} // verus!
