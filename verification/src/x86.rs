//! Architectural constants of x86: control-register bits, RFLAGS bits,
//! paging-entry bits, and the fixed guest-physical addresses of the two
//! interrupt controllers.

use vstd::prelude::*;

verus! {

/// RFLAGS bits that must read as one.
pub const FL_RSVD_1: u64 = 0x00000002;

/// RFLAGS bits that must read as zero (mask of the representable bits).
pub const FL_RSVD_0: u64 = 0x003f7fd7;

/// RFLAGS interrupt-enable flag.
pub const FL_IF: u64 = 0x200;

pub const X86_CR0_PE: u64 = 0x00000001;

pub const X86_CR0_ET: u64 = 0x00000010;

pub const X86_CR0_NE: u64 = 0x00000020;

pub const X86_CR0_PG: u64 = 0x80000000;

pub const X86_CR4_PAE: u64 = 0x00000020;

pub const X86_CR4_OSFXSR: u64 = 0x00000200;

pub const X86_CR4_VMXE: u64 = 0x00002000;

pub const X86_CR4_OSXSAVE: u64 = 0x00040000;

pub const EFER_LME: u64 = 0x100;

pub const EFER_LMA: u64 = 0x400;

/// Guest-physical address of the I/O APIC page.
pub const IO_APIC_BASE: usize = 0xfec00000;

/// Guest-physical address of the local APIC page.
pub const APIC_GPA: usize = 0xfee00000;

/// Page-table entry: present.
pub const PG_P: u64 = 1;

/// Page-table entry: writable.
pub const PG_RW: u64 = 2;

/// Page-table entry: page size (1 GiB at PDPT level, 2 MiB at PD level).
pub const PG_PS: u64 = 0x80;

/// CPUID leaf 1 ECX: MONITOR/MWAIT available.
pub const CPUID_MONITOR: u32 = 0x8;

/// CPUID leaf 1 ECX: VMX available.
pub const CPUID_VMX: u32 = 0x20;

/// CPUID leaf 1 ECX: perfmon/debug capability.
pub const CPUID_PDCM: u32 = 0x8000;

/// CPUID leaf 1 ECX: TSC deadline timer.
pub const CPUID_TSC_DL: u32 = 0x1000000;

/// CPUID leaf 1 ECX: XSAVE available.
pub const CPUID_XSAVE: u32 = 0x4000000;

/// CPUID leaf 1 ECX: OSXSAVE (guest CR4.OSXSAVE mirrored).
pub const CPUID_OSXSAVE: u32 = 0x8000000;

/// CPUID leaf 1 ECX: running under a hypervisor.
pub const CPUID_HV: u32 = 0x80000000;

/// CPUID leaf 7 EBX: TSC_ADJUST MSR available.
pub const CPUID_TSC_ADJUST: u32 = 0x2;

} // verus!
