//! The machine-specific registers the hypervisor passes through or
//! emulates.

use vstd::prelude::*;

verus! {

pub const MSR_EFER: u32 = 0xc0000080;

pub const MSR_STAR: u32 = 0xc0000081;

pub const MSR_LSTAR: u32 = 0xc0000082;

pub const MSR_CSTAR: u32 = 0xc0000083;

pub const MSR_SYSCALL_MASK: u32 = 0xc0000084;

pub const MSR_FS_BASE: u32 = 0xc0000100;

pub const MSR_GS_BASE: u32 = 0xc0000101;

pub const MSR_KERNEL_GS_BASE: u32 = 0xc0000102;

pub const MSR_TSC_AUX: u32 = 0xc0000103;

pub const MSR_IA32_TSC: u32 = 0x10;

pub const MSR_IA32_APIC_BASE: u32 = 0x1b;

pub const MSR_IA32_BIOS_SIGN_ID: u32 = 0x8b;

pub const MSR_IA32_SYSENTER_CS: u32 = 0x174;

pub const MSR_IA32_SYSENTER_ESP: u32 = 0x175;

pub const MSR_IA32_SYSENTER_EIP: u32 = 0x176;

pub const MSR_IA32_MISC_ENABLE: u32 = 0x1a0;

pub const MSR_IA32_CR_PAT: u32 = 0x277;

/// IA32_APIC_BASE: the APIC is globally enabled.
pub const MSR_IA32_APIC_BASE_ENABLED: u64 = 0x800;

/// IA32_APIC_BASE: x2APIC mode.
pub const MSR_IA32_APIC_BASE_X2: u64 = 0x400;

/// IA32_APIC_BASE: this processor is the bootstrap processor.
pub const MSR_IA32_APIC_BASE_BSP: u64 = 0x100;

} // verus!
