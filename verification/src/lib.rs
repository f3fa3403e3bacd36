//! A verified core for a lightweight type-2 hypervisor.
//!
//! The crate holds the platform-emulation logic a guest needs to boot and
//! run: the emulated local APIC and I/O APIC, a 16550 serial port, an RTC,
//! a PCI host bridge, a virtio-mmio transport with its virtqueue rings, the
//! x86 instruction decoder used for MMIO emulation, the guest-image loaders
//! (Linux `boot_params` and multiboot), the ACPI table builder, and the
//! pure decision logic of the vm-exit dispatcher.  The host hypervisor
//! primitive itself (VM create/run, register and VMCS access) is an outside
//! collaborator: the functions here compute what must be written and hand
//! plain values back to the embedding run loop.

use vstd::prelude::*;

pub mod apic;
pub mod bios;
pub mod consts;
pub mod decode;
pub mod err;
pub mod ioapic;
pub mod linux;
pub mod mach;
pub mod msr;
pub mod multiboot;
pub mod pci;
pub mod rtc;
pub mod serial;
pub mod utils;
pub mod virtio;
pub mod virtq;
pub mod vmexit;
pub mod vmx;
pub mod vthread;
pub mod x86;

verus! {

/// What to do with a read from (or write to) an I/O port or MSR that no
/// emulated device claims.
#[derive(Debug, Copy, Clone, PartialEq, Eq, Structural)]
pub enum PortPolicy {
    /// Reads return all-ones (`0xff`/`0xffff`/`0xffffffff` by access size).
    AllOne,
    /// Reads return a random value.
    Random,
}

/// Policy for machine-specific registers the hypervisor does not emulate.
#[derive(Debug, Copy, Clone, PartialEq, Eq, Structural)]
pub enum MsrPolicy {
    /// Reads return a random value.
    Random,
    /// Reads return all-ones.
    AllOne,
    /// Accesses inject a general-protection fault into the guest.
    GP,
}

/// Which accesses a policy covers: exactly the listed ports/MSRs, or all
/// but the listed ones.
#[derive(Debug)]
pub enum PolicyList<T> {
    Apply(Vec<T>),
    Except(Vec<T>),
}

impl PolicyList<u16> {
    /// True when the policy list covers `port`.
    pub fn covers(&self, port: u16) -> (r: bool)
        ensures
            r == self.covers_spec(port),
    {
        match self {
            PolicyList::Apply(set) => contains_u16(set, port),
            PolicyList::Except(set) => !contains_u16(set, port),
        }
    }

    pub open spec fn covers_spec(&self, port: u16) -> bool {
        match self {
            PolicyList::Apply(set) => set@.contains(port),
            PolicyList::Except(set) => !set@.contains(port),
        }
    }
}

impl PolicyList<u32> {
    /// True when the policy list covers `msr`.
    pub fn covers(&self, msr: u32) -> (r: bool)
        ensures
            r == self.covers_spec(msr),
    {
        match self {
            PolicyList::Apply(set) => contains_u32(set, msr),
            PolicyList::Except(set) => !contains_u32(set, msr),
        }
    }

    pub open spec fn covers_spec(&self, msr: u32) -> bool {
        match self {
            PolicyList::Apply(set) => set@.contains(msr),
            PolicyList::Except(set) => !set@.contains(msr),
        }
    }
}

fn contains_u16(v: &Vec<u16>, x: u16) -> (r: bool)
    ensures
        r == v@.contains(x),
{
    let mut i: usize = 0;
    while i < v.len()
        invariant
            i <= v.len(),
            forall|j: int| 0 <= j < i ==> v@[j] != x,
        decreases v.len() - i,
    {
        if v[i] == x {
            return true;
        }
        i = i + 1;
    }
    false
}

fn contains_u32(v: &Vec<u32>, x: u32) -> (r: bool)
    ensures
        r == v@.contains(x),
{
    let mut i: usize = 0;
    while i < v.len()
        invariant
            i <= v.len(),
            forall|j: int| 0 <= j < i ==> v@[j] != x,
        decreases v.len() - i,
    {
        if v[i] == x {
            return true;
        }
        i = i + 1;
    }
    false
}

} // verus!
