//! The multiboot loader: find and check the header in the first 8 KiB of
//! the image, load it into low memory, and stage a `multiboot_info` with
//! a two-entry memory map.

use vstd::prelude::*;

use crate::consts::KiB;
use crate::consts::MiB;
use crate::err::Error;
use crate::mach::le32_at;
use crate::mach::le64_at;
use crate::mach::slice_u32;
use crate::mach::MachVMBlock;
use crate::utils::round_up_4k;
use crate::vmx::VcpuSeed;
use crate::vmx::VmxCapSet;
use crate::vmx::X86Reg;
use crate::x86::FL_RSVD_1;

verus! {

/// The multiboot header magic.
pub const MAGIC1: u32 = 0x1badb002;

/// The header must begin within this many bytes of the image.
pub const HEADER_POS_LIMIT: usize = 8192;

pub const MULTIBOOT_INFO_MEMORY: u32 = 0x1;

pub const MULTIBOOT_INFO_BOOTDEV: u32 = 0x2;

pub const MULTIBOOT_INFO_CMDLINE: u32 = 0x4;

pub const MULTIBOOT_INFO_MODS: u32 = 0x8;

pub const MULTIBOOT_INFO_AOUT_SYMS: u32 = 0x10;

pub const MULTIBOOT_INFO_ELF_SHDR: u32 = 0x20;

pub const MULTIBOOT_INFO_MEM_MAP: u32 = 0x40;

pub const MULTIBOOT_INFO_DRIVE_INFO: u32 = 0x80;

pub const MULTIBOOT_INFO_CONFIG_TABLE: u32 = 0x100;

pub const MULTIBOOT_INFO_BOOT_LOADER_NAME: u32 = 0x200;

pub const MULTIBOOT_INFO_APM_TABLE: u32 = 0x400;

pub const MULTIBOOT_INFO_VBE_INFO: u32 = 0x800;

pub const MULTIBOOT_INFO_FRAMEBUFFER_INFO: u32 = 0x1000;

pub const MULTIBOOT_MEMORY_AVAILABLE: u32 = 1;

pub const MULTIBOOT_MEMORY_RESERVED: u32 = 2;

pub const MULTIBOOT_MEMORY_ACPI_RECLAIMABLE: u32 = 3;

pub const MULTIBOOT_MEMORY_NVS: u32 = 4;

pub const MULTIBOOT_MEMORY_BADRAM: u32 = 5;

/// The header a multiboot image embeds.
#[derive(Debug, Clone, Copy, PartialEq, Eq, Structural)]
pub struct MultibootHeader {
    pub magic: u32,
    pub flags: u32,
    pub checksum: u32,
    pub header_addr: u32,
    pub load_addr: u32,
    pub load_end_addr: u32,
    pub bss_end_addr: u32,
    pub entry_addr: u32,
    pub mode_type: u32,
    pub width: u32,
    pub height: u32,
    pub depth: u32,
}

/// One entry of the memory map handed to the kernel.
#[derive(Debug, Clone, Copy, PartialEq, Eq, Structural)]
pub struct MultibootMmapEntry {
    pub size: u32,
    pub addr: u64,
    pub len: u64,
    pub entry_type: u32,
}

/// The fields of `multiboot_info` this loader fills in.
#[derive(Debug, Clone, Copy, PartialEq, Eq, Structural)]
pub struct MultibootInfo {
    pub flags: u32,
    pub mem_lower: u32,
    pub mem_upper: u32,
    pub mods_count: u32,
    pub mmap_length: u32,
    pub mmap_addr: u32,
    pub drives_length: u32,
}

/// Everything the multiboot loader produces: the info structure, its
/// guest physical address, and the register seed.
pub struct MultibootLoad {
    pub info: MultibootInfo,
    pub mbi_addr: usize,
    pub seed: VcpuSeed,
}

/// The first dword-aligned position of the magic within the image's
/// first 8 KiB, by scan order.
pub open spec fn spec_magic_pos(k: Seq<u8>, i: int) -> Option<int>
    decreases HEADER_POS_LIMIT - i,
{
    if i < 0 || i + 4 > k.len() || i + 4 > HEADER_POS_LIMIT {
        Option::None
    } else if le32_at(k, i) == MAGIC1 {
        Option::Some(i)
    } else {
        spec_magic_pos(k, i + 4)
    }
}

/// Reads the header at `pos`.
pub open spec fn spec_header_at(k: Seq<u8>, pos: int) -> MultibootHeader {
    MultibootHeader {
        magic: le32_at(k, pos),
        flags: le32_at(k, pos + 4),
        checksum: le32_at(k, pos + 8),
        header_addr: le32_at(k, pos + 12),
        load_addr: le32_at(k, pos + 16),
        load_end_addr: le32_at(k, pos + 20),
        bss_end_addr: le32_at(k, pos + 24),
        entry_addr: le32_at(k, pos + 28),
        mode_type: le32_at(k, pos + 32),
        width: le32_at(k, pos + 36),
        height: le32_at(k, pos + 40),
        depth: le32_at(k, pos + 44),
    }
}

/// Finds the multiboot header: the magic must appear on a 4-byte
/// boundary in the image's first 8 KiB, with the whole header inside the
/// image.
pub fn find_header(kernel: &[u8]) -> (r: Result<(usize, MultibootHeader), Error>)
    ensures
        match spec_magic_pos(kernel@, 0) {
            Option::Some(pos) => if pos + 48 <= kernel@.len() {
                r == Ok::<(usize, MultibootHeader), Error>(
                    ((pos as usize), spec_header_at(kernel@, pos)),
                )
            } else {
                r is Err
            },
            Option::None => r is Err,
        },
{
    let mut i: usize = 0;
    loop
        invariant
            i % 4 == 0,
            i <= HEADER_POS_LIMIT,
            spec_magic_pos(kernel@, 0) == spec_magic_pos(kernel@, i as int),
        ensures
            i + 4 <= kernel@.len() && i + 4 <= HEADER_POS_LIMIT,
            le32_at(kernel@, i as int) == MAGIC1,
            spec_magic_pos(kernel@, 0) == Option::Some(i as int),
        decreases HEADER_POS_LIMIT - i,
    {
        if i + 4 > kernel.len() || i + 4 > HEADER_POS_LIMIT {
            return Err(
                Error::Program("no multiboot magic in the first 8 KiB of the image".to_owned()),
            );
        }
        let v = slice_u32(kernel, i);
        if v == MAGIC1 {
            break ;
        }
        i = i + 4;
    }
    if i + 48 > kernel.len() {
        return Err(Error::Program("multiboot header truncated".to_owned()));
    }
    Ok(
        (
            i,
            MultibootHeader {
                magic: slice_u32(kernel, i),
                flags: slice_u32(kernel, i + 4),
                checksum: slice_u32(kernel, i + 8),
                header_addr: slice_u32(kernel, i + 12),
                load_addr: slice_u32(kernel, i + 16),
                load_end_addr: slice_u32(kernel, i + 20),
                bss_end_addr: slice_u32(kernel, i + 24),
                entry_addr: slice_u32(kernel, i + 28),
                mode_type: slice_u32(kernel, i + 32),
                width: slice_u32(kernel, i + 36),
                height: slice_u32(kernel, i + 40),
                depth: slice_u32(kernel, i + 44),
            },
        ),
    )
}

/// The header checksum: magic, flags and checksum must sum to zero
/// modulo 2^32.
pub open spec fn header_checksum_ok(h: MultibootHeader) -> bool {
    (h.magic + h.flags + h.checksum) % 0x100000000 == 0
}

/// The loader's acceptance condition: a dword-aligned magic in the
/// image's first 8 KiB with the whole header inside the image, a
/// balancing checksum, none of the unsupported address or video flags,
/// and an image that fits at its load address below the info pages.
pub open spec fn multiboot_accepts(k: Seq<u8>, low_len: int, load_addr: int) -> bool {
    match spec_magic_pos(k, 0) {
        Option::None => false,
        Option::Some(p) => {
            let h = spec_header_at(k, p);
            let mbi = MiB + crate::utils::spec_round_up_4k(k.len() as int);
            &&& p + 48 <= k.len()
            &&& (h.magic + h.flags + h.checksum) % 0x100000000 == 0
            &&& h.flags & 0x10004 == 0
            &&& load_addr <= low_len
            &&& k.len() <= low_len - load_addr
            &&& k.len() <= low_len - MiB - 3 * 4096
            &&& mbi + 2 * 4096 <= low_len
            &&& load_addr + k.len() <= mbi
        },
    }
}

/// Stages a multiboot kernel: BIOS tables at `0xe0000`, the image at
/// `load_addr` of low memory, the `multiboot_info` and its two-entry
/// memory map above the first megabyte, and the protected-mode register
/// seed with RAX carrying the magic and RBX the info address.
#[verifier::rlimit(100)]
#[verifier::spinoff_prover]
pub fn multiboot(kernel: &Vec<u8>, low_mem: &mut MachVMBlock, load_addr: usize, rip: u64,
    cores: u32, caps: &VmxCapSet) -> (r: Result<MultibootLoad, Error>)
    requires
        1 <= cores <= 255,
        old(low_mem)@.len() >= 2 * MiB,
        old(low_mem)@.len() % 4096 == 0,
        old(low_mem)@.len() <= 0x100000000,
        (crate::vmx::CPU_BASED_HLT | crate::vmx::CPU_BASED_CR8_LOAD
            | crate::vmx::CPU_BASED_CR8_STORE) & !(caps.cpu >> 32) == 0,
        (crate::vmx::CPU_BASED2_RDTSCP | crate::vmx::CPU_BASED2_INVPCID) & !(caps.cpu2 >> 32)
            == 0,
    ensures
        r is Ok <==> multiboot_accepts(kernel@, old(low_mem)@.len() as int, load_addr as int),
        r is Err ==> *final(low_mem) == *old(low_mem),
        r is Ok ==> ({
            let load = r->Ok_0;
            let low_len = old(low_mem)@.len();
            let mbi = load.mbi_addr;
            &&& load.info.flags == (MULTIBOOT_INFO_MEMORY | MULTIBOOT_INFO_MODS
                | MULTIBOOT_INFO_MEM_MAP | MULTIBOOT_INFO_DRIVE_INFO)
            &&& load.info.mem_lower == 64
            &&& load.info.mem_upper == (low_len - MiB) as int / KiB as int
            &&& load.info.mods_count == 0
            &&& load.info.mmap_length == 48
            &&& load.info.mmap_addr == mbi + 4096
            &&& le32_at(final(low_mem)@, mbi as int) == load.info.flags
            &&& le64_at(final(low_mem)@, mbi + 4096 + 4) == 0
            &&& le64_at(final(low_mem)@, mbi + 4096 + 12) == 0x10000
            &&& le32_at(final(low_mem)@, mbi + 4096 + 20) == MULTIBOOT_MEMORY_AVAILABLE
            &&& le64_at(final(low_mem)@, mbi + 4096 + 24 + 4) == MiB
            &&& le64_at(final(low_mem)@, mbi + 4096 + 24 + 12) == low_len - MiB
            &&& le32_at(final(low_mem)@, mbi + 4096 + 24 + 20) == MULTIBOOT_MEMORY_AVAILABLE
            &&& forall|i: int|
                0 <= i < kernel@.len() ==> final(low_mem)@[load_addr + i] == kernel@[i]
            &&& load.seed.init_regs@ == seq![
                (X86Reg::RAX, MAGIC1 as u64),
                (X86Reg::RBX, mbi as u64),
                (X86Reg::RIP, rip),
                (X86Reg::RFLAGS, FL_RSVD_1),
                (X86Reg::RSP, low_len as u64),
            ]
        }),
    {
    let low_len = low_mem.size();
    let (header_pos, header) = match find_header(kernel.as_slice()) {
        Ok(h) => h,
        Err(e) => {
            return Err(e);
        },
    };
    let sum: u64 = header.magic as u64 + header.flags as u64 + header.checksum as u64;
    if sum % 0x100000000 != 0 {
        return Err(Error::Program("multiboot header checksum failed".to_owned()));
    }
    if header.flags & 0x10004 != 0 {
        return Err(
            Error::Program("multiboot address and video flags are not supported".to_owned()),
        );
    }
    if load_addr > low_len || low_len - load_addr < kernel.len() {
        return Err(Error::Program("image does not fit at its load address".to_owned()));
    }
    if kernel.len() > low_len - MiB - 3 * 4096 {
        return Err(Error::Program("image leaves no room for the info structure".to_owned()));
    }
    let mbi_addr = MiB + round_up_4k(kernel.len());
    let mmap_table_addr = mbi_addr + 4096;
    if mmap_table_addr + 4096 > low_len || mbi_addr < load_addr + kernel.len() {
        return Err(Error::Program("info structure would overlap the image".to_owned()));
    }
    crate::bios::setup_bios_tables(cores, 0xe0000, low_mem);
    low_mem.write_bytes(load_addr, kernel.as_slice());
    let ghost after_kernel = low_mem@;

    low_mem.fill_zero(mbi_addr, 4096);
    let flags = MULTIBOOT_INFO_MEMORY | MULTIBOOT_INFO_MODS | MULTIBOOT_INFO_MEM_MAP
        | MULTIBOOT_INFO_DRIVE_INFO;
    let mem_upper: u32 = ((low_len - MiB) / KiB) as u32;
    low_mem.write_u32(flags, mbi_addr, 0);
    low_mem.write_u32(64, mbi_addr + 4, 0);
    low_mem.write_u32(mem_upper, mbi_addr + 8, 0);
    low_mem.write_u32(0, mbi_addr + 20, 0);
    low_mem.write_u32(48, mbi_addr + 44, 0);
    low_mem.write_u32(mmap_table_addr as u32, mbi_addr + 48, 0);
    low_mem.write_u32(0, mbi_addr + 52, 0);

    low_mem.fill_zero(mmap_table_addr, 4096);
    low_mem.write_u32(20, mmap_table_addr, 0);
    low_mem.write_u64(0, mmap_table_addr + 4, 0);
    low_mem.write_u64(0x10000, mmap_table_addr + 12, 0);
    low_mem.write_u32(MULTIBOOT_MEMORY_AVAILABLE, mmap_table_addr + 20, 0);
    low_mem.write_u32(20, mmap_table_addr + 24, 0);
    low_mem.write_u64(MiB as u64, mmap_table_addr + 24 + 4, 0);
    low_mem.write_u64((low_len - MiB) as u64, mmap_table_addr + 24 + 12, 0);
    low_mem.write_u32(MULTIBOOT_MEMORY_AVAILABLE, mmap_table_addr + 24 + 20, 0);

    let mut init_regs: Vec<(X86Reg, u64)> = Vec::new();
    init_regs.push((X86Reg::RAX, MAGIC1 as u64));
    init_regs.push((X86Reg::RBX, mbi_addr as u64));
    init_regs.push((X86Reg::RIP, rip));
    init_regs.push((X86Reg::RFLAGS, FL_RSVD_1));
    init_regs.push((X86Reg::RSP, low_len as u64));
    proof {
        assert(init_regs@ =~= seq![
            (X86Reg::RAX, MAGIC1 as u64),
            (X86Reg::RBX, mbi_addr as u64),
            (X86Reg::RIP, rip),
            (X86Reg::RFLAGS, FL_RSVD_1),
            (X86Reg::RSP, low_len as u64),
        ]);
    }

    proof {
        crate::vmx::lemma_and_zero();
    }
    let ctrl_pin = crate::vmx::gen_exec_ctrl(caps.pin, 0, 0);
    let ctrl_cpu = crate::vmx::gen_exec_ctrl(
        caps.cpu,
        crate::vmx::CPU_BASED_HLT | crate::vmx::CPU_BASED_CR8_LOAD
            | crate::vmx::CPU_BASED_CR8_STORE,
        0,
    );
    let ctrl_cpu2 = crate::vmx::gen_exec_ctrl(
        caps.cpu2,
        crate::vmx::CPU_BASED2_RDTSCP | crate::vmx::CPU_BASED2_INVPCID,
        0,
    );
    let ctrl_entry = crate::vmx::gen_exec_ctrl(caps.entry, 0, 0);
    let mut init_vmcs: Vec<(u32, u64)> = Vec::new();
    init_vmcs.push((crate::vmx::VMCS_GUEST_CS_AR, 0xc09b));
    init_vmcs.push((crate::vmx::VMCS_GUEST_CS_LIMIT, 0xffffffff));
    init_vmcs.push((crate::vmx::VMCS_GUEST_DS_AR, 0xc093));
    init_vmcs.push((crate::vmx::VMCS_GUEST_DS_LIMIT, 0xffffffff));
    init_vmcs.push((crate::vmx::VMCS_GUEST_ES_AR, 0xc093));
    init_vmcs.push((crate::vmx::VMCS_GUEST_ES_LIMIT, 0xffffffff));
    init_vmcs.push((crate::vmx::VMCS_GUEST_FS_AR, 0xc093));
    init_vmcs.push((crate::vmx::VMCS_GUEST_FS_LIMIT, 0xffffffff));
    init_vmcs.push((crate::vmx::VMCS_GUEST_GS_AR, 0xc093));
    init_vmcs.push((crate::vmx::VMCS_GUEST_GS_LIMIT, 0xffffffff));
    init_vmcs.push((crate::vmx::VMCS_GUEST_SS_AR, 0xc093));
    init_vmcs.push((crate::vmx::VMCS_GUEST_SS_LIMIT, 0xffffffff));
    init_vmcs.push((crate::vmx::VMCS_GUEST_LDTR_AR, 0x82));
    init_vmcs.push((crate::vmx::VMCS_GUEST_TR_AR, 0x8b));
    init_vmcs.push((crate::vmx::VMCS_CTRL_PIN_BASED, ctrl_pin));
    init_vmcs.push((crate::vmx::VMCS_CTRL_CPU_BASED, ctrl_cpu));
    init_vmcs.push((crate::vmx::VMCS_CTRL_CPU_BASED2, ctrl_cpu2));
    init_vmcs.push((crate::vmx::VMCS_CTRL_VMENTRY_CONTROLS, ctrl_entry));
    init_vmcs.push((crate::vmx::VMCS_CTRL_EXC_BITMAP, crate::vmx::EXC_BITMAP_ALL_BUT_BP_PF));
    init_vmcs.push((crate::vmx::VMCS_GUEST_CR0, 0x21));
    init_vmcs.push((crate::vmx::VMCS_CTRL_CR0_MASK, 0x80000001));
    init_vmcs.push((crate::vmx::VMCS_CTRL_CR0_SHADOW, 0x21));
    init_vmcs.push((crate::vmx::VMCS_GUEST_CR4, 0x2000));
    init_vmcs.push((crate::vmx::VMCS_CTRL_CR4_MASK, 0x2020));
    init_vmcs.push((crate::vmx::VMCS_CTRL_CR4_SHADOW, 0));

    proof {
        assert forall|i: int|
            0 <= i < kernel@.len() implies final(low_mem)@[load_addr + i] == kernel@[i] by {
            assert(final(low_mem)@[load_addr + i] == after_kernel[load_addr + i]);
        }
    }
    let info = MultibootInfo {
        flags,
        mem_lower: 64,
        mem_upper,
        mods_count: 0,
        mmap_length: 48,
        mmap_addr: mmap_table_addr as u32,
        drives_length: 0,
    };
    Ok(MultibootLoad { info, mbi_addr, seed: VcpuSeed { init_regs, init_vmcs } })
}

} // verus!
