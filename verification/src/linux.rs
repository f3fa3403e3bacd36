//! The 64-bit Linux boot protocol: parsing the kernel's setup header,
//! laying out high memory (kernel image, command line, GDT, identity
//! paging, `boot_params`), the e820 map, and the initial register seed.

use vstd::prelude::*;
use vstd::string::StringSliceAdditionalSpecFns;

use crate::bios::sum_bytes;
use crate::consts::MiB;
use crate::consts::PAGE_SIZE;
use crate::err::Error;
use crate::mach::le16_at;
use crate::mach::le32_at;
use crate::mach::le64_at;
use crate::mach::slice_u16;
use crate::mach::slice_u32;
use crate::mach::slice_u64;
use crate::mach::MachVMBlock;
use crate::mach::ALLOC_BASE;
use crate::utils::push_all;
use crate::vmx::VcpuSeed;
use crate::vmx::VmxCapSet;
use crate::vmx::X86Reg;
use crate::x86::FL_RSVD_1;
use crate::x86::PG_P;
use crate::x86::PG_PS;
use crate::x86::PG_RW;

verus! {

pub const E820_RAM: u32 = 1;

pub const E820_RESERVED: u32 = 2;

pub const E820_ACPI: u32 = 3;

pub const E820_NVS: u32 = 4;

pub const E820_UNUSABLE: u32 = 5;

/// Capacity of the `boot_params` e820 table.
pub const E820_MAX: usize = 128;

/// File offset of the setup header inside a bzImage.
pub const HEADER_OFFSET: usize = 0x1f1;

/// Byte size of the setup header.
pub const SETUP_HEADER_SIZE: usize = 123;

/// Offset of the 64-bit entry point inside the loaded kernel.
pub const ENTRY_64: usize = 0x200;

/// Guest physical address of the BIOS tables in low memory.
pub const BIOS_TABLE_BASE: usize = 0xe0000;

pub const MAGIC_AA55: u16 = 0xaa55;

/// "HdrS", the setup-header magic.
pub const HDRS: u32 = 0x53726448;

/// The kernel has a 64-bit entry point.
pub const XLF_KERNEL_64: u16 = 1;

/// The kernel may be loaded above 4 GiB.
pub const XLF_CAN_BE_LOADED_ABOVE_4G: u16 = 2;


/// The PDPT entry `i` of an identity page table starting at `base`.
pub open spec fn pdpte_at(s: Seq<u8>, base: int, i: int) -> u64 {
    le64_at(s, base + 8 * i)
}

/// The `addr` field of e820 entry `k` of a table starting at `base`.
pub open spec fn e820_addr_at(s: Seq<u8>, base: int, k: int) -> u64 {
    le64_at(s, base + 20 * k)
}

/// The `size` field of e820 entry `k` of a table starting at `base`.
pub open spec fn e820_size_at(s: Seq<u8>, base: int, k: int) -> u64 {
    le64_at(s, base + 20 * k + 8)
}

/// The `type` field of e820 entry `k` of a table starting at `base`.
pub open spec fn e820_type_at(s: Seq<u8>, base: int, k: int) -> u32 {
    le32_at(s, base + 20 * k + 16)
}

/// One entry of the e820 memory map handed to the guest.
#[derive(Debug, Clone, Copy, PartialEq, Eq, Structural)]
pub struct E820Entry {
    pub addr: u64,
    pub size: u64,
    pub entry_type: u32,
}

/// The Linux real-mode setup header, parsed from offset `0x1f1` of the
/// kernel image.
#[derive(Debug, Clone, Copy, PartialEq, Eq, Structural)]
pub struct SetupHeader {
    pub setup_sects: u8,
    pub root_flags: u16,
    pub syssize: u32,
    pub ram_size: u16,
    pub vid_mode: u16,
    pub root_dev: u16,
    pub boot_flag: u16,
    pub jump: u16,
    pub header: u32,
    pub version: u16,
    pub realmode_swtch: u32,
    pub start_sys: u16,
    pub kernel_version: u16,
    pub type_of_loader: u8,
    pub loadflags: u8,
    pub setup_move_size: u16,
    pub code32_start: u32,
    pub ramdisk_image: u32,
    pub ramdisk_size: u32,
    pub bootsect_kludge: u32,
    pub heap_end_ptr: u16,
    pub ext_loader_ver: u8,
    pub ext_loader_type: u8,
    pub cmd_line_ptr: u32,
    pub initrd_addr_max: u32,
    pub kernel_alignment: u32,
    pub relocatable_kernel: u8,
    pub min_alignment: u8,
    pub xloadflags: u16,
    pub cmdline_size: u32,
    pub hardware_subarch: u32,
    pub hardware_subarch_data: u64,
    pub payload_offset: u32,
    pub payload_length: u32,
    pub setup_data: u64,
    pub pref_address: u64,
    pub init_size: u32,
    pub handover_offset: u32,
    pub kernel_info_offset: u32,
}

/// The fields of the `boot_params` page this loader fills in.
pub struct BootParams {
    pub ext_ramdisk_image: u32,
    pub ext_ramdisk_size: u32,
    pub ext_cmd_line_ptr: u32,
    pub e820_entries: u8,
    pub e820_table: Vec<E820Entry>,
    pub hdr: SetupHeader,
}

/// The setup header read from `k`, field by field, little-endian from
/// offset `0x1f1`.
pub open spec fn spec_setup_header(k: Seq<u8>) -> SetupHeader {
    SetupHeader {
        setup_sects: k[0x1f1],
        root_flags: le16_at(k, 0x1f2),
        syssize: le32_at(k, 0x1f4),
        ram_size: le16_at(k, 0x1f8),
        vid_mode: le16_at(k, 0x1fa),
        root_dev: le16_at(k, 0x1fc),
        boot_flag: le16_at(k, 0x1fe),
        jump: le16_at(k, 0x200),
        header: le32_at(k, 0x202),
        version: le16_at(k, 0x206),
        realmode_swtch: le32_at(k, 0x208),
        start_sys: le16_at(k, 0x20c),
        kernel_version: le16_at(k, 0x20e),
        type_of_loader: k[0x210],
        loadflags: k[0x211],
        setup_move_size: le16_at(k, 0x212),
        code32_start: le32_at(k, 0x214),
        ramdisk_image: le32_at(k, 0x218),
        ramdisk_size: le32_at(k, 0x21c),
        bootsect_kludge: le32_at(k, 0x220),
        heap_end_ptr: le16_at(k, 0x224),
        ext_loader_ver: k[0x226],
        ext_loader_type: k[0x227],
        cmd_line_ptr: le32_at(k, 0x228),
        initrd_addr_max: le32_at(k, 0x22c),
        kernel_alignment: le32_at(k, 0x230),
        relocatable_kernel: k[0x234],
        min_alignment: k[0x235],
        xloadflags: le16_at(k, 0x236),
        cmdline_size: le32_at(k, 0x238),
        hardware_subarch: le32_at(k, 0x23c),
        hardware_subarch_data: le64_at(k, 0x240),
        payload_offset: le32_at(k, 0x248),
        payload_length: le32_at(k, 0x24c),
        setup_data: le64_at(k, 0x250),
        pref_address: le64_at(k, 0x258),
        init_size: le32_at(k, 0x260),
        handover_offset: le32_at(k, 0x264),
        kernel_info_offset: le32_at(k, 0x268),
    }
}

/// Reads the setup header out of the first bytes of a kernel image.
pub fn parse_setup_header(kernel: &[u8]) -> (r: Result<SetupHeader, Error>)
    ensures
        r is Ok <==> kernel@.len() >= HEADER_OFFSET + SETUP_HEADER_SIZE,
        r is Ok ==> r->Ok_0 == spec_setup_header(kernel@),
{
    if kernel.len() < HEADER_OFFSET + SETUP_HEADER_SIZE {
        return Err(Error::IO("kernel image too short for a setup header".to_owned()));
    }
    Ok(
        SetupHeader {
            setup_sects: kernel[0x1f1],
            root_flags: slice_u16(kernel, 0x1f2),
            syssize: slice_u32(kernel, 0x1f4),
            ram_size: slice_u16(kernel, 0x1f8),
            vid_mode: slice_u16(kernel, 0x1fa),
            root_dev: slice_u16(kernel, 0x1fc),
            boot_flag: slice_u16(kernel, 0x1fe),
            jump: slice_u16(kernel, 0x200),
            header: slice_u32(kernel, 0x202),
            version: slice_u16(kernel, 0x206),
            realmode_swtch: slice_u32(kernel, 0x208),
            start_sys: slice_u16(kernel, 0x20c),
            kernel_version: slice_u16(kernel, 0x20e),
            type_of_loader: kernel[0x210],
            loadflags: kernel[0x211],
            setup_move_size: slice_u16(kernel, 0x212),
            code32_start: slice_u32(kernel, 0x214),
            ramdisk_image: slice_u32(kernel, 0x218),
            ramdisk_size: slice_u32(kernel, 0x21c),
            bootsect_kludge: slice_u32(kernel, 0x220),
            heap_end_ptr: slice_u16(kernel, 0x224),
            ext_loader_ver: kernel[0x226],
            ext_loader_type: kernel[0x227],
            cmd_line_ptr: slice_u32(kernel, 0x228),
            initrd_addr_max: slice_u32(kernel, 0x22c),
            kernel_alignment: slice_u32(kernel, 0x230),
            relocatable_kernel: kernel[0x234],
            min_alignment: kernel[0x235],
            xloadflags: slice_u16(kernel, 0x236),
            cmdline_size: slice_u32(kernel, 0x238),
            hardware_subarch: slice_u32(kernel, 0x23c),
            hardware_subarch_data: slice_u64(kernel, 0x240),
            payload_offset: slice_u32(kernel, 0x248),
            payload_length: slice_u32(kernel, 0x24c),
            setup_data: slice_u64(kernel, 0x250),
            pref_address: slice_u64(kernel, 0x258),
            init_size: slice_u32(kernel, 0x260),
            handover_offset: slice_u32(kernel, 0x264),
            kernel_info_offset: slice_u32(kernel, 0x268),
        },
    )
}

/// The command-line fragment ` virtio_mmio.device=1K@0x<addr>:<irq>` for
/// one registered virtio device.
pub open spec fn spec_virtio_cmdline(addr: int, irq: int) -> Seq<u8> {
    " virtio_mmio.device=1K@0x".spec_bytes() + crate::utils::spec_hex_bytes(addr) + seq![0x3au8]
        + crate::utils::spec_dec_bytes(irq)
}

/// The full command line: the caller's, extended by one fragment per
/// virtio device.
pub open spec fn spec_full_cmdline(base: Seq<u8>, devs: Seq<(usize, u32)>) -> Seq<u8>
    decreases devs.len(),
{
    if devs.len() == 0 {
        base
    } else {
        spec_full_cmdline(base, devs.drop_last()) + spec_virtio_cmdline(
            devs.last().0 as int,
            devs.last().1 as int,
        )
    }
}

/// Builds the guest command line from the caller's and the registered
/// virtio devices, each named by its MMIO address and interrupt line.
pub fn build_cmdline(base: &Vec<u8>, devs: &Vec<(usize, u32)>) -> (r: Vec<u8>)
    ensures
        r@ == spec_full_cmdline(base@, devs@),
{
    let mut r: Vec<u8> = Vec::new();
    push_all(&mut r, base.as_slice());
    let mut i: usize = 0;
    while i < devs.len()
        invariant
            i <= devs@.len(),
            r@ == spec_full_cmdline(base@, devs@.take(i as int)),
        decreases devs@.len() - i,
    {
        let (addr, irq) = devs[i];
        push_all(&mut r, " virtio_mmio.device=1K@0x".as_bytes());
        let hex = crate::utils::hex_bytes(addr as u64);
        push_all(&mut r, hex.as_slice());
        r.push(0x3a);
        let dec = crate::utils::dec_bytes(irq as u64);
        push_all(&mut r, dec.as_slice());
        proof {
            assert(devs@.take(i + 1).drop_last() =~= devs@.take(i as int));
            assert(devs@.take(i + 1).last() == devs@[i as int]);
            assert(r@ =~= spec_full_cmdline(base@, devs@.take(i + 1)));
        }
        i = i + 1;
    }
    proof {
        assert(devs@.take(devs@.len() as int) =~= devs@);
    }
    r
}

/// Writes one 20-byte e820 entry at `off` of `mem`.
fn write_e820_entry(mem: &mut MachVMBlock, off: usize, e: &E820Entry)
    requires
        off + 20 <= old(mem)@.len(),
    ensures
        final(mem).start == old(mem).start,
        final(mem)@.len() == old(mem)@.len(),
        forall|i: int|
            0 <= i < old(mem)@.len() && !(off <= i < off + 20) ==> final(mem)@[i] == old(mem)@[i],
        le64_at(final(mem)@, off as int) == e.addr,
        le64_at(final(mem)@, off + 8) == e.size,
        le32_at(final(mem)@, off + 16) == e.entry_type,
    {
    let n0: usize = mem.size();
    mem.write_u64(e.addr, off, 0);
    mem.write_u64(e.size, off + 8, 0);
    mem.write_u32(e.entry_type, off + 16, 0);
}

/// Writes the setup-header fields of `h` at `off` of `mem` (the header's
/// position inside a `boot_params` page is `0x1f1`).
#[verifier::rlimit(100)]
#[verifier::spinoff_prover]
fn write_setup_header(mem: &mut MachVMBlock, off: usize, h: &SetupHeader)
    requires
        off + SETUP_HEADER_SIZE <= old(mem)@.len(),
    ensures
        final(mem).start == old(mem).start,
        final(mem)@.len() == old(mem)@.len(),
        forall|i: int|
            0 <= i < old(mem)@.len() && !(off <= i < off + SETUP_HEADER_SIZE) ==> final(mem)@[i]
                == old(mem)@[i],
        final(mem)@[off as int] == h.setup_sects,
        le16_at(final(mem)@, off + 13) == h.boot_flag,
        le32_at(final(mem)@, off + 17) == h.header,
        le16_at(final(mem)@, off + 21) == h.version,
        final(mem)@[off + 31] == h.type_of_loader,
        le32_at(final(mem)@, off + 39) == h.ramdisk_image,
        le32_at(final(mem)@, off + 43) == h.ramdisk_size,
        le32_at(final(mem)@, off + 55) == h.cmd_line_ptr,
        le32_at(final(mem)@, off + 71) == h.cmdline_size,
    {
    let n0: usize = mem.size();
    mem.write_u8(h.setup_sects, off, 0);
    mem.write_u16(h.root_flags, off + 1, 0);
    mem.write_u32(h.syssize, off + 3, 0);
    mem.write_u16(h.ram_size, off + 7, 0);
    mem.write_u16(h.vid_mode, off + 9, 0);
    mem.write_u16(h.root_dev, off + 11, 0);
    mem.write_u16(h.boot_flag, off + 13, 0);
    mem.write_u16(h.jump, off + 15, 0);
    mem.write_u32(h.header, off + 17, 0);
    mem.write_u16(h.version, off + 21, 0);
    mem.write_u32(h.realmode_swtch, off + 23, 0);
    mem.write_u16(h.start_sys, off + 27, 0);
    mem.write_u16(h.kernel_version, off + 29, 0);
    mem.write_u8(h.type_of_loader, off, 31);
    mem.write_u8(h.loadflags, off, 32);
    mem.write_u16(h.setup_move_size, off + 33, 0);
    mem.write_u32(h.code32_start, off + 35, 0);
    mem.write_u32(h.ramdisk_image, off + 39, 0);
    mem.write_u32(h.ramdisk_size, off + 43, 0);
    mem.write_u32(h.bootsect_kludge, off + 47, 0);
    mem.write_u16(h.heap_end_ptr, off + 51, 0);
    mem.write_u8(h.ext_loader_ver, off, 53);
    mem.write_u8(h.ext_loader_type, off, 54);
    mem.write_u32(h.cmd_line_ptr, off + 55, 0);
    mem.write_u32(h.initrd_addr_max, off + 59, 0);
    mem.write_u32(h.kernel_alignment, off + 63, 0);
    mem.write_u8(h.relocatable_kernel, off, 67);
    mem.write_u8(h.min_alignment, off, 68);
    mem.write_u16(h.xloadflags, off + 69, 0);
    mem.write_u32(h.cmdline_size, off + 71, 0);
    mem.write_u32(h.hardware_subarch, off + 75, 0);
    mem.write_u64(h.hardware_subarch_data, off + 79, 0);
    mem.write_u32(h.payload_offset, off + 87, 0);
    mem.write_u32(h.payload_length, off + 91, 0);
    mem.write_u64(h.setup_data, off + 95, 0);
    mem.write_u64(h.pref_address, off + 103, 0);
    mem.write_u32(h.init_size, off + 111, 0);
    mem.write_u32(h.handover_offset, off + 115, 0);
    mem.write_u32(h.kernel_info_offset, off + 119, 0);
}

/// Writes a whole `boot_params` page at `bp_off` of `mem`: zeros, then
/// the extended pointer fields, the e820 count and table, and the setup
/// header.
#[verifier::rlimit(100)]
#[verifier::spinoff_prover]
fn write_boot_params(mem: &mut MachVMBlock, bp_off: usize, bp: &BootParams)
    requires
        bp_off + PAGE_SIZE <= old(mem)@.len(),
        bp.e820_table@.len() == bp.e820_entries,
        bp.e820_entries <= 128,
    ensures
        final(mem).start == old(mem).start,
        final(mem)@.len() == old(mem)@.len(),
        forall|i: int|
            0 <= i < old(mem)@.len() && !(bp_off <= i < bp_off + PAGE_SIZE) ==> final(mem)@[i]
                == old(mem)@[i],
        final(mem)@[bp_off + 0x1e8] == bp.e820_entries,
        forall|k: int|
            0 <= k < bp.e820_table@.len() ==> #[trigger] e820_addr_at(final(mem)@, bp_off + 0x2d0, k)
                == bp.e820_table@[k].addr && e820_size_at(final(mem)@, bp_off + 0x2d0, k)
                == bp.e820_table@[k].size && e820_type_at(final(mem)@, bp_off + 0x2d0, k)
                == bp.e820_table@[k].entry_type,
        final(mem)@[bp_off + HEADER_OFFSET] == bp.hdr.setup_sects,
        final(mem)@[bp_off + HEADER_OFFSET + 31] == bp.hdr.type_of_loader,
        le32_at(final(mem)@, bp_off + HEADER_OFFSET + 55) == bp.hdr.cmd_line_ptr,
        le32_at(final(mem)@, bp_off + 0xc8) == bp.ext_cmd_line_ptr,
    {
    let n0: usize = mem.size();
    mem.fill_zero(bp_off, PAGE_SIZE);
    mem.write_u32(bp.ext_ramdisk_image, bp_off + 0xc0, 0);
    mem.write_u32(bp.ext_ramdisk_size, bp_off + 0xc4, 0);
    mem.write_u32(bp.ext_cmd_line_ptr, bp_off + 0xc8, 0);
    mem.write_u8(bp.e820_entries, bp_off + 0x1e8, 0);
    write_setup_header(mem, bp_off + HEADER_OFFSET, &bp.hdr);
    let ghost after_hdr = mem@;
    let mut k: usize = 0;
    while k < bp.e820_table.len()
        invariant
            k <= bp.e820_table@.len(),
            bp.e820_table@.len() <= 128,
            bp_off + PAGE_SIZE <= mem@.len(),
            mem.start == old(mem).start,
            mem@.len() == n0,
            mem@.len() == after_hdr.len(),
            forall|i: int|
                0 <= i < mem@.len() && !(bp_off + 0x2d0 <= i < bp_off + 0x2d0 + 20 * k) ==> mem@[i]
                    == after_hdr[i],
            forall|j: int|
                0 <= j < k ==> #[trigger] e820_addr_at(mem@, bp_off + 0x2d0, j)
                    == bp.e820_table@[j].addr && e820_size_at(mem@, bp_off + 0x2d0, j)
                    == bp.e820_table@[j].size && e820_type_at(mem@, bp_off + 0x2d0, j)
                    == bp.e820_table@[j].entry_type,
        decreases bp.e820_table@.len() - k,
    {
        let e = bp.e820_table[k];
        let ghost pre = mem@;
        write_e820_entry(mem, bp_off + 0x2d0 + 20 * k, &e);
        proof {
            assert forall|j: int|
                0 <= j < k + 1 implies #[trigger] e820_addr_at(mem@, bp_off + 0x2d0, j)
                == bp.e820_table@[j].addr && e820_size_at(mem@, bp_off + 0x2d0, j)
                == bp.e820_table@[j].size && e820_type_at(mem@, bp_off + 0x2d0, j)
                == bp.e820_table@[j].entry_type by {
                if j < k {
                    assert(e820_addr_at(pre, bp_off + 0x2d0, j) == bp.e820_table@[j].addr);
                    assert(e820_size_at(pre, bp_off + 0x2d0, j) == bp.e820_table@[j].size);
                    assert(e820_type_at(pre, bp_off + 0x2d0, j) == bp.e820_table@[j].entry_type);
                    assert(e820_addr_at(mem@, bp_off + 0x2d0, j) == e820_addr_at(
                        pre,
                        bp_off + 0x2d0,
                        j,
                    ));
                    assert(e820_size_at(mem@, bp_off + 0x2d0, j) == e820_size_at(
                        pre,
                        bp_off + 0x2d0,
                        j,
                    ));
                    assert(e820_type_at(mem@, bp_off + 0x2d0, j) == e820_type_at(
                        pre,
                        bp_off + 0x2d0,
                        j,
                    ));
                }
            }
        }
        k = k + 1;
    }
    proof {
        assert forall|i: int|
            0 <= i < old(mem)@.len() && !(bp_off <= i < bp_off + PAGE_SIZE) implies mem@[i] == old(
            mem,
        )@[i] by {
            assert(mem@[i] == after_hdr[i]);
        }
        assert(mem@[bp_off + 0x1e8] == after_hdr[bp_off + 0x1e8]);
        assert(mem@[bp_off + HEADER_OFFSET] == after_hdr[bp_off + HEADER_OFFSET]);
        assert(mem@[bp_off + HEADER_OFFSET + 31] == after_hdr[bp_off + HEADER_OFFSET + 31]);
        assert(le32_at(mem@, bp_off + HEADER_OFFSET + 55) == le32_at(
            after_hdr,
            bp_off + HEADER_OFFSET + 55,
        ));
        assert(le32_at(mem@, bp_off + 0xc8) == le32_at(after_hdr, bp_off + 0xc8));
    }
}

/// Everything `load_linux64` produces: the staged high-memory block, the
/// `boot_params` it wrote into it, and the vCPU seed for the bootstrap
/// processor.
pub struct LinuxLoad {
    /// The high-memory block holding kernel, command line, GDT, paging
    /// and `boot_params`; the host maps it at guest physical
    /// `high_mem.start`.
    pub high_mem: MachVMBlock,
    /// The `boot_params` that were serialized into the block's last page.
    pub boot_params: BootParams,
    /// Initial registers and VMCS fields for vCPU 0.
    pub seed: VcpuSeed,
}

/// The checks `load_linux64` makes on a parsed setup header.
pub open spec fn header_acceptable(h: SetupHeader) -> bool {
    h.boot_flag == MAGIC_AA55 && h.header == HDRS && h.version >= 0x20c && h.xloadflags
        & XLF_KERNEL_64 != 0 && h.xloadflags & XLF_CAN_BE_LOADED_ABOVE_4G != 0
        && h.relocatable_kernel != 0 && h.kernel_alignment > 0
}

/// The number of setup sectors, with the historical zero meaning four.
pub open spec fn effective_setup_sects(h: SetupHeader) -> int {
    if h.setup_sects == 0 {
        4
    } else {
        h.setup_sects as int
    }
}

/// Stages a 64-bit Linux kernel.
///
/// `kernel` is the raw bzImage, `ramdisk` an optional initrd that goes to
/// the top of low memory, `cmd_line` the caller's command line (extended
/// with one `virtio_mmio.device` clause per entry of `virtio_devs`), and
/// `mem_size` the size of the high-memory block to stage.  On success the
/// block holds the protected-mode kernel at offset 0, and its last five
/// pages hold, from the top: `boot_params`, the command line, the GDT,
/// the PML4 and a PDPT of 512 1-GiB identity mappings.  The vCPU seed
/// points RIP at the 64-bit entry, RSI at `boot_params`, and CR3 at the
/// PML4.
#[verifier::rlimit(100)]
#[verifier::spinoff_prover]
pub fn load_linux64(
    kernel: &Vec<u8>,
    ramdisk: Option<&Vec<u8>>,
    cmd_line: &Vec<u8>,
    virtio_devs: &Vec<(usize, u32)>,
    mem_size: usize,
    low_mem: &mut MachVMBlock,
    cores: u32,
    caps: &VmxCapSet,
) -> (r: Result<LinuxLoad, Error>)
    requires
        1 <= cores <= 255,
        old(low_mem)@.len() >= MiB,
        old(low_mem)@.len() % 4096 == 0,
        6 * PAGE_SIZE <= mem_size,
        mem_size + PAGE_SIZE <= usize::MAX - ALLOC_BASE,
        (crate::vmx::CPU_BASED_CR8_LOAD | crate::vmx::CPU_BASED_CR8_STORE) & !(caps.cpu >> 32)
            == 0,
        (crate::vmx::CPU_BASED2_RDTSCP | crate::vmx::CPU_BASED2_INVPCID) & !(caps.cpu2 >> 32) == 0,
        crate::vmx::VMENTRY_GUEST_IA32E & !(caps.entry >> 32) == 0,
    ensures
        ({
            let h = spec_setup_header(kernel@);
            let full_cmd = spec_full_cmdline(cmd_line@, virtio_devs@);
            let payload_off = (effective_setup_sects(h) + 1) * 512;
            &&& (r is Ok <==> {
                &&& kernel@.len() >= HEADER_OFFSET + SETUP_HEADER_SIZE
                &&& header_acceptable(h)
                &&& h.kernel_alignment + mem_size <= usize::MAX - ALLOC_BASE
                &&& payload_off <= kernel@.len()
                &&& kernel@.len() - payload_off <= mem_size - 5 * PAGE_SIZE
                &&& full_cmd.len() <= h.cmdline_size
                &&& full_cmd.len() <= PAGE_SIZE
                &&& (ramdisk is Some ==> ramdisk->0@.len() <= old(low_mem)@.len() - MiB)
            })
            &&& (r is Err ==> *final(low_mem) == *old(low_mem))
            &&& (r is Ok ==> {
                let load = r->Ok_0;
                let high = load.high_mem;
                let payload_len = kernel@.len() - payload_off;
                let bp_off = mem_size - PAGE_SIZE;
                let cmd_off = mem_size - 2 * PAGE_SIZE;
                let gdt_off = mem_size - 3 * PAGE_SIZE;
                let pml4_off = mem_size - 4 * PAGE_SIZE;
                let pdpt_off = mem_size - 5 * PAGE_SIZE;
                &&& high@.len() == mem_size
                &&& high.start as int % h.kernel_alignment as int == 0
                &&& forall|i: int| 0 <= i < payload_len ==> high@[i] == kernel@[payload_off + i]
                &&& forall|j: int|
                    cmd_off <= j < cmd_off + full_cmd.len() ==> high@[j] == full_cmd[j - cmd_off]
                &&& le64_at(high@, gdt_off + 16) == 0x00af9a000000ffff
                &&& le64_at(high@, gdt_off + 24) == 0x00cf92000000ffff
                &&& le64_at(high@, pml4_off as int) == PG_P | PG_RW | (high.start + pdpt_off)
                    as u64
                &&& forall|i: int|
                    0 <= i < 512 ==> #[trigger] pdpte_at(high@, pdpt_off, i) == ((i as u64) << 30)
                        | PG_P | PG_RW | PG_PS
                &&& load.boot_params.e820_entries == 5
                &&& load.boot_params.e820_table@ == seq![
                    E820Entry { addr: 0, size: PAGE_SIZE as u64, entry_type: E820_RESERVED },
                    E820Entry {
                        addr: PAGE_SIZE as u64,
                        size: (0x10000 - PAGE_SIZE) as u64,
                        entry_type: E820_RAM,
                    },
                    E820Entry {
                        addr: 0x10000,
                        size: (MiB - 0x10000) as u64,
                        entry_type: E820_RESERVED,
                    },
                    E820Entry {
                        addr: MiB as u64,
                        size: (old(low_mem)@.len() - MiB) as u64,
                        entry_type: E820_RAM,
                    },
                    E820Entry { addr: high.start as u64, size: mem_size as u64, entry_type: E820_RAM },
                ]
                &&& high@[bp_off + 0x1e8] == 5
                &&& load.boot_params.hdr.type_of_loader == 0xff
                &&& sum_bytes(
                    final(low_mem)@.subrange(BIOS_TABLE_BASE as int, BIOS_TABLE_BASE + 20),
                ) % 256 == 0
                &&& sum_bytes(
                    final(low_mem)@.subrange(BIOS_TABLE_BASE as int, BIOS_TABLE_BASE + 36),
                ) % 256 == 0
                &&& sum_bytes(
                    final(low_mem)@.subrange(BIOS_TABLE_BASE + 36, BIOS_TABLE_BASE + 144),
                ) % 256 == 0
                &&& sum_bytes(
                    final(low_mem)@.subrange(BIOS_TABLE_BASE + 144, BIOS_TABLE_BASE + 420),
                ) % 256 == 0
                &&& sum_bytes(
                    final(low_mem)@.subrange(
                        BIOS_TABLE_BASE + 456,
                        BIOS_TABLE_BASE + 512 + 24 * (cores as int),
                    ),
                ) % 256 == 0
                &&& ({
                    let rd_len = if ramdisk is Some {
                        ramdisk->0@.len() as int
                    } else {
                        0
                    };
                    let rd_base = old(low_mem)@.len() - crate::utils::spec_round_up_4k(rd_len);
                    &&& forall|i: int|
                        0 <= i < old(low_mem)@.len() && !(BIOS_TABLE_BASE <= i < BIOS_TABLE_BASE
                            + 512 + 24 * (cores as int)) && !(ramdisk is Some && rd_base <= i
                            < rd_base + rd_len) ==> final(low_mem)@[i] == old(low_mem)@[i]
                    &&& (ramdisk is Some ==> forall|i: int|
                        0 <= i < rd_len ==> final(low_mem)@[rd_base + i] == ramdisk->0@[i])
                    &&& (ramdisk is Some ==> load.boot_params.hdr.ramdisk_image == (rd_base
                        as u64 & 0xffffffff) && load.boot_params.hdr.ramdisk_size == (rd_len
                        as u64 & 0xffffffff) && load.boot_params.hdr.root_dev == 0x100)
                })
                &&& load.seed.init_regs@ == seq![
                    (X86Reg::CR3, (high.start + pml4_off) as u64),
                    (X86Reg::GDT_BASE, (high.start + gdt_off) as u64),
                    (X86Reg::GDT_LIMIT, 0x1fu64),
                    (X86Reg::RFLAGS, FL_RSVD_1),
                    (X86Reg::RSI, (high.start + bp_off) as u64),
                    (X86Reg::RIP, (high.start + ENTRY_64) as u64),
                ]
                &&& final(low_mem)@.len() == old(low_mem)@.len()
            })
        }),
    {
    // Validate everything before touching guest memory, so a rejected
    // image leaves low memory as it was.
    let low_len = low_mem.size();
    let header = match parse_setup_header(kernel.as_slice()) {
        Ok(h) => h,
        Err(e) => {
            return Err(e);
        },
    };
    if header.boot_flag != MAGIC_AA55 {
        return Err(Error::Program("magic number missing: boot_flag is not 0xaa55".to_owned()));
    }
    if header.header != HDRS {
        return Err(Error::Program("magic number missing: header is not HdrS".to_owned()));
    }
    if header.version < 0x20c {
        return Err(Error::Program("kernel version too old".to_owned()));
    }
    if header.xloadflags & XLF_KERNEL_64 == 0 {
        return Err(Error::Program("kernel has no 64-bit entry point".to_owned()));
    }
    if header.xloadflags & XLF_CAN_BE_LOADED_ABOVE_4G == 0 {
        return Err(Error::Program("kernel cannot be loaded above 4 GiB".to_owned()));
    }
    if header.relocatable_kernel == 0 {
        return Err(Error::Program("kernel is not relocatable".to_owned()));
    }
    if header.kernel_alignment == 0 {
        return Err(Error::Program("kernel alignment is zero".to_owned()));
    }
    let alloc_room: u64 = (usize::MAX - crate::mach::ALLOC_BASE) as u64;
    if header.kernel_alignment as u64 > alloc_room || mem_size as u64 > alloc_room
        - header.kernel_alignment as u64 {
        return Err(Error::Program("kernel alignment too large for this host".to_owned()));
    }
    let setup_sects: usize = if header.setup_sects == 0 {
        4
    } else {
        header.setup_sects as usize
    };
    let kernel_offset: usize = (setup_sects + 1) * 512;
    if kernel_offset > kernel.len() {
        return Err(Error::Program("kernel image shorter than its setup sectors".to_owned()));
    }
    let payload_len: usize = kernel.len() - kernel_offset;
    let bp_offset = mem_size - PAGE_SIZE;
    let cmd_line_offset = bp_offset - PAGE_SIZE;
    let gdt_offset = cmd_line_offset - PAGE_SIZE;
    let pml4_offset = gdt_offset - PAGE_SIZE;
    let first_pdpt_offset = pml4_offset - PAGE_SIZE;
    if payload_len > first_pdpt_offset {
        return Err(Error::Program("kernel image does not fit in the high block".to_owned()));
    }
    let full_cmd = build_cmdline(cmd_line, virtio_devs);
    if full_cmd.len() > header.cmdline_size as usize || full_cmd.len() > PAGE_SIZE {
        return Err(Error::Program("command line exceeds the kernel's limit".to_owned()));
    }
    let rd_len: usize = match ramdisk {
        Some(rd) => rd.len(),
        None => 0,
    };
    if rd_len > low_len - MiB {
        return Err(Error::Program("ramdisk too large for low memory".to_owned()));
    }

    // The BIOS tables the kernel will look for, below the first megabyte.
    crate::bios::setup_bios_tables(cores, BIOS_TABLE_BASE, low_mem);
    let ghost after_bios = low_mem@;

    let mut high_mem = match MachVMBlock::new_aligned(mem_size, header.kernel_alignment as usize) {
        Ok(b) => b,
        Err(e) => {
            return Err(e);
        },
    };
    let high_start = high_mem.start;

    // Kernel payload at offset 0 of the high block.
    let payload = vstd::slice::slice_subrange(kernel.as_slice(), kernel_offset, kernel.len());
    high_mem.write_bytes(0, payload);
    let ghost after_kernel = high_mem@;

    // Command line.
    high_mem.fill_zero(cmd_line_offset, PAGE_SIZE);
    high_mem.write_bytes(cmd_line_offset, full_cmd.as_slice());
    let ghost after_cmd = high_mem@;

    // GDT: null, null, 64-bit code, data.
    high_mem.fill_zero(gdt_offset, PAGE_SIZE);
    high_mem.write_u64(0x00af9a000000ffff, gdt_offset + 16, 0);
    high_mem.write_u64(0x00cf92000000ffff, gdt_offset + 24, 0);
    let ghost after_gdt = high_mem@;

    // Identity paging: one PML4 entry to a PDPT of 512 1-GiB pages.
    let first_pdpt_base: usize = high_start + first_pdpt_offset;
    high_mem.fill_zero(pml4_offset, PAGE_SIZE);
    high_mem.write_u64(PG_P | PG_RW | first_pdpt_base as u64, pml4_offset, 0);
    let mut i: usize = 0;
    while i < 512
        invariant
            i <= 512,
            first_pdpt_offset + 2 * PAGE_SIZE <= high_mem@.len(),
            pml4_offset == first_pdpt_offset + PAGE_SIZE,
            high_mem.start == high_start,
            high_mem@.len() == after_gdt.len(),
            le64_at(high_mem@, pml4_offset as int) == PG_P | PG_RW | (high_start
                + first_pdpt_offset) as u64,
            forall|j: int|
                0 <= j < high_mem@.len() && !(first_pdpt_offset <= j < first_pdpt_offset + 8 * i)
                    && !(pml4_offset <= j < pml4_offset + PAGE_SIZE) ==> high_mem@[j]
                    == after_gdt[j],
            forall|j: int|
                0 <= j < i ==> #[trigger] pdpte_at(high_mem@, first_pdpt_offset as int, j) == ((j
                    as u64) << 30) | PG_P | PG_RW | PG_PS,
        decreases 512 - i,
    {
        let entry: u64 = ((i as u64) << 30) | PG_P | PG_RW | PG_PS;
        let ghost pre = high_mem@;
        high_mem.write_u64(entry, first_pdpt_offset, i);
        proof {
            assert(le64_at(high_mem@, pml4_offset as int) == le64_at(pre, pml4_offset as int));
            assert forall|j: int|
                0 <= j < i + 1 implies #[trigger] pdpte_at(high_mem@, first_pdpt_offset as int, j)
                == ((j as u64) << 30) | PG_P | PG_RW | PG_PS by {
                if j < i {
                    assert(pdpte_at(pre, first_pdpt_offset as int, j) == ((j as u64) << 30) | PG_P
                        | PG_RW | PG_PS);
                }
            }
        }
        i = i + 1;
    }
    let ghost after_paging = high_mem@;

    // Ramdisk at the top of low memory.
    let mut rd_base: usize = 0;
    let mut bp = BootParams {
        ext_ramdisk_image: 0,
        ext_ramdisk_size: 0,
        ext_cmd_line_ptr: 0,
        e820_entries: 0,
        e820_table: Vec::new(),
        hdr: header,
    };
    bp.hdr.type_of_loader = 0xff;
    match ramdisk {
        Some(rd) => {
            rd_base = low_len - crate::utils::round_up_4k(rd.len());
            low_mem.write_bytes(rd_base, rd.as_slice());
            bp.hdr.ramdisk_image = (rd_base as u64 & 0xffffffff) as u32;
            bp.ext_ramdisk_image = (rd_base as u64 >> 32) as u32;
            bp.hdr.ramdisk_size = (rd_len as u64 & 0xffffffff) as u32;
            bp.ext_ramdisk_size = (rd_len as u64 >> 32) as u32;
            bp.hdr.root_dev = 0x100;
            proof {
                let a = rd_base as u64;
                let b = rd_len as u64;
                assert(a & 0xffffffff <= 0xffffffff && b & 0xffffffff <= 0xffffffff)
                    by (bit_vector);
            }
        },
        None => {},
    }

    // Command-line pointer.
    let cmd_line_base: u64 = high_start as u64 + cmd_line_offset as u64;
    bp.hdr.cmd_line_ptr = (cmd_line_base & 0xffffffff) as u32;
    bp.ext_cmd_line_ptr = (cmd_line_base >> 32) as u32;

    // The e820 map.
    bp.e820_table.push(
        E820Entry { addr: 0, size: PAGE_SIZE as u64, entry_type: E820_RESERVED },
    );
    bp.e820_table.push(
        E820Entry {
            addr: PAGE_SIZE as u64,
            size: (0x10000 - PAGE_SIZE) as u64,
            entry_type: E820_RAM,
        },
    );
    bp.e820_table.push(
        E820Entry {
            addr: 0x10000,
            size: (MiB - 0x10000) as u64,
            entry_type: E820_RESERVED,
        },
    );
    bp.e820_table.push(
        E820Entry { addr: MiB as u64, size: (low_len - MiB) as u64, entry_type: E820_RAM },
    );
    bp.e820_table.push(
        E820Entry { addr: high_start as u64, size: mem_size as u64, entry_type: E820_RAM },
    );
    bp.e820_entries = 5;

    write_boot_params(&mut high_mem, bp_offset, &bp);

    // Initial registers for the bootstrap processor.
    let mut init_regs: Vec<(X86Reg, u64)> = Vec::new();
    init_regs.push((X86Reg::CR3, (high_start + pml4_offset) as u64));
    init_regs.push((X86Reg::GDT_BASE, (high_start + gdt_offset) as u64));
    init_regs.push((X86Reg::GDT_LIMIT, 0x1f));
    init_regs.push((X86Reg::RFLAGS, FL_RSVD_1));
    init_regs.push((X86Reg::RSI, (high_start + bp_offset) as u64));
    init_regs.push((X86Reg::RIP, (high_start + ENTRY_64) as u64));
    proof {
        assert(init_regs@ =~= seq![
            (X86Reg::CR3, (high_start + pml4_offset) as u64),
            (X86Reg::GDT_BASE, (high_start + gdt_offset) as u64),
            (X86Reg::GDT_LIMIT, 0x1fu64),
            (X86Reg::RFLAGS, FL_RSVD_1),
            (X86Reg::RSI, (high_start + bp_offset) as u64),
            (X86Reg::RIP, (high_start + ENTRY_64) as u64),
        ]);
    }

    proof {
        crate::vmx::lemma_and_zero();
    }
    let ctrl_pin = crate::vmx::gen_exec_ctrl(caps.pin, 0, 0);
    let ctrl_cpu = crate::vmx::gen_exec_ctrl(
        caps.cpu,
        crate::vmx::CPU_BASED_CR8_LOAD | crate::vmx::CPU_BASED_CR8_STORE,
        0,
    );
    let ctrl_cpu2 = crate::vmx::gen_exec_ctrl(
        caps.cpu2,
        crate::vmx::CPU_BASED2_RDTSCP | crate::vmx::CPU_BASED2_INVPCID,
        0,
    );
    let ctrl_entry = crate::vmx::gen_exec_ctrl(caps.entry, crate::vmx::VMENTRY_GUEST_IA32E, 0);
    let mut init_vmcs: Vec<(u32, u64)> = Vec::new();
    init_vmcs.push((crate::vmx::VMCS_GUEST_CS_AR, 0xa09b));
    init_vmcs.push((crate::vmx::VMCS_GUEST_CS_LIMIT, 0xffffffff));
    init_vmcs.push((crate::vmx::VMCS_GUEST_DS_AR, 0xc093));
    init_vmcs.push((crate::vmx::VMCS_GUEST_DS_LIMIT, 0xffffffff));
    init_vmcs.push((crate::vmx::VMCS_GUEST_ES_AR, 0xc093));
    init_vmcs.push((crate::vmx::VMCS_GUEST_ES_LIMIT, 0xffffffff));
    init_vmcs.push((crate::vmx::VMCS_GUEST_FS_AR, 0x93));
    init_vmcs.push((crate::vmx::VMCS_GUEST_GS_AR, 0x93));
    init_vmcs.push((crate::vmx::VMCS_GUEST_SS_AR, 0xc093));
    init_vmcs.push((crate::vmx::VMCS_GUEST_SS_LIMIT, 0xffffffff));
    init_vmcs.push((crate::vmx::VMCS_GUEST_LDTR_AR, 0x82));
    init_vmcs.push((crate::vmx::VMCS_GUEST_TR_AR, 0x8b));
    init_vmcs.push((crate::vmx::VMCS_CTRL_PIN_BASED, ctrl_pin));
    init_vmcs.push((crate::vmx::VMCS_CTRL_CPU_BASED, ctrl_cpu));
    init_vmcs.push((crate::vmx::VMCS_CTRL_CPU_BASED2, ctrl_cpu2));
    init_vmcs.push((crate::vmx::VMCS_CTRL_VMENTRY_CONTROLS, ctrl_entry));
    init_vmcs.push((crate::vmx::VMCS_CTRL_EXC_BITMAP, crate::vmx::EXC_BITMAP_ALL_BUT_BP_PF));
    init_vmcs.push((crate::vmx::VMCS_GUEST_CR0, 0x80000021));
    init_vmcs.push((crate::vmx::VMCS_CTRL_CR0_MASK, 0x80000001));
    init_vmcs.push((crate::vmx::VMCS_CTRL_CR0_SHADOW, 0x80000021));
    init_vmcs.push((crate::vmx::VMCS_GUEST_CR4, 0x2020));
    init_vmcs.push((crate::vmx::VMCS_CTRL_CR4_MASK, 0x2000));
    init_vmcs.push((crate::vmx::VMCS_CTRL_CR4_SHADOW, 0));
    init_vmcs.push((crate::vmx::VMCS_GUEST_IA32_EFER, 0x500));

    proof {
        assert(final(low_mem)@.subrange(BIOS_TABLE_BASE as int, BIOS_TABLE_BASE + 20)
            =~= after_bios.subrange(BIOS_TABLE_BASE as int, BIOS_TABLE_BASE + 20));
        assert(final(low_mem)@.subrange(BIOS_TABLE_BASE as int, BIOS_TABLE_BASE + 36)
            =~= after_bios.subrange(BIOS_TABLE_BASE as int, BIOS_TABLE_BASE + 36));
        assert(final(low_mem)@.subrange(BIOS_TABLE_BASE + 36, BIOS_TABLE_BASE + 144)
            =~= after_bios.subrange(BIOS_TABLE_BASE + 36, BIOS_TABLE_BASE + 144));
        assert(final(low_mem)@.subrange(BIOS_TABLE_BASE + 144, BIOS_TABLE_BASE + 420)
            =~= after_bios.subrange(BIOS_TABLE_BASE + 144, BIOS_TABLE_BASE + 420));
        assert(final(low_mem)@.subrange(
            BIOS_TABLE_BASE + 456,
            BIOS_TABLE_BASE + 512 + 24 * (cores as int),
        ) =~= after_bios.subrange(
            BIOS_TABLE_BASE + 456,
            BIOS_TABLE_BASE + 512 + 24 * (cores as int),
        ));
        let payload_len_g = kernel@.len() - (kernel_offset as int);
        assert forall|x: int| 0 <= x < payload_len_g implies high_mem@[x] == kernel@[kernel_offset
            + x] by {
            assert(high_mem@[x] == after_paging[x]);
            assert(after_paging[x] == after_gdt[x]);
            assert(after_gdt[x] == after_cmd[x]);
            assert(after_cmd[x] == after_kernel[x]);
            assert(after_kernel[x] == kernel@.subrange(kernel_offset as int, kernel@.len() as int)[x]);
        }
        let full_g = spec_full_cmdline(cmd_line@, virtio_devs@);
        assert forall|j: int|
            cmd_line_offset <= j < cmd_line_offset + full_g.len() implies high_mem@[j] == full_g[j
            - cmd_line_offset] by {
            assert(high_mem@[j] == after_paging[j]);
            assert(after_paging[j] == after_gdt[j]);
            assert(after_gdt[j] == after_cmd[j]);
            assert(after_cmd[j] == full_g[j - cmd_line_offset]);
        }
        assert(le64_at(high_mem@, gdt_offset + 16) == le64_at(after_paging, gdt_offset + 16));
        assert(le64_at(after_paging, gdt_offset + 16) == le64_at(after_gdt, gdt_offset + 16));
        assert(le64_at(high_mem@, gdt_offset + 24) == le64_at(after_paging, gdt_offset + 24));
        assert(le64_at(after_paging, gdt_offset + 24) == le64_at(after_gdt, gdt_offset + 24));
        assert(le64_at(high_mem@, pml4_offset as int) == le64_at(after_paging, pml4_offset as int));
        assert forall|j: int|
            0 <= j < 512 implies #[trigger] pdpte_at(high_mem@, first_pdpt_offset as int, j) == ((j
            as u64) << 30) | PG_P | PG_RW | PG_PS by {
            assert(pdpte_at(high_mem@, first_pdpt_offset as int, j) == pdpte_at(
                after_paging,
                first_pdpt_offset as int,
                j,
            ));
        }
        assert(bp.e820_table@ =~= seq![
            E820Entry { addr: 0, size: PAGE_SIZE as u64, entry_type: E820_RESERVED },
            E820Entry {
                addr: PAGE_SIZE as u64,
                size: (0x10000 - PAGE_SIZE) as u64,
                entry_type: E820_RAM,
            },
            E820Entry {
                addr: 0x10000,
                size: (MiB - 0x10000) as u64,
                entry_type: E820_RESERVED,
            },
            E820Entry { addr: MiB as u64, size: (low_len - MiB) as u64, entry_type: E820_RAM },
            E820Entry { addr: high_start as u64, size: mem_size as u64, entry_type: E820_RAM },
        ]);
    }
    let seed = VcpuSeed { init_regs, init_vmcs };
    Ok(LinuxLoad { high_mem, boot_params: bp, seed })
}

} // verus!
