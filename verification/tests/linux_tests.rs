use xhype::linux::load_linux64;
use xhype::linux::parse_setup_header;
use xhype::linux::E820Entry;
use xhype::linux::E820_RAM;
use xhype::linux::E820_RESERVED;
use xhype::mach::MachVMBlock;
use xhype::vmx::VmxCapSet;
use xhype::vmx::X86Reg;

// A capability set that allows everything and forces nothing.
fn permissive_caps() -> VmxCapSet {
    VmxCapSet { pin: 0xffffffff << 32, cpu: 0xffffffff << 32, cpu2: 0xffffffff << 32, entry: 0xffffffff << 32 }
}

fn test_kernel(setup_sects: u8) -> Vec<u8> {
    let mut k = vec![0u8; 0x1f1 + 123];
    k[0x1f1] = setup_sects;
    k[0x1fe] = 0x55;
    k[0x1ff] = 0xaa; // boot_flag 0xaa55
    k[0x202..0x206].copy_from_slice(&0x53726448u32.to_le_bytes()); // "HdrS"
    k[0x206..0x208].copy_from_slice(&0x020cu16.to_le_bytes()); // version 2.12
    k[0x230..0x234].copy_from_slice(&0x200000u32.to_le_bytes()); // 2 MiB alignment
    k[0x234] = 1; // relocatable
    k[0x236..0x238].copy_from_slice(&3u16.to_le_bytes()); // XLF bits 0 and 1
    k[0x238..0x23c].copy_from_slice(&2048u32.to_le_bytes()); // cmdline_size
    // The protected-mode payload: (setup_sects + 1) * 512 bytes in, 64 bytes long.
    let payload_off = (setup_sects as usize + 1) * 512;
    k.resize(payload_off + 64, 0);
    k[payload_off] = 0x90;
    k
}

// Loading a kernel with setup_sects = 2, the magic boot flag, "HdrS",
// version 2.12, both XLF bits and a relocatable image builds five e820
// entries: the reserved first page, low RAM to 64 KiB, the fixed
// reserved region from 64 KiB to one megabyte, then RAM above it.
#[test]
fn linux_e820_layout_test() {
    let kernel = test_kernel(2);
    let mut low_mem = MachVMBlock::new(2 << 20).unwrap();
    let caps = permissive_caps();
    let load = load_linux64(
        &kernel,
        None,
        &b"auto".to_vec(),
        &Vec::new(),
        1 << 20,
        &mut low_mem,
        1,
        &caps,
    )
    .unwrap();
    let bp = &load.boot_params;
    assert_eq!(bp.e820_entries, 5);
    assert_eq!(bp.e820_table.len(), 5);
    assert_eq!(bp.e820_table[0], E820Entry { addr: 0, size: 0x1000, entry_type: E820_RESERVED });
    assert_eq!(bp.e820_table[1], E820Entry { addr: 0x1000, size: 0xf000, entry_type: E820_RAM });
    assert_eq!(
        bp.e820_table[2],
        E820Entry { addr: 0x10000, size: 0xf0000, entry_type: E820_RESERVED }
    );
    assert_eq!(
        bp.e820_table[3],
        E820Entry { addr: 0x100000, size: 1 << 20, entry_type: E820_RAM }
    );
    assert_eq!(bp.e820_table[4].entry_type, E820_RAM);
    assert_eq!(bp.e820_table[4].addr, load.high_mem.start as u64);
    // The kernel payload landed at the base of the high block.
    assert_eq!(load.high_mem.read_u8(0, 0), 0x90);
    // The loader seeds RIP at the 64-bit entry point.
    let rip = load
        .seed
        .init_regs
        .iter()
        .find(|(r, _)| *r == X86Reg::RIP)
        .unwrap()
        .1;
    assert_eq!(rip, (load.high_mem.start + 0x200) as u64);
    // The boot-params page records five entries as well.
    let bp_off = (1 << 20) - 4096;
    assert_eq!(load.high_mem.read_u8(bp_off + 0x1e8, 0), 5);
    // The loader laid the BIOS tables down in low memory: the RSDP at
    // 0xe0000 checksums to zero and carries its signature.
    assert_eq!(low_mem.read_bytes(0xe0000, 8), b"RSD PTR ".to_vec());
    let rsdp = low_mem.read_bytes(0xe0000, 20);
    assert_eq!(xhype::bios::acpi_tb_checksum(&rsdp), 0);
    let madt = low_mem.read_bytes(0xe0000 + 456, 80);
    assert_eq!(xhype::bios::acpi_tb_checksum(&madt), 0);
}

#[test]
fn linux_rejects_bad_magic_test() {
    let mut kernel = test_kernel(2);
    kernel[0x1fe] = 0;
    let mut low_mem = MachVMBlock::new(1 << 20).unwrap();
    let caps = permissive_caps();
    let r = load_linux64(&kernel, None, &Vec::new(), &Vec::new(), 1 << 20, &mut low_mem, 1, &caps);
    assert!(r.is_err());
}

#[test]
fn linux_rejects_old_version_test() {
    let mut kernel = test_kernel(2);
    kernel[0x206..0x208].copy_from_slice(&0x0200u16.to_le_bytes());
    let mut low_mem = MachVMBlock::new(1 << 20).unwrap();
    let caps = permissive_caps();
    let r = load_linux64(&kernel, None, &Vec::new(), &Vec::new(), 1 << 20, &mut low_mem, 1, &caps);
    assert!(r.is_err());
}

#[test]
fn setup_header_parse_test() {
    let kernel = test_kernel(4);
    let h = parse_setup_header(&kernel).unwrap();
    assert_eq!(h.setup_sects, 4);
    assert_eq!(h.boot_flag, 0xaa55);
    assert_eq!(h.header, 0x53726448);
    assert_eq!(h.version, 0x020c);
    assert_eq!(h.kernel_alignment, 0x200000);
    assert_eq!(h.relocatable_kernel, 1);
    assert_eq!(h.xloadflags, 3);
    // A truncated image cannot be parsed.
    assert!(parse_setup_header(&kernel[..0x100]).is_err());
}

#[test]
fn linux_ramdisk_placed_high_test() {
    let kernel = test_kernel(2);
    let ramdisk = vec![0xabu8; 8192];
    let mut low_mem = MachVMBlock::new(2 << 20).unwrap();
    let caps = permissive_caps();
    let load = load_linux64(
        &kernel,
        Some(&ramdisk),
        &Vec::new(),
        &Vec::new(),
        1 << 20,
        &mut low_mem,
        1,
        &caps,
    )
    .unwrap();
    // The ramdisk sits at the top of low memory.
    let rd_base = (2 << 20) - 8192;
    assert_eq!(low_mem.read_u8(rd_base, 0), 0xab);
    assert_eq!(load.boot_params.hdr.ramdisk_image, rd_base as u32);
    assert_eq!(load.boot_params.hdr.ramdisk_size, 8192);
    assert_eq!(load.boot_params.hdr.root_dev, 0x100);
}
