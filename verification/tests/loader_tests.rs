use xhype::mach::MachVMBlock;
use xhype::multiboot::find_header;
use xhype::multiboot::multiboot;
use xhype::multiboot::MAGIC1;
use xhype::utils::dec_bytes;
use xhype::utils::hex_bytes;
use xhype::utils::parse_msr_policy;
use xhype::utils::parse_port_policy;
use xhype::vmx::passthrough_msrs;
use xhype::vmx::VmxCapSet;
use xhype::vmx::X86Reg;
use xhype::vthread::VThread;
use xhype::MsrPolicy;
use xhype::PolicyList;
use xhype::PortPolicy;

fn permissive_caps() -> VmxCapSet {
    VmxCapSet { pin: 0xffffffff << 32, cpu: 0xffffffff << 32, cpu2: 0xffffffff << 32, entry: 0xffffffff << 32 }
}

fn multiboot_image() -> Vec<u8> {
    let mut k = vec![0u8; 1024];
    // Header at offset 64: magic, flags 0, checksum balancing the sum.
    let flags: u32 = 0;
    let checksum = 0u32.wrapping_sub(MAGIC1).wrapping_sub(flags);
    k[64..68].copy_from_slice(&MAGIC1.to_le_bytes());
    k[68..72].copy_from_slice(&flags.to_le_bytes());
    k[72..76].copy_from_slice(&checksum.to_le_bytes());
    k[0] = 0xeb; // some code at the load address
    k
}

#[test]
fn multiboot_header_scan_test() {
    let image = multiboot_image();
    let (pos, header) = find_header(&image).unwrap();
    assert_eq!(pos, 64);
    assert_eq!(header.magic, MAGIC1);
    assert_eq!(header.flags, 0);
    // An image without the magic is refused.
    assert!(find_header(&[0u8; 512]).is_err());
}

#[test]
fn multiboot_load_test() {
    let image = multiboot_image();
    let mut low_mem = MachVMBlock::new(2 << 20).unwrap();
    let caps = permissive_caps();
    let load = multiboot(&image, &mut low_mem, 0x100000, 0x100000, 1, &caps).unwrap();
    assert_eq!(load.info.mem_lower, 64);
    assert_eq!(load.info.mem_upper, 1024); // (2 MiB - 1 MiB) / 1 KiB
    assert_eq!(load.info.mmap_length, 48);
    assert_eq!(load.mbi_addr, 0x100000 + 4096);
    // The image landed at its load address.
    assert_eq!(low_mem.read_u8(0x100000, 0), 0xeb);
    // The register seed carries the magic and the info address.
    assert_eq!(load.seed.init_regs[0], (X86Reg::RAX, MAGIC1 as u64));
    assert_eq!(load.seed.init_regs[1], (X86Reg::RBX, load.mbi_addr as u64));
    // The memory map: low 64 KiB RAM, then RAM above 1 MiB.
    let mmap = load.info.mmap_addr as usize;
    assert_eq!(low_mem.read_u64(mmap + 4, 0), 0);
    assert_eq!(low_mem.read_u64(mmap + 12, 0), 0x10000);
    assert_eq!(low_mem.read_u64(mmap + 24 + 4, 0), 1 << 20);
    assert_eq!(low_mem.read_u64(mmap + 24 + 12, 0), 1 << 20);
}

#[test]
fn multiboot_bad_checksum_test() {
    let mut image = multiboot_image();
    image[72] = image[72].wrapping_add(1);
    let mut low_mem = MachVMBlock::new(2 << 20).unwrap();
    let caps = permissive_caps();
    assert!(multiboot(&image, &mut low_mem, 0x100000, 0x100000, 1, &caps).is_err());
}

#[test]
fn vthread_stage_test() {
    let caps = permissive_caps();
    let vth = VThread::new(40960, 0x401000, 0x402000, &caps).unwrap();
    // The top of the stack returns into the halt routine.
    assert_eq!(vth.stack.read_u64(40960 - 8, 0), 0x402000);
    // The PML4 points at the PDPT page, which identity-maps 1 GiB pages.
    assert_eq!(vth.paging.read_u64(0, 0), 1 | 2 | (vth.paging.start + 4096) as u64);
    assert_eq!(vth.paging.read_u64(4096, 0), 1 | 2 | 0x80);
    assert_eq!(vth.paging.read_u64(4096, 5), (5u64 << 30) | 1 | 2 | 0x80);
    // The register seed enters at the function with the staged stack.
    assert_eq!(vth.seed.init_regs[0], (X86Reg::RIP, 0x401000));
    assert_eq!(
        vth.seed.init_regs[2],
        (X86Reg::RSP, (vth.stack.start + 40960 - 8) as u64)
    );
    assert_eq!(vth.seed.init_regs[3], (X86Reg::CR3, vth.paging.start as u64));
}

#[test]
fn passthrough_msr_list_test() {
    let msrs = passthrough_msrs();
    assert_eq!(msrs.len(), 12);
    assert!(msrs.contains(&0xc0000082)); // LSTAR
    assert!(msrs.contains(&0x174)); // SYSENTER_CS
    assert!(msrs.contains(&0x10)); // TSC
}

#[test]
fn policy_parsing_test() {
    // The default policy comes back for a string without two semicolons.
    let (p, l) = parse_port_policy("").unwrap();
    assert!(matches!(p, PortPolicy::AllOne));
    assert!(matches!(l, PolicyList::Except(v) if v.is_empty()));
    // A full port policy.
    let (p, l) = parse_port_policy("random;apply;21,a1,60").unwrap();
    assert!(matches!(p, PortPolicy::Random));
    match l {
        PolicyList::Apply(v) => assert_eq!(v, vec![0x21, 0xa1, 0x60]),
        _ => panic!("expected an apply list"),
    }
    // A full MSR policy; malformed numbers read as zero.
    let (p, l) = parse_msr_policy("gp;except;64e,xyz").unwrap();
    assert!(matches!(p, MsrPolicy::GP));
    match l {
        PolicyList::Except(v) => assert_eq!(v, vec![0x64e, 0]),
        _ => panic!("expected an except list"),
    }
    // An unknown keyword is an error.
    assert!(parse_port_policy("sometimes;apply;1").is_err());
}

#[test]
fn byte_formatting_test() {
    assert_eq!(hex_bytes(0x1a2b), b"1a2b".to_vec());
    assert_eq!(hex_bytes(0), b"0".to_vec());
    assert_eq!(dec_bytes(105), b"105".to_vec());
    assert_eq!(dec_bytes(0), b"0".to_vec());
}
