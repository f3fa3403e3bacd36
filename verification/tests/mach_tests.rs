use xhype::mach::MachVMBlock;
use xhype::utils::round_up_4k;
use xhype::utils::round_down_4k;

#[test]
fn mach_vm_block_test() {
    let one_page = 4096;
    let start;
    let a: u32 = 1;
    let b: u32 = 2;
    {
        let mut mem_block = MachVMBlock::new_fixed(0x500000000, one_page).unwrap();
        start = mem_block.start;
        mem_block.write_u32(a, 0, 0);
        mem_block.write_u32(b, 0, 1);
        assert_eq!(mem_block.read_u32(0, 0), a);
        assert_eq!(mem_block.read_u32(0, 1), b);
        // mem_block is dropped here and the region is released.
    }
    // A fresh region at `start` reads as zero.
    let mem_block2 = MachVMBlock::new_fixed(start, one_page).unwrap();
    assert_eq!(mem_block2.read_u32(0, 0), 0);
    assert_eq!(mem_block2.read_u32(0, 1), 0);
}

#[test]
fn mach_mach_vm_block_test() {
    let one_page = 4096;
    let mut mem_block = MachVMBlock::new_fixed(0x500000000, one_page).unwrap();
    mem_block.write_u32(1, 0, 0);
    mem_block.write_u32(2, 0, 1);
    assert_eq!(mem_block.read_u32(0, 0), 1);
    assert_eq!(mem_block.read_u32(0, 1), 2);
}

#[test]
fn vm_block_index_test() {
    let mut block = MachVMBlock::new(4096).unwrap();
    block.write_u8(4, 0, 0);
    assert_eq!(block.read_u8(0, 0), 4);
    assert_eq!(block.read_bytes(0, 2), [4, 0]);
}

#[test]
fn round_up_4k_test_small() {
    assert_eq!(round_up_4k(0), 0);
    assert_eq!(round_up_4k(1), 4096);
    assert_eq!(round_up_4k(4095), 4096);
    assert_eq!(round_up_4k(4096), 4096);
    assert_eq!(round_up_4k(4097), 8192);
}

#[test]
fn round_up_4k_test_big() {
    assert_eq!(round_up_4k(usize::MAX & !0xFFF), usize::MAX & !0xFFF);
    assert_eq!(round_up_4k(usize::MAX - 4095), usize::MAX & !0xFFF);
    assert_eq!(round_up_4k(usize::MAX - 4096), usize::MAX & !0xFFF);
    assert_eq!(round_up_4k(usize::MAX - 4097), usize::MAX & !0xFFF);
}

#[test]
fn round_down_4k_test() {
    assert_eq!(round_down_4k(0), 0);
    assert_eq!(round_down_4k(4095), 0);
    assert_eq!(round_down_4k(4096), 4096);
    assert_eq!(round_down_4k(8191), 4096);
}

#[test]
fn aligned_block_test() {
    let block = MachVMBlock::new_aligned(8192, 0x200000).unwrap();
    assert_eq!(block.start % 0x200000, 0);
    assert!(block.start > 0);
}

#[test]
fn write_bytes_roundtrip_test() {
    let mut block = MachVMBlock::new(4096).unwrap();
    block.write_bytes(16, &[1, 2, 3, 4]);
    assert_eq!(block.read_bytes(16, 4), vec![1, 2, 3, 4]);
    block.write_u64(0x1122334455667788, 32, 0);
    assert_eq!(block.read_u64(32, 0), 0x1122334455667788);
    assert_eq!(block.read_u8(32, 0), 0x88);
    assert_eq!(block.read_u8(32, 7), 0x11);
    block.write_u16(0xbeef, 48, 0);
    assert_eq!(block.read_u16(48, 0), 0xbeef);
}
