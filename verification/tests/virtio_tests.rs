use xhype::mach::MachVMBlock;
use xhype::virtio::rng_serve_avail_slot;
use xhype::virtio::VirtioAction;
use xhype::virtio::VirtioDevice;
use xhype::virtio::VirtioMmioDev;
use xhype::virtio::VIRTIO_MMIO_DEVICE_ID;
use xhype::virtio::VIRTIO_MMIO_DRIVER_FEATURES;
use xhype::virtio::VIRTIO_MMIO_DRIVER_FEATURES_SEL;
use xhype::virtio::VIRTIO_MMIO_MAGIC_VALUE;
use xhype::virtio::VIRTIO_MMIO_QUEUE_NUM_MAX;
use xhype::virtio::VIRTIO_MMIO_QUEUE_READY;
use xhype::virtio::VIRTIO_MMIO_QUEUE_SEL;
use xhype::virtio::VIRTIO_MMIO_STATUS;
use xhype::virtio::VIRTIO_MMIO_VENDOR_ID;
use xhype::virtio::VIRTIO_MMIO_VERSION;
use xhype::virtq::AddressConverter;
use xhype::virtq::Virtq;
use xhype::virtq::VirtqHva;
use xhype::virtq::VIRTQ_AVAIL_HEADER_SIZE;
use xhype::virtq::VIRTQ_DESC_SIZE;
use xhype::virtq::VIRTQ_USED_ELEM_SIZE;

#[test]
fn virtq_struct_size_test() {
    assert_eq!(VIRTQ_USED_ELEM_SIZE, 8);
    assert_eq!(VIRTQ_DESC_SIZE, 16);
}

#[test]
fn virto_struct_test() {
    assert_eq!(VIRTQ_DESC_SIZE, 16);
    assert_eq!(VIRTQ_AVAIL_HEADER_SIZE, 4);
}

fn rng_dev(addr: usize) -> VirtioMmioDev {
    VirtioMmioDev { addr, dev: VirtioDevice::new_rng("entropy".to_string(), 6) }
}

#[test]
fn virtio_mmio_identity_test() {
    let dev = rng_dev(0x40000000);
    assert_eq!(dev.read(0x40000000 + VIRTIO_MMIO_MAGIC_VALUE, 4), 0x74726976);
    assert_eq!(dev.read(0x40000000 + VIRTIO_MMIO_VERSION, 4), 2);
    assert_eq!(dev.read(0x40000000 + VIRTIO_MMIO_DEVICE_ID, 4), 4);
    assert_eq!(dev.read(0x40000000 + VIRTIO_MMIO_VENDOR_ID, 4), 0x52414b41);
    assert_eq!(dev.read(0x40000000 + VIRTIO_MMIO_QUEUE_NUM_MAX, 4), 64);
}

// Driver handshake: ACKNOWLEDGE, DRIVER, then FEATURES_OK succeeds when
// the driver accepted VIRTIO_F_VERSION_1 (feature bit 32), and loses the
// FEATURES_OK bit when it did not.
#[test]
fn virtio_status_handshake_test() {
    let base = 0x40000000;
    let mut dev = rng_dev(base);
    dev.write(base + VIRTIO_MMIO_STATUS, 4, 1);
    assert_eq!(dev.read(base + VIRTIO_MMIO_STATUS, 4), 1);
    dev.write(base + VIRTIO_MMIO_STATUS, 4, 3);
    assert_eq!(dev.read(base + VIRTIO_MMIO_STATUS, 4), 3);
    // Accept the high feature half holding bit 32.
    dev.write(base + VIRTIO_MMIO_DRIVER_FEATURES_SEL, 4, 1);
    dev.write(base + VIRTIO_MMIO_DRIVER_FEATURES, 4, 1);
    dev.write(base + VIRTIO_MMIO_STATUS, 4, 11);
    assert_eq!(dev.read(base + VIRTIO_MMIO_STATUS, 4), 11);

    // The same sequence without the feature bit clears FEATURES_OK.
    let mut dev2 = rng_dev(base);
    dev2.write(base + VIRTIO_MMIO_STATUS, 4, 1);
    dev2.write(base + VIRTIO_MMIO_STATUS, 4, 3);
    dev2.write(base + VIRTIO_MMIO_STATUS, 4, 11);
    assert_eq!(dev2.read(base + VIRTIO_MMIO_STATUS, 4), 3);
}

#[test]
fn virtio_queue_ready_actions_test() {
    let base = 0x40000000;
    let mut dev = rng_dev(base);
    dev.write(base + VIRTIO_MMIO_QUEUE_SEL, 4, 0);
    match dev.write(base + VIRTIO_MMIO_QUEUE_READY, 4, 1) {
        VirtioAction::QueueStart(q, _) => assert_eq!(q, 0),
        _ => panic!("expected a queue start"),
    }
    assert_eq!(dev.read(base + VIRTIO_MMIO_QUEUE_READY, 4), 1);
    match dev.write(base + VIRTIO_MMIO_QUEUE_READY, 4, 0) {
        VirtioAction::QueueStop(q) => assert_eq!(q, 0),
        _ => panic!("expected a queue stop"),
    }
}

// For every used-ring entry the entropy worker emits, the length equals
// the byte sum of the chain's buffers.
#[test]
fn virtq_used_len_test() {
    let mut mem = MachVMBlock::new(0x10000).unwrap();
    let start = mem.start;
    let virtq = VirtqHva { num: 8, desc: start + 0x1000, avail: start + 0x2000, used: start + 0x3000 };
    // Two writable descriptors chained: 96 bytes at 0x4000, 32 at 0x5000.
    mem.write_u64((start + 0x4000) as u64, 0x1000, 0); // addr
    mem.write_u32(96, 0x1000 + 8, 0); // len
    mem.write_u16(2 | 1, 0x1000 + 12, 0); // WRITE | NEXT
    mem.write_u16(1, 0x1000 + 14, 0); // next -> descriptor 1
    mem.write_u64((start + 0x5000) as u64, 0x1010, 0);
    mem.write_u32(32, 0x1010 + 8, 0);
    mem.write_u16(2, 0x1010 + 12, 0); // WRITE, end of chain
    mem.write_u16(0, 0x1010 + 14, 0);
    // Available ring: slot 0 names descriptor 0.
    mem.write_u16(0, 0x2000 + 4, 0);
    // Used ring index starts at 0.
    mem.write_u16(0, 0x3000 + 2, 0);
    let conv = AddressConverter { low_mem_start: 0, low_mem_size: 0 };
    let (head, written) = rng_serve_avail_slot(&virtq, &mut mem, 0, &conv).unwrap();
    assert_eq!(head, 0);
    assert_eq!(written, 128);
    // The used-ring element is (id = head, len = bytes written).
    assert_eq!(mem.read_u32(0x3000 + 4, 0), 0);
    assert_eq!(mem.read_u32(0x3000 + 8, 0), 128);
    assert_eq!(mem.read_u16(0x3000 + 2, 0), 1);
}

#[test]
fn virtq_chain_order_rejected_test() {
    let mut mem = MachVMBlock::new(0x10000).unwrap();
    let start = mem.start;
    let virtq = VirtqHva { num: 8, desc: start + 0x1000, avail: start + 0x2000, used: start + 0x3000 };
    // A writable descriptor followed by a readable one breaks the rules.
    mem.write_u64((start + 0x4000) as u64, 0x1000, 0);
    mem.write_u32(16, 0x1000 + 8, 0);
    mem.write_u16(2 | 1, 0x1000 + 12, 0);
    mem.write_u16(1, 0x1000 + 14, 0);
    mem.write_u64((start + 0x5000) as u64, 0x1010, 0);
    mem.write_u32(16, 0x1010 + 8, 0);
    mem.write_u16(0, 0x1010 + 12, 0); // readable after writable
    mem.write_u16(0, 0x1010 + 14, 0);
    mem.write_u16(0, 0x2000 + 4, 0);
    let conv = AddressConverter { low_mem_start: 0, low_mem_size: 0 };
    assert!(virtq.get_desc_chain(&mem, 0, &conv).is_err());
}

#[test]
fn virtq_new_test() {
    let q = Virtq::new(64);
    assert_eq!(q.num, 64);
    assert_eq!(q.desc, 0);
    let conv = AddressConverter { low_mem_start: 0x1000, low_mem_size: 0x100 };
    let h = Virtq { num: 4, desc: 0x10, avail: 0x200, used: 0x300 }.to_hva(&conv);
    assert_eq!(h.desc, 0x1010); // inside low memory: rebased
    assert_eq!(h.avail, 0x200); // outside: identity
}
