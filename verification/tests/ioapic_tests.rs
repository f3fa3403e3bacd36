use xhype::ioapic::IoApic;

#[test]
fn ioapic_register_window_test() {
    let mut ioapic = IoApic::new();
    // Select the version register and read it through the window.
    ioapic.write(0, 1);
    assert_eq!(ioapic.read(0), 1);
    assert_eq!(ioapic.read(0x10), (24 << 16) | 0x11);
    // The id register is writable.
    ioapic.write(0, 0);
    ioapic.write(0x10, 7);
    assert_eq!(ioapic.read(0x10), 7);
    // Unknown registers read as all-ones.
    ioapic.write(0, 5);
    assert_eq!(ioapic.read(0x10), u32::MAX);
}

// With the redirection entry for IRQ 4 set to vector 0x24 and physical
// destination 0, routing IRQ 4 delivers vector 0x24 to vCPU 0 exactly
// once.
#[test]
fn ioapic_physical_delivery_test() {
    let mut ioapic = IoApic::new();
    // Low dword of entry 4 (register 0x10 + 2*4): vector 0x24, physical
    // mode; high dword: destination 0.
    ioapic.write(0, 0x10 + 8);
    ioapic.write(0x10, 0x24);
    ioapic.write(0, 0x10 + 9);
    ioapic.write(0x10, 0);
    let delivery = ioapic.route(4);
    assert_eq!(delivery.vector, 0x24);
    assert_eq!(delivery.targets, vec![0usize]);
    assert_eq!(delivery.targets.len(), 1);
}

#[test]
fn ioapic_logical_delivery_test() {
    let mut ioapic = IoApic::new();
    // Entry 2: vector 0x30, logical mode (bit 11), destination bits 0 and 2.
    ioapic.write(0, 0x10 + 4);
    ioapic.write(0x10, 0x30 | (1 << 11));
    ioapic.write(0, 0x10 + 5);
    ioapic.write(0x10, 0b101 << 24);
    let delivery = ioapic.route(2);
    assert_eq!(delivery.vector, 0x30);
    assert_eq!(delivery.targets, vec![0usize, 2usize]);
}
