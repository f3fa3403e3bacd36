use xhype::pci::ConfigAddr;
use xhype::pci::PciBus;
use xhype::rtc::DateParts;
use xhype::rtc::Rtc;
use xhype::serial::Serial;
use xhype::vmexit::classify_port;
use xhype::vmexit::handle_cpuid;
use xhype::vmexit::handle_cr;
use xhype::vmexit::inject_exception;
use xhype::vmexit::pci_data_shift;
use xhype::vmexit::ExitQualIO;
use xhype::vmexit::PortTarget;
use xhype::vmx::cap2ctrl;
use xhype::vmx::gen_exec_ctrl;

#[test]
fn serial_fifo_test() {
    let mut com1 = Serial::new(4);
    // Empty FIFO: LSR data-ready clear, transmitter empty set.
    let lsr = com1.read(5);
    assert_eq!(lsr & 1, 0);
    assert_ne!(lsr & 0x20, 0);
    assert_eq!(com1.read(2), 2); // room available
    com1.push_input(b'a');
    com1.push_input(b'b');
    assert_eq!(com1.read(2), 4); // data available
    assert_ne!(com1.read(5) & 1, 0);
    assert_eq!(com1.read(0), b'a');
    assert_eq!(com1.read(0), b'b');
    assert_eq!(com1.read(0), 0xff); // drained
}

#[test]
fn serial_transmit_and_divisor_test() {
    let mut com1 = Serial::new(4);
    // A transmit-register store hands the byte back for the host to print.
    assert_eq!(com1.write(0, b'x'), Some(b'x'));
    // Under DLAB the same offsets reach the divisor latch.
    com1.write(3, 0x80);
    assert_eq!(com1.write(0, 0x34), None);
    assert_eq!(com1.write(1, 0x12), None);
    assert_eq!(com1.read(0), 0x34);
    assert_eq!(com1.read(1), 0x12);
    com1.write(3, 0x03);
    assert_eq!(com1.read(3), 0x03);
}

#[test]
fn pci_host_bridge_test() {
    let mut bus = PciBus::new();
    // Device 0:0.0, register 0: the host bridge identifies itself.
    bus.config_addr = ConfigAddr(0x80000000);
    assert_eq!(bus.read(), 0x71908086);
    bus.config_addr = ConfigAddr(0x80000004);
    assert_eq!(bus.read(), 0x02000006);
    bus.config_addr = ConfigAddr(0x80000008);
    assert_eq!(bus.read(), 0x06000001);
    // An absent device reads as all-ones.
    bus.config_addr = ConfigAddr(0x80000800);
    assert_eq!(bus.read(), u32::MAX);
    // Narrow reads pick their byte lane.
    assert_eq!(pci_data_shift(0x71908086, 0xcfe, 2), 0x7190);
    assert_eq!(pci_data_shift(0x71908086, 0xcfd, 1), 0x719080);
}

#[test]
fn config_addr_fields_test() {
    let addr = ConfigAddr(0x80001234);
    assert!(addr.enabled());
    assert_eq!(addr.bdf(), 0x12);
    assert_eq!(addr.offset(), 0x34);
}

#[test]
fn rtc_registers_test() {
    let t = DateParts { second: 30, minute: 45, hour: 13, weekday: 3, day: 17, month: 9, year: 2024 };
    assert_eq!(Rtc { reg: 0x00 }.read_at(&t), 30);
    assert_eq!(Rtc { reg: 0x02 }.read_at(&t), 45);
    assert_eq!(Rtc { reg: 0x04 }.read_at(&t), 13);
    assert_eq!(Rtc { reg: 0x06 }.read_at(&t), 3);
    assert_eq!(Rtc { reg: 0x07 }.read_at(&t), 17);
    assert_eq!(Rtc { reg: 0x08 }.read_at(&t), 9);
    assert_eq!(Rtc { reg: 0x09 }.read_at(&t), 24);
    assert_eq!(Rtc { reg: 0x0a }.read_at(&t), 0x26);
    assert_eq!(Rtc { reg: 0x0b }.read_at(&t), 0x02);
    assert_eq!(Rtc { reg: 0x42 }.read_at(&t), 0xff);
}

// The clock wrapper feeds the registers: mode registers are fixed, and
// a live seconds reading stays in its documented range.
#[test]
fn rtc_live_read_test() {
    assert_eq!(Rtc { reg: 0x0a }.read(), 0x26);
    assert_eq!(Rtc { reg: 0x0b }.read(), 0x02);
    assert!(Rtc { reg: 0x00 }.read() <= 59);
    assert!((1..=12).contains(&Rtc { reg: 0x08 }.read()));
}

#[test]
fn port_routing_test() {
    assert_eq!(classify_port(0x70), PortTarget::RtcReg);
    assert_eq!(classify_port(0x71), PortTarget::RtcData);
    assert_eq!(classify_port(0x3f8), PortTarget::Com1(0));
    assert_eq!(classify_port(0x3fd), PortTarget::Com1(5));
    assert_eq!(classify_port(0xcf8), PortTarget::PciConfigAddr);
    assert_eq!(classify_port(0xcfe), PortTarget::PciConfigData(2));
    assert_eq!(classify_port(0x21), PortTarget::Other);
}

#[test]
fn io_exit_qualification_test() {
    // Size 2, an `in`, port 0x3f8.
    let q = ExitQualIO((0x3f8 << 16) | (1 << 3) | 1);
    assert_eq!(q.size(), 2);
    assert!(q.is_in());
    assert_eq!(q.port(), 0x3f8);
}

#[test]
fn cpuid_leaf1_test() {
    let host = (0x000906ea, 0x01100800, 0x7ffafbff, 0xbfebfbff);
    let (_, ebx, ecx, _) = handle_cpuid(1, 0, host, 1, 0, 0, true);
    // The topology byte names one core and APIC id zero.
    assert_eq!(ebx >> 16, 1);
    // The hypervisor bit is set and MONITOR is hidden.
    assert_ne!(ecx & (1 << 31), 0);
    assert_eq!(ecx & (1 << 3), 0);
    // Performance-monitoring leaf vanishes.
    assert_eq!(handle_cpuid(0xa, 0, host, 1, 0, 0, true), (0, 0, 0, 0));
    // The hypervisor leaf names itself as the highest one.
    let (eax, _, _, _) = handle_cpuid(0x40000000, 0, host, 1, 0, 0, true);
    assert_eq!(eax, 0x40000000);
}

#[test]
fn exception_injection_fields_test() {
    // #GP(0) carries an error code: two VMCS writes, type 3, bit 11 set.
    let writes = inject_exception(13, 3, Some(0));
    assert_eq!(writes, vec![(0x4018, 0), (0x4016, (1 << 31) | 13 | (3 << 8) | (1 << 11))]);
    // A soft exception without a code is a single write.
    let writes = inject_exception(3, 6, None);
    assert_eq!(writes, vec![(0x4016, (1 << 31) | 3 | (6 << 8))]);
}

#[test]
fn cr_moves_test() {
    // A move to CR0 forces the numeric-error bit and mirrors the shadow.
    let effect = handle_cr(0, 0x8000_0011, 0x8000_0031, 0x2020, 0x100, 0).unwrap();
    assert_eq!(effect.value, 0x8000_0031);
    assert_eq!(effect.shadow, Some((0x6004, 0x8000_0031)));
    // With PE, PG, PAE and LME all set, long mode activates.
    assert_eq!(effect.efer, Some(0x500));
    assert!(effect.set_tr_ar);
    // A move from a control register is not implemented.
    match handle_cr(0x10, 0, 0, 0, 0, 0) {
        Err(xhype::err::Error::Unhandled(reason, _)) => assert_eq!(reason, 28),
        _ => panic!("expected an unhandled-exit error"),
    }
    // CR8 is not implemented either.
    assert!(handle_cr(8, 0, 0, 0, 0, 0).is_err());
}

// For a valid capability and disjoint settings, the resolved control
// stays within the allowed bits and keeps every must-be-one bit.
#[test]
fn gen_exec_ctrl_bounds_test() {
    let cap: u64 = (0xfff7 << 32) | 0x0013;
    let one: u64 = 0x84;
    let zero: u64 = 0x40;
    let ctrl = gen_exec_ctrl(cap, one, zero);
    assert_eq!(ctrl, 0x97);
    assert_eq!(ctrl & !(cap >> 32), 0);
    assert_eq!(ctrl & (cap & 0xffffffff), cap & 0xffffffff);
    assert_eq!(ctrl & zero, 0);
    assert_eq!(cap2ctrl(cap, 0x84), 0x97);
}
