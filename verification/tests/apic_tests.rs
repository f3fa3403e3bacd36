use xhype::apic::Apic;
use xhype::apic::InjectAction;
use xhype::apic::OFFSET_DCR;
use xhype::apic::OFFSET_EOI;
use xhype::apic::OFFSET_ID;
use xhype::apic::OFFSET_INIT_COUNT;
use xhype::apic::OFFSET_LVT_TIMER;
use xhype::apic::OFFSET_SVR;
use xhype::apic::OFFSET_TPR;
use xhype::apic::OFFSET_VER;

fn fresh_apic() -> Apic {
    // 1 GHz timer input, a 1:1 host timebase.
    Apic::new(0xfee00000, true, false, 0, true, 1_000_000_000, 1, 1)
}

#[test]
fn apic_reset_state_test() {
    let apic = fresh_apic();
    assert_eq!(apic.read(OFFSET_ID), 0);
    assert_eq!(apic.read(OFFSET_VER), 0x10 | (6 << 16));
    assert_eq!(apic.read(OFFSET_TPR), 0);
    assert_eq!(apic.read(OFFSET_SVR), 0xff);
    assert!(apic.sched_timer.is_none());
    assert_eq!(apic.msr_apic_base, 0xfee00000 | 0x800 | 0x100);
}

// After interleaved acceptances and EOIs, the in-service stack is
// strictly increasing from bottom to top.
#[test]
fn apic_isr_stack_increasing_test() {
    let mut apic = fresh_apic();
    let can_take = |_: &Apic| (0x200u64, 0u64, 0u64); // IF set, nothing blocking
    apic.fire_external_interrupt(0x31);
    let (rf, bl, ei) = can_take(&apic);
    match apic.inject_interrupt(rf, bl, ei) {
        InjectAction::Injected(v) => assert_eq!(v, 0x31),
        _ => panic!("expected an injection"),
    }
    // A higher vector arrives while 0x31 is in service.
    apic.fire_external_interrupt(0x55);
    apic.fire_external_interrupt(0x42);
    match apic.inject_interrupt(0x200, 0, 0) {
        InjectAction::Injected(v) => assert_eq!(v, 0x55),
        _ => panic!("expected an injection"),
    }
    assert_eq!(apic.isr_vec, vec![0x31, 0x55]);
    for w in apic.isr_vec.windows(2) {
        assert!(w[0] < w[1]);
    }
    // 0x42 cannot be taken: its priority does not exceed the PPR.
    match apic.inject_interrupt(0x200, 0, 0) {
        InjectAction::NoPending => {}
        _ => panic!("expected nothing deliverable"),
    }
    // EOI retires 0x55; the stack stays increasing and 0x42 goes in.
    apic.write(OFFSET_EOI, 0, 0);
    assert_eq!(apic.isr_vec, vec![0x31]);
    match apic.inject_interrupt(0x200, 0, 0) {
        InjectAction::Injected(v) => assert_eq!(v, 0x42),
        _ => panic!("expected an injection"),
    }
    assert_eq!(apic.isr_vec, vec![0x31, 0x42]);
}

#[test]
fn apic_interrupt_window_test() {
    let mut apic = fresh_apic();
    apic.fire_external_interrupt(0x31);
    // Interrupts disabled: the window must be opened instead.
    match apic.inject_interrupt(0, 0, 0) {
        InjectAction::OpenWindow => {}
        _ => panic!("expected the interrupt window"),
    }
    // Nothing pending at all: nothing to do.
    let mut quiet = fresh_apic();
    match quiet.inject_interrupt(0x200, 0, 0) {
        InjectAction::NoPending => {}
        _ => panic!("expected no pending interrupt"),
    }
}

#[test]
fn apic_timer_period_test() {
    let mut apic = fresh_apic();
    // Divide by 1 (DCR value 0b1011), 1000 ticks at 1 GHz: 1 MHz rate,
    // a 1000 ns interval, 1:1 timebase.
    apic.write(OFFSET_DCR, 0b1011, 0);
    apic.write(OFFSET_INIT_COUNT, 1000, 0);
    // Periodic mode, vector 0xec, unmasked.
    apic.write(OFFSET_LVT_TIMER, (1 << 17) | 0xec, 7777);
    assert_eq!(apic.sched_timer, Some(7777 + 1000));
    assert_eq!(apic.timer_period, 1000);
    // Firing re-arms one period ahead.
    apic.fire_timer_interrupt(9000);
    assert_eq!(apic.sched_timer, Some(10000));
    // A masked timer LVT disarms it.
    apic.write(OFFSET_LVT_TIMER, 0x10000 | 0xec, 12000);
    assert_eq!(apic.sched_timer, None);
    assert_eq!(apic.timer_period, 0);
}

#[test]
fn apic_tpr_write_test() {
    let mut apic = fresh_apic();
    apic.write(OFFSET_TPR, 0x20, 0);
    assert_eq!(apic.read(OFFSET_TPR) & 0xff, 0x20);
    // A pending vector at the task priority is not deliverable.
    apic.fire_external_interrupt(0x25);
    match apic.inject_interrupt(0x200, 0, 0) {
        InjectAction::NoPending => {}
        _ => panic!("expected nothing deliverable"),
    }
}
