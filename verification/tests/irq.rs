use percpu::machine::{INTERRUPT_FLAG, RFLAGS_RESET};
use percpu::{Core, IrqController};

fn core_with(rflags: u64) -> Core {
    Core { rflags, gs_base: 0x1234, halted: false }
}

#[test]
fn new_core_is_masked_and_unpublished() {
    let core = Core::new();
    assert_eq!(core.rflags, 0x2);
    assert_eq!(core.rflags, RFLAGS_RESET);
    assert_eq!(core.gs_base, 0);
    assert!(!core.halted);
    assert!(!IrqController::enabled(&core));
}

#[test]
fn interrupt_flag_is_bit_nine() {
    assert_eq!(INTERRUPT_FLAG, 1 << 9);
}

#[test]
fn enabled_reads_bit_nine_only() {
    assert!(IrqController::enabled(&core_with(0x200)));
    assert!(IrqController::enabled(&core_with(0x202)));
    assert!(IrqController::enabled(&core_with(u64::MAX)));
    assert!(!IrqController::enabled(&core_with(0)));
    assert!(!IrqController::enabled(&core_with(0x2)));
    assert!(!IrqController::enabled(&core_with(0x100)));
    assert!(!IrqController::enabled(&core_with(0x400)));
    assert!(!IrqController::enabled(&core_with(!0x200)));
}

#[test]
fn disable_then_enabled_reports_false() {
    let mut core = core_with(0x246);
    IrqController::disable(&mut core);
    assert!(!IrqController::enabled(&core));
}

#[test]
fn enable_then_enabled_reports_true() {
    let mut core = core_with(0x46);
    IrqController::enable(&mut core);
    assert!(IrqController::enabled(&core));
}

#[test]
fn disable_then_enable_reports_true() {
    let mut core = Core::new();
    IrqController::disable(&mut core);
    assert!(!IrqController::enabled(&core));
    IrqController::enable(&mut core);
    assert!(IrqController::enabled(&core));
    IrqController::disable(&mut core);
    assert!(!IrqController::enabled(&core));
}

#[test]
fn disable_clears_the_flag_and_nothing_else() {
    let mut core = core_with(0x246);
    IrqController::disable(&mut core);
    assert_eq!(core, Core { rflags: 0x46, gs_base: 0x1234, halted: false });

    let mut all = Core { rflags: u64::MAX, gs_base: 7, halted: true };
    IrqController::disable(&mut all);
    assert_eq!(all, Core { rflags: 0xFFFF_FFFF_FFFF_FDFF, gs_base: 7, halted: true });
}

#[test]
fn enable_sets_the_flag_and_nothing_else() {
    let mut core = core_with(0x46);
    IrqController::enable(&mut core);
    assert_eq!(core, Core { rflags: 0x246, gs_base: 0x1234, halted: false });

    let mut none = Core { rflags: 0, gs_base: 7, halted: true };
    IrqController::enable(&mut none);
    assert_eq!(none, Core { rflags: 0x200, gs_base: 7, halted: true });
}

#[test]
fn disable_twice_is_disable_once() {
    let mut once = core_with(0x246);
    IrqController::disable(&mut once);
    let mut twice = once;
    IrqController::disable(&mut twice);
    assert_eq!(once, twice);
}

#[test]
fn enable_twice_is_enable_once() {
    let mut once = core_with(0x46);
    IrqController::enable(&mut once);
    let mut twice = once;
    IrqController::enable(&mut twice);
    assert_eq!(once, twice);
}

#[test]
fn enabled_does_not_change_the_core() {
    let core = core_with(0x246);
    let before = core;
    let first = IrqController::enabled(&core);
    let second = IrqController::enabled(&core);
    let third = IrqController::enabled(&core);
    assert_eq!(first, second);
    assert_eq!(second, third);
    assert_eq!(core, before);
}

#[test]
fn enabled_agrees_with_the_processor() {
    let rflags = x86_64::registers::rflags::read_raw();
    let core = Core { rflags, gs_base: 0, halted: false };
    assert_eq!(
        IrqController::enabled(&core),
        x86_64::instructions::interrupts::are_enabled()
    );
}

#[test]
fn masked_interrupt_is_not_delivered() {
    let mut core = Core { rflags: 0x2, gs_base: 3, halted: true };
    assert!(!core.interrupt());
    assert_eq!(core, Core { rflags: 0x2, gs_base: 3, halted: true });
}

#[test]
fn delivered_interrupt_ends_the_halt() {
    let mut core = Core { rflags: 0x202, gs_base: 3, halted: true };
    assert!(core.interrupt());
    assert_eq!(core, Core { rflags: 0x202, gs_base: 3, halted: false });

    let mut running = Core { rflags: 0x202, gs_base: 3, halted: false };
    assert!(running.interrupt());
    assert_eq!(running, Core { rflags: 0x202, gs_base: 3, halted: false });
}
