use kernel_hal::irq::{
    init_core_irqs, init_ext, irq_handle, IrqError, IrqRegistry, SUPERVISOR_SOFT_LINE,
    SUPERVISOR_TIMER_LINE, UART0_IRQ,
};
use kernel_hal::trap::{
    breakpoint, rust_trap, trap_handler, FatalKind, FatalTrap, TrapContext, TrapOutcome,
};

const INTERRUPT: usize = 1 << (usize::BITS - 1);

fn ctx(cause: usize) -> TrapContext {
    TrapContext { cause, pc: 0x8000_1000, fault_addr: 0xdead }
}

#[test]
fn riscv_breakpoint_advances_pc() {
    let mut c = ctx(3);
    assert_eq!(trap_handler(&mut c, 0x9002), TrapOutcome::Resumed);
    assert_eq!(c.pc, 0x8000_1002);
}

#[test]
fn riscv_breakpoint_helper() {
    let mut pc = 0x10usize;
    breakpoint(&mut pc, 0x9002);
    assert_eq!(pc, 0x12);
    breakpoint(&mut pc, 0x0073);
    assert_eq!(pc, 0x16);
}

#[test]
fn riscv_full_width_breakpoint_advances_four() {
    let mut c = ctx(3);
    assert_eq!(trap_handler(&mut c, 0x0073), TrapOutcome::Resumed);
    assert_eq!(c.pc, 0x8000_1004);
}

#[test]
fn riscv_fatal_exceptions() {
    let cases = [
        (2, FatalKind::IllegalInstruction),
        (5, FatalKind::LoadAccessFault),
        (7, FatalKind::StoreAccessFault),
        (12, FatalKind::PageFault),
        (13, FatalKind::PageFault),
        (15, FatalKind::PageFault),
        (8, FatalKind::Unknown),
        (42, FatalKind::Unknown),
    ];
    for (cause, kind) in cases {
        let mut c = ctx(cause);
        let expected = TrapOutcome::Fatal(FatalTrap { kind, cause, pc: 0x8000_1000, addr: 0xdead });
        assert_eq!(trap_handler(&mut c, 0x9002), expected);
        assert_eq!(c, ctx(cause));
    }
}

#[test]
fn riscv_interrupts() {
    let mut c = ctx(INTERRUPT | 5);
    assert_eq!(trap_handler(&mut c, 0x9002), TrapOutcome::TimerTick { ack: None });
    let mut c = ctx(INTERRUPT | 1);
    assert_eq!(trap_handler(&mut c, 0x9002), TrapOutcome::SoftInterrupt);
    let mut c = ctx(INTERRUPT | 9);
    assert_eq!(trap_handler(&mut c, 0x9002), TrapOutcome::ExternalClaim);
    let mut c = ctx(INTERRUPT | 3);
    match trap_handler(&mut c, 0x9002) {
        TrapOutcome::Fatal(f) => {
            assert_eq!(f.kind, FatalKind::Unknown);
            assert_eq!(f.cause, INTERRUPT | 3);
        }
        other => panic!("unexpected outcome {:?}", other),
    }
}

#[test]
fn x86_classification() {
    let reg = IrqRegistry::new(32);
    assert_eq!(rust_trap(&ctx(3), &reg), TrapOutcome::Resumed);
    assert_eq!(
        rust_trap(&ctx(8), &reg),
        TrapOutcome::Fatal(FatalTrap { kind: FatalKind::DoubleFault, cause: 8, pc: 0x8000_1000, addr: 0xdead })
    );
    assert_eq!(
        rust_trap(&ctx(14), &reg),
        TrapOutcome::Fatal(FatalTrap { kind: FatalKind::PageFault, cause: 14, pc: 0x8000_1000, addr: 0xdead })
    );
    assert_eq!(rust_trap(&ctx(32), &reg), TrapOutcome::TimerTick { ack: Some(0) });
    assert_eq!(
        rust_trap(&ctx(0x99), &reg),
        TrapOutcome::Fatal(FatalTrap { kind: FatalKind::Unknown, cause: 0x99, pc: 0x8000_1000, addr: 0xdead })
    );
}

#[test]
fn x86_device_irq_goes_through_registry() {
    let mut reg = IrqRegistry::new(32);
    reg.register(4, 77).unwrap();
    reg.unmask(4).unwrap();
    assert_eq!(
        rust_trap(&ctx(36), &reg),
        TrapOutcome::Device { line: 4, needs_ack: true, handler: Some(77) }
    );
    assert_eq!(
        rust_trap(&ctx(37), &reg),
        TrapOutcome::Device { line: 5, needs_ack: true, handler: None }
    );
}

#[test]
fn register_unmask_deliver() {
    let mut reg = IrqRegistry::new(16);
    assert_eq!(reg.dispatch(3), None);
    reg.register(3, 11).unwrap();
    assert_eq!(reg.dispatch(3), None);
    reg.unmask(3).unwrap();
    assert_eq!(reg.dispatch(3), Some(11));
    assert_eq!(irq_handle(&reg, 3), Some(11));
    assert_eq!(irq_handle(&reg, 4), None);
    assert_eq!(irq_handle(&reg, 200), None);
}

#[test]
fn duplicate_registration_is_refused() {
    let mut reg = IrqRegistry::new(4);
    reg.register(1, 5).unwrap();
    assert_eq!(reg.register(1, 6), Err(IrqError::AlreadyRegistered));
    reg.unmask(1).unwrap();
    assert_eq!(reg.dispatch(1), Some(5));
    reg.unregister(1).unwrap();
    assert_eq!(reg.dispatch(1), None);
    assert_eq!(reg.unregister(1), Err(IrqError::NotRegistered));
    reg.register(1, 6).unwrap();
    assert_eq!(reg.register(9, 1), Err(IrqError::InvalidLine));
    assert_eq!(reg.unmask(9), Err(IrqError::InvalidLine));
    assert_eq!(reg.mask(4), Err(IrqError::InvalidLine));
}

#[test]
fn masking_stops_delivery() {
    let mut reg = IrqRegistry::new(4);
    reg.register(2, 8).unwrap();
    reg.unmask(2).unwrap();
    reg.mask(2).unwrap();
    assert_eq!(reg.dispatch(2), None);
}

#[test]
fn external_controller_setup() {
    let mut reg = IrqRegistry::new(32);
    assert_eq!(init_ext(&mut reg), Err(IrqError::NotRegistered));
    assert_eq!(reg.dispatch(UART0_IRQ), None);
    reg.register(UART0_IRQ, 1).unwrap();
    init_ext(&mut reg).unwrap();
    assert_eq!(reg.dispatch(UART0_IRQ), Some(1));
    let mut small = IrqRegistry::new(4);
    assert_eq!(init_ext(&mut small), Err(IrqError::InvalidLine));
    assert_eq!(reg.set_priority(40, 1), Err(IrqError::InvalidLine));
}

#[test]
fn core_interrupts_are_registered_then_unmasked() {
    let mut reg = IrqRegistry::new(16);
    init_core_irqs(&mut reg, 100, 200).unwrap();
    assert_eq!(reg.dispatch(SUPERVISOR_SOFT_LINE), Some(100));
    assert_eq!(reg.dispatch(SUPERVISOR_TIMER_LINE), Some(200));
    assert_eq!(init_core_irqs(&mut reg, 1, 2), Err(IrqError::AlreadyRegistered));
    let mut tiny = IrqRegistry::new(3);
    assert_eq!(init_core_irqs(&mut tiny, 1, 2), Err(IrqError::InvalidLine));
}

#[test]
fn core_interrupt_refusal_changes_nothing() {
    let mut reg = IrqRegistry::new(16);
    reg.register(SUPERVISOR_TIMER_LINE, 9).unwrap();
    assert_eq!(init_core_irqs(&mut reg, 1, 2), Err(IrqError::AlreadyRegistered));
    assert!(!reg.has_handler(SUPERVISOR_SOFT_LINE));
    assert_eq!(reg.dispatch(SUPERVISOR_SOFT_LINE), None);
    assert_eq!(reg.dispatch(SUPERVISOR_TIMER_LINE), None);
}

#[test]
fn unmask_needs_a_handler() {
    let mut reg = IrqRegistry::new(4);
    assert_eq!(reg.unmask(2), Err(IrqError::NotRegistered));
    reg.register(2, 3).unwrap();
    assert_eq!(reg.dispatch(2), None);
    reg.unmask(2).unwrap();
    assert_eq!(reg.dispatch(2), Some(3));
}
