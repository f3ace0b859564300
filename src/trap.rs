//! Trap classification: from the cause a trap reports to what the kernel
//! does about it. The caller captures the trap state into a `TrapContext`,
//! runs the classifier, and carries out the outcome (acknowledge, re-arm,
//! run a handler, or abort with the diagnostic).
use vstd::prelude::*;
use riscv::register::scause::{Exception, Interrupt};
use crate::irq::{IrqLine, IrqRegistry, spec_dispatch};

verus! {

/// Trap state that the classifier reads and may change.
#[derive(Clone, Copy, Debug, PartialEq, Eq, Structural)]
pub struct TrapContext {
    /// Raw cause the hardware reported.
    pub cause: usize,
    /// Program counter at which execution resumes.
    pub pc: usize,
    /// Faulting address, where the trap has one.
    pub fault_addr: usize,
}

/// Why a trap cannot be survived.
#[derive(Clone, Copy, Debug, PartialEq, Eq, Structural)]
pub enum FatalKind {
    IllegalInstruction,
    LoadAccessFault,
    StoreAccessFault,
    PageFault,
    DoubleFault,
    Unknown,
}

/// Diagnostic of a fatal trap: the kind, the raw cause code, the
/// program counter and the faulting address.
#[derive(Clone, Copy, Debug, PartialEq, Eq, Structural)]
pub struct FatalTrap {
    pub kind: FatalKind,
    pub cause: usize,
    pub pc: usize,
    pub addr: usize,
}

/// What to do about a trap.
#[derive(Clone, Copy, Debug, PartialEq, Eq, Structural)]
pub enum TrapOutcome {
    /// A breakpoint: resume at the context's program counter.
    Resumed,
    /// A timer tick: acknowledge `ack` at the controller first when it is
    /// set, then re-arm the timer and run the scheduler tick.
    TimerTick { ack: Option<u8> },
    /// A software interrupt: clear the pending inter-processor interrupt.
    SoftInterrupt,
    /// A device line: acknowledge it when `needs_ack` holds, then run
    /// `handler`; with no handler the interrupt is reported and dropped.
    Device { line: usize, needs_ack: bool, handler: Option<usize> },
    /// A device interrupt whose line the external controller holds: claim
    /// it there and look it up with `irq_handle`.
    ExternalClaim,
    /// Abort the kernel with this diagnostic.
    Fatal(FatalTrap),
}

/// RISC-V synchronous exception causes.
#[derive(Clone, Copy, Debug, PartialEq, Eq, Structural)]
pub enum RvException {
    InstructionMisaligned,
    InstructionFault,
    IllegalInstruction,
    Breakpoint,
    LoadFault,
    StoreMisaligned,
    StoreFault,
    UserEnvCall,
    InstructionPageFault,
    LoadPageFault,
    StorePageFault,
    Unknown,
}

/// RISC-V interrupt causes.
#[derive(Clone, Copy, Debug, PartialEq, Eq, Structural)]
pub enum RvInterrupt {
    UserSoft,
    SupervisorSoft,
    UserTimer,
    SupervisorTimer,
    UserExternal,
    SupervisorExternal,
    Unknown,
}

/// The exception that a RISC-V exception code names.
pub open spec fn rv_exception_of(code: usize) -> RvException {
    match code {
        0 => RvException::InstructionMisaligned,
        1 => RvException::InstructionFault,
        2 => RvException::IllegalInstruction,
        3 => RvException::Breakpoint,
        5 => RvException::LoadFault,
        6 => RvException::StoreMisaligned,
        7 => RvException::StoreFault,
        8 => RvException::UserEnvCall,
        12 => RvException::InstructionPageFault,
        13 => RvException::LoadPageFault,
        15 => RvException::StorePageFault,
        _ => RvException::Unknown,
    }
}

/// The interrupt that a RISC-V interrupt code names.
pub open spec fn rv_interrupt_of(code: usize) -> RvInterrupt {
    match code {
        0 => RvInterrupt::UserSoft,
        1 => RvInterrupt::SupervisorSoft,
        4 => RvInterrupt::UserTimer,
        5 => RvInterrupt::SupervisorTimer,
        8 => RvInterrupt::UserExternal,
        9 => RvInterrupt::SupervisorExternal,
        _ => RvInterrupt::Unknown,
    }
}

/// Relies on riscv's `Exception::from`, which names the exception of a
/// cause code by the table of `rv_exception_of`.
#[verifier::external_body]
fn exception_from_code(code: usize) -> (r: RvException)
    ensures
        r == rv_exception_of(code),
{
    match Exception::from(code) {
        Exception::InstructionMisaligned => RvException::InstructionMisaligned,
        Exception::InstructionFault => RvException::InstructionFault,
        Exception::IllegalInstruction => RvException::IllegalInstruction,
        Exception::Breakpoint => RvException::Breakpoint,
        Exception::LoadFault => RvException::LoadFault,
        Exception::StoreMisaligned => RvException::StoreMisaligned,
        Exception::StoreFault => RvException::StoreFault,
        Exception::UserEnvCall => RvException::UserEnvCall,
        Exception::InstructionPageFault => RvException::InstructionPageFault,
        Exception::LoadPageFault => RvException::LoadPageFault,
        Exception::StorePageFault => RvException::StorePageFault,
        Exception::Unknown => RvException::Unknown,
    }
}

/// Relies on riscv's `Interrupt::from`, which names the interrupt of a
/// cause code by the table of `rv_interrupt_of`.
#[verifier::external_body]
fn interrupt_from_code(code: usize) -> (r: RvInterrupt)
    ensures
        r == rv_interrupt_of(code),
{
    match Interrupt::from(code) {
        Interrupt::UserSoft => RvInterrupt::UserSoft,
        Interrupt::SupervisorSoft => RvInterrupt::SupervisorSoft,
        Interrupt::UserTimer => RvInterrupt::UserTimer,
        Interrupt::SupervisorTimer => RvInterrupt::SupervisorTimer,
        Interrupt::UserExternal => RvInterrupt::UserExternal,
        Interrupt::SupervisorExternal => RvInterrupt::SupervisorExternal,
        Interrupt::Unknown => RvInterrupt::Unknown,
    }
}

/// The interrupt flag of a RISC-V cause: its most significant bit.
pub open spec fn rv_interrupt_bit() -> int {
    usize::MAX / 2 + 1
}

/// Width in bytes of the RISC-V instruction whose first 16-bit parcel is
/// `insn`: a parcel whose two low bits are both set starts a 4-byte
/// instruction (such as `ebreak`); any other starts a 2-byte compressed one
/// (such as `c.ebreak`).
pub open spec fn rv_insn_width(insn: u16) -> usize {
    if insn % 4 == 3 {
        4
    } else {
        2
    }
}

/// The fatal diagnostic of a trap.
pub open spec fn fatal_of(kind: FatalKind, ctx: TrapContext) -> TrapOutcome {
    TrapOutcome::Fatal(FatalTrap { kind, cause: ctx.cause, pc: ctx.pc, addr: ctx.fault_addr })
}

/// What a RISC-V trap with these cause bits leads to.
pub open spec fn spec_riscv_outcome(ctx: TrapContext) -> TrapOutcome {
    if ctx.cause >= rv_interrupt_bit() {
        match rv_interrupt_of((ctx.cause - rv_interrupt_bit()) as usize) {
            RvInterrupt::SupervisorTimer => TrapOutcome::TimerTick { ack: None },
            RvInterrupt::SupervisorSoft => TrapOutcome::SoftInterrupt,
            RvInterrupt::SupervisorExternal => TrapOutcome::ExternalClaim,
            _ => fatal_of(FatalKind::Unknown, ctx),
        }
    } else {
        match rv_exception_of(ctx.cause) {
            RvException::Breakpoint => TrapOutcome::Resumed,
            RvException::IllegalInstruction => fatal_of(FatalKind::IllegalInstruction, ctx),
            RvException::LoadFault => fatal_of(FatalKind::LoadAccessFault, ctx),
            RvException::StoreFault => fatal_of(FatalKind::StoreAccessFault, ctx),
            RvException::LoadPageFault => fatal_of(FatalKind::PageFault, ctx),
            RvException::StorePageFault => fatal_of(FatalKind::PageFault, ctx),
            RvException::InstructionPageFault => fatal_of(FatalKind::PageFault, ctx),
            _ => fatal_of(FatalKind::Unknown, ctx),
        }
    }
}

/// Whether a RISC-V cause is the breakpoint exception.
pub open spec fn is_rv_breakpoint(cause: usize) -> bool {
    cause < rv_interrupt_bit() && rv_exception_of(cause) == RvException::Breakpoint
}

/// Classify a RISC-V trap; `insn` is the first 16-bit parcel of the
/// instruction at the trapping program counter. A breakpoint moves the
/// program counter past the breakpoint instruction; nothing else changes
/// the context.
pub fn trap_handler(ctx: &mut TrapContext, insn: u16) -> (r: TrapOutcome)
    ensures
        r == spec_riscv_outcome(*old(ctx)),
        is_rv_breakpoint(old(ctx).cause) ==> *final(ctx) == (TrapContext {
            pc: old(ctx).pc.wrapping_add(rv_insn_width(insn)),
            ..*old(ctx)
        }),
        !is_rv_breakpoint(old(ctx).cause) ==> *final(ctx) == *old(ctx),
{
    let top: usize = usize::MAX / 2 + 1;
    let c = *ctx;
    let fatal = |kind: FatalKind| -> (f: TrapOutcome)
        ensures
            f == fatal_of(kind, c),
        { TrapOutcome::Fatal(FatalTrap { kind, cause: c.cause, pc: c.pc, addr: c.fault_addr }) };
    if ctx.cause >= top {
        match interrupt_from_code(ctx.cause - top) {
            RvInterrupt::SupervisorTimer => TrapOutcome::TimerTick { ack: None },
            RvInterrupt::SupervisorSoft => TrapOutcome::SoftInterrupt,
            RvInterrupt::SupervisorExternal => TrapOutcome::ExternalClaim,
            _ => fatal(FatalKind::Unknown),
        }
    } else {
        match exception_from_code(ctx.cause) {
            RvException::Breakpoint => {
                breakpoint(&mut ctx.pc, insn);
                TrapOutcome::Resumed
            },
            RvException::IllegalInstruction => fatal(FatalKind::IllegalInstruction),
            RvException::LoadFault => fatal(FatalKind::LoadAccessFault),
            RvException::StoreFault => fatal(FatalKind::StoreAccessFault),
            RvException::LoadPageFault => fatal(FatalKind::PageFault),
            RvException::StorePageFault => fatal(FatalKind::PageFault),
            RvException::InstructionPageFault => fatal(FatalKind::PageFault),
            _ => fatal(FatalKind::Unknown),
        }
    }
}

/// Step the program counter over the breakpoint instruction, whose first
/// 16-bit parcel is `insn`, so that the return from the trap does not run it
/// again.
pub fn breakpoint(pc: &mut usize, insn: u16)
    ensures
        *final(pc) == old(pc).wrapping_add(rv_insn_width(insn)),
        *old(pc) + rv_insn_width(insn) <= usize::MAX ==> *final(pc) == *old(pc) + rv_insn_width(
            insn,
        ),
{
    let width: usize = if insn % 4 == 3 {
        4
    } else {
        2
    };
    *pc = pc.wrapping_add(width);
}

/// x86-64 exception and interrupt vectors.
pub const X86_BREAKPOINT: usize = 3;
pub const X86_DOUBLE_FAULT: usize = 8;
pub const X86_PAGE_FAULT: usize = 14;
pub const X86_IRQ0: usize = 32;
pub const X86_IRQ_LAST: usize = 63;

/// Controller line of the x86-64 timer.
pub const X86_TIMER_IRQ: usize = 0;

/// What an x86-64 trap with this vector leads to. A breakpoint resumes where
/// the hardware left the program counter, already past the one-byte
/// breakpoint instruction.
pub open spec fn spec_x86_outcome(ctx: TrapContext, lines: Seq<IrqLine>) -> TrapOutcome {
    let n = ctx.cause;
    if n == X86_BREAKPOINT {
        TrapOutcome::Resumed
    } else if n == X86_DOUBLE_FAULT {
        fatal_of(FatalKind::DoubleFault, ctx)
    } else if n == X86_PAGE_FAULT {
        fatal_of(FatalKind::PageFault, ctx)
    } else if X86_IRQ0 <= n <= X86_IRQ_LAST {
        if n - X86_IRQ0 == X86_TIMER_IRQ {
            TrapOutcome::TimerTick { ack: Some(X86_TIMER_IRQ as u8) }
        } else {
            TrapOutcome::Device {
                line: (n - X86_IRQ0) as usize,
                needs_ack: true,
                handler: spec_dispatch(lines, n - X86_IRQ0),
            }
        }
    } else {
        fatal_of(FatalKind::Unknown, ctx)
    }
}

/// Classify an x86-64 trap; device lines are looked up in `registry`.
/// Every interrupt is acknowledged before anything else is done about it.
pub fn rust_trap(ctx: &TrapContext, registry: &IrqRegistry) -> (r: TrapOutcome)
    ensures
        r == spec_x86_outcome(*ctx, registry@),
{
    let n = ctx.cause;
    let fatal = |kind: FatalKind| -> (f: TrapOutcome)
        ensures
            f == fatal_of(kind, *ctx),
        { TrapOutcome::Fatal(FatalTrap { kind, cause: ctx.cause, pc: ctx.pc, addr: ctx.fault_addr }) };
    if n == X86_BREAKPOINT {
        TrapOutcome::Resumed
    } else if n == X86_DOUBLE_FAULT {
        fatal(FatalKind::DoubleFault)
    } else if n == X86_PAGE_FAULT {
        fatal(FatalKind::PageFault)
    } else if X86_IRQ0 <= n && n <= X86_IRQ_LAST {
        let irq = n - X86_IRQ0;
        if irq == X86_TIMER_IRQ {
            TrapOutcome::TimerTick { ack: Some(X86_TIMER_IRQ as u8) }
        } else {
            TrapOutcome::Device { line: irq, needs_ack: true, handler: registry.dispatch(irq) }
        }
    } else {
        fatal(FatalKind::Unknown)
    }
}

/// A RISC-V breakpoint resumes without aborting, and the handler moves the
/// program counter past the breakpoint instruction: 2 bytes for the
/// compressed `c.ebreak` (0x9002), 4 for `ebreak` (first parcel 0x0073).
pub proof fn lemma_riscv_breakpoint_resumes(ctx: TrapContext)
    requires
        ctx.cause == 3,
    ensures
        is_rv_breakpoint(ctx.cause),
        spec_riscv_outcome(ctx) == TrapOutcome::Resumed,
        rv_insn_width(0x9002) == 2,
        rv_insn_width(0x0073) == 4,
{
}

/// A RISC-V cause outside the classification aborts, and every abort
/// carries the cause code, program counter and faulting address of the
/// trap.
pub proof fn lemma_riscv_fatal_diagnostic(ctx: TrapContext)
    ensures
        (ctx.cause < rv_interrupt_bit() && rv_exception_of(ctx.cause) == RvException::Unknown)
            ==> spec_riscv_outcome(ctx) == fatal_of(FatalKind::Unknown, ctx),
        (ctx.cause >= rv_interrupt_bit() && rv_interrupt_of(
            (ctx.cause - rv_interrupt_bit()) as usize,
        ) == RvInterrupt::Unknown) ==> spec_riscv_outcome(ctx) == fatal_of(FatalKind::Unknown, ctx),
        spec_riscv_outcome(ctx) matches TrapOutcome::Fatal(f) ==> f.cause == ctx.cause && f.pc
            == ctx.pc && f.addr == ctx.fault_addr,
{
}

/// An x86-64 breakpoint resumes at the reported program counter; a vector
/// outside the classification aborts, and every abort carries the vector,
/// program counter and faulting address of the trap.
pub proof fn lemma_x86_classification(ctx: TrapContext, lines: Seq<IrqLine>)
    ensures
        ctx.cause == X86_BREAKPOINT ==> spec_x86_outcome(ctx, lines) == TrapOutcome::Resumed,
        (ctx.cause != X86_BREAKPOINT && ctx.cause != X86_DOUBLE_FAULT && ctx.cause
            != X86_PAGE_FAULT && !(X86_IRQ0 <= ctx.cause <= X86_IRQ_LAST)) ==> spec_x86_outcome(
            ctx,
            lines,
        ) == fatal_of(FatalKind::Unknown, ctx),
        spec_x86_outcome(ctx, lines) matches TrapOutcome::Fatal(f) ==> f.cause == ctx.cause && f.pc
            == ctx.pc && f.addr == ctx.fault_addr,
{
}

} // verus!
