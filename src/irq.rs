//! The IRQ registry: which handler serves each interrupt-controller line,
//! and which lines are unmasked. Handlers are named by caller-chosen
//! tokens; the caller keeps the callback that each token stands for.
use vstd::prelude::*;

verus! {

/// Why a registry operation was refused.
#[derive(Clone, Copy, Debug, PartialEq, Eq, Structural)]
pub enum IrqError {
    /// The line number is not below the number of lines.
    InvalidLine,
    /// The line already has a handler.
    AlreadyRegistered,
    /// The line has no handler.
    NotRegistered,
}

/// State of one line.
#[derive(Clone, Copy, Debug, PartialEq, Eq, Structural)]
pub struct IrqLine {
    /// Token of the registered handler.
    pub handler: Option<usize>,
    /// Whether the line may deliver interrupts.
    pub unmasked: bool,
    /// Controller priority of the line.
    pub priority: u8,
}

/// Handler table and mask state of an interrupt controller.
pub struct IrqRegistry {
    lines: Vec<IrqLine>,
    threshold: u8,
}

impl View for IrqRegistry {
    type V = Seq<IrqLine>;

    closed spec fn view(&self) -> Seq<IrqLine> {
        self.lines@
    }
}

/// A line with no handler, masked, at priority 0.
pub open spec fn idle_line() -> IrqLine {
    IrqLine { handler: None, unmasked: false, priority: 0 }
}

/// The handler that a delivery on `line` runs: the registered one, when the
/// line exists and is unmasked.
pub open spec fn spec_dispatch(lines: Seq<IrqLine>, line: int) -> Option<usize> {
    if 0 <= line < lines.len() && lines[line].unmasked {
        lines[line].handler
    } else {
        None
    }
}

/// No line can deliver without a handler: every unmasked line has one.
pub open spec fn unmasked_have_handlers(lines: Seq<IrqLine>) -> bool {
    forall|i: int| 0 <= i < lines.len() && #[trigger] lines[i].unmasked ==> lines[i].handler is Some
}

impl IrqRegistry {
    /// The registry's invariant: lines are unmasked only once they have a
    /// handler, and lose the handler only while masked.
    pub open spec fn wf(&self) -> bool {
        unmasked_have_handlers(self@)
    }

    /// A controller with `n` lines, all idle, and priority threshold 0.
    pub fn new(n: usize) -> (r: IrqRegistry)
        ensures
            r.wf(),
            r@ == Seq::new(n as nat, |i: int| idle_line()),
            r.spec_threshold() == 0,
    {
        let mut lines: Vec<IrqLine> = Vec::new();
        let mut i: usize = 0;
        while i < n
            invariant
                i <= n,
                lines@ == Seq::new(i as nat, |k: int| idle_line()),
            decreases n - i,
        {
            lines.push(IrqLine { handler: None, unmasked: false, priority: 0 });
            i = i + 1;
            assert(lines@ =~= Seq::new(i as nat, |k: int| idle_line()));
        }
        IrqRegistry { lines, threshold: 0 }
    }

    /// Priority threshold of the controller.
    pub closed spec fn spec_threshold(&self) -> u8 {
        self.threshold
    }

    /// Number of lines.
    pub fn num_lines(&self) -> (r: usize)
        ensures
            r == self@.len(),
    {
        self.lines.len()
    }

    /// Whether `line` exists and has a handler.
    pub fn has_handler(&self, line: usize) -> (r: bool)
        ensures
            r == (line < self@.len() && self@[line as int].handler is Some),
    {
        line < self.lines.len() && self.lines[line].handler.is_some()
    }

    /// Install `handler` on `line`. A line that has a handler keeps it and
    /// the call fails: handlers are never silently replaced.
    pub fn register(&mut self, line: usize, handler: usize) -> (r: Result<(), IrqError>)
        requires
            old(self).wf(),
        ensures
            final(self).wf(),
            final(self).spec_threshold() == old(self).spec_threshold(),
            line >= old(self)@.len() ==> r == Err::<(), IrqError>(IrqError::InvalidLine),
            line < old(self)@.len() && old(self)@[line as int].handler is Some ==> r == Err::<
                (),
                IrqError,
            >(IrqError::AlreadyRegistered),
            r is Err ==> *final(self) == *old(self),
            line < old(self)@.len() && old(self)@[line as int].handler is None ==> r is Ok
                && final(self)@ == old(self)@.update(
                line as int,
                IrqLine { handler: Some(handler), ..old(self)@[line as int] },
            ),
    {
        if line >= self.lines.len() {
            return Err(IrqError::InvalidLine);
        }
        let current = self.lines[line];
        if current.handler.is_some() {
            return Err(IrqError::AlreadyRegistered);
        }
        self.lines.set(line, IrqLine { handler: Some(handler), ..current });
        Ok(())
    }

    /// Remove the handler of `line`, masking the line.
    pub fn unregister(&mut self, line: usize) -> (r: Result<(), IrqError>)
        requires
            old(self).wf(),
        ensures
            final(self).wf(),
            final(self).spec_threshold() == old(self).spec_threshold(),
            line >= old(self)@.len() ==> r == Err::<(), IrqError>(IrqError::InvalidLine),
            line < old(self)@.len() && old(self)@[line as int].handler is None ==> r == Err::<
                (),
                IrqError,
            >(IrqError::NotRegistered),
            r is Err ==> *final(self) == *old(self),
            line < old(self)@.len() && old(self)@[line as int].handler is Some ==> r is Ok
                && final(self)@ == old(self)@.update(
                line as int,
                IrqLine { handler: None, unmasked: false, ..old(self)@[line as int] },
            ),
    {
        if line >= self.lines.len() {
            return Err(IrqError::InvalidLine);
        }
        let current = self.lines[line];
        if current.handler.is_none() {
            return Err(IrqError::NotRegistered);
        }
        self.lines.set(line, IrqLine { handler: None, unmasked: false, ..current });
        Ok(())
    }

    /// Let `line` deliver interrupts. A line without a handler stays masked
    /// and the call fails: a handler is always in place before its line can
    /// deliver.
    pub fn unmask(&mut self, line: usize) -> (r: Result<(), IrqError>)
        requires
            old(self).wf(),
        ensures
            final(self).wf(),
            final(self).spec_threshold() == old(self).spec_threshold(),
            (r is Ok) == (line < old(self)@.len() && old(self)@[line as int].handler is Some),
            line >= old(self)@.len() ==> r == Err::<(), IrqError>(IrqError::InvalidLine),
            line < old(self)@.len() && old(self)@[line as int].handler is None ==> r == Err::<
                (),
                IrqError,
            >(IrqError::NotRegistered),
            r is Err ==> *final(self) == *old(self),
            r is Ok ==> final(self)@ == old(self)@.update(
                line as int,
                IrqLine { unmasked: true, ..old(self)@[line as int] },
            ),
    {
        if line >= self.lines.len() {
            return Err(IrqError::InvalidLine);
        }
        let current = self.lines[line];
        if current.handler.is_none() {
            return Err(IrqError::NotRegistered);
        }
        self.lines.set(line, IrqLine { unmasked: true, ..current });
        Ok(())
    }

    /// Stop `line` from delivering interrupts.
    pub fn mask(&mut self, line: usize) -> (r: Result<(), IrqError>)
        requires
            old(self).wf(),
        ensures
            final(self).wf(),
            final(self).spec_threshold() == old(self).spec_threshold(),
            (r is Ok) == (line < old(self)@.len()),
            r is Err ==> r == Err::<(), IrqError>(IrqError::InvalidLine) && *final(self)
                == *old(self),
            r is Ok ==> final(self)@ == old(self)@.update(
                line as int,
                IrqLine { unmasked: false, ..old(self)@[line as int] },
            ),
    {
        if line >= self.lines.len() {
            return Err(IrqError::InvalidLine);
        }
        let current = self.lines[line];
        self.lines.set(line, IrqLine { unmasked: false, ..current });
        Ok(())
    }

    /// Set the controller priority of `line`.
    pub fn set_priority(&mut self, line: usize, level: u8) -> (r: Result<(), IrqError>)
        requires
            old(self).wf(),
        ensures
            final(self).wf(),
            final(self).spec_threshold() == old(self).spec_threshold(),
            (r is Ok) == (line < old(self)@.len()),
            r is Err ==> r == Err::<(), IrqError>(IrqError::InvalidLine) && *final(self)
                == *old(self),
            r is Ok ==> final(self)@ == old(self)@.update(
                line as int,
                IrqLine { priority: level, ..old(self)@[line as int] },
            ),
    {
        if line >= self.lines.len() {
            return Err(IrqError::InvalidLine);
        }
        let current = self.lines[line];
        self.lines.set(line, IrqLine { priority: level, ..current });
        Ok(())
    }

    /// Set the controller's priority threshold.
    pub fn set_threshold(&mut self, level: u8)
        requires
            old(self).wf(),
        ensures
            final(self).wf(),
            final(self)@ == old(self)@,
            final(self).spec_threshold() == level,
    {
        self.threshold = level;
    }

    /// Handler to run for an interrupt delivered on `line`; `None` for a
    /// line that is unknown, masked or has no handler, which is dropped.
    pub fn dispatch(&self, line: usize) -> (r: Option<usize>)
        ensures
            r == spec_dispatch(self@, line as int),
    {
        if line >= self.lines.len() {
            return None;
        }
        let l = self.lines[line];
        if l.unmasked {
            l.handler
        } else {
            None
        }
    }
}

/// Handler for an interrupt taken from user mode on `irq`; `None` when the
/// line is unhandled, which is reported and otherwise ignored.
pub fn irq_handle(registry: &IrqRegistry, irq: u8) -> (r: Option<usize>)
    ensures
        r == spec_dispatch(registry@, irq as int),
{
    registry.dispatch(irq as usize)
}

/// Line of the first UART on the QEMU virt machine's PLIC.
pub const UART0_IRQ: usize = 10;

/// Priority given to the UART line.
pub const UART0_PRIORITY: u8 = 7;

/// Route the UART line through the external interrupt controller, once its
/// handler is registered: give it priority 7, let every priority through,
/// and unmask it. Refused, with nothing changed, when the line does not
/// exist or has no handler yet.
pub fn init_ext(registry: &mut IrqRegistry) -> (r: Result<(), IrqError>)
    requires
        old(registry).wf(),
    ensures
        final(registry).wf(),
        (r is Ok) == (UART0_IRQ < old(registry)@.len()
            && old(registry)@[UART0_IRQ as int].handler is Some),
        UART0_IRQ >= old(registry)@.len() ==> r == Err::<(), IrqError>(IrqError::InvalidLine),
        UART0_IRQ < old(registry)@.len() && old(registry)@[UART0_IRQ as int].handler is None
            ==> r == Err::<(), IrqError>(IrqError::NotRegistered),
        r is Err ==> *final(registry) == *old(registry),
        r is Ok ==> final(registry).spec_threshold() == 0 && final(registry)@ == old(
            registry,
        )@.update(
            UART0_IRQ as int,
            IrqLine { priority: UART0_PRIORITY, unmasked: true, ..old(registry)@[UART0_IRQ as int] },
        ),
{
    if registry.num_lines() <= UART0_IRQ {
        return Err(IrqError::InvalidLine);
    }
    if !registry.has_handler(UART0_IRQ) {
        return Err(IrqError::NotRegistered);
    }
    let _ = registry.set_priority(UART0_IRQ, UART0_PRIORITY);
    registry.set_threshold(0);
    let _ = registry.unmask(UART0_IRQ);
    assert(registry@ =~= old(registry)@.update(
        UART0_IRQ as int,
        IrqLine { priority: UART0_PRIORITY, unmasked: true, ..old(registry)@[UART0_IRQ as int] },
    ));
    Ok(())
}

/// Interrupt codes, as the RISC-V interrupt controller numbers its lines,
/// of the supervisor software and timer interrupts.
pub const SUPERVISOR_SOFT_LINE: usize = 1;
pub const SUPERVISOR_TIMER_LINE: usize = 5;

/// Install the handlers of the supervisor software and timer interrupts and
/// then unmask both lines, so that each handler is in place before its line
/// can deliver. When a line does not exist or already has a handler, the
/// call is refused before anything changes.
pub fn init_core_irqs(registry: &mut IrqRegistry, soft: usize, timer: usize) -> (r: Result<
    (),
    IrqError,
>)
    requires
        old(registry).wf(),
    ensures
        final(registry).wf(),
        (r is Ok) == (SUPERVISOR_TIMER_LINE < old(registry)@.len() && old(
            registry,
        )@[SUPERVISOR_SOFT_LINE as int].handler is None && old(
            registry,
        )@[SUPERVISOR_TIMER_LINE as int].handler is None),
        SUPERVISOR_TIMER_LINE >= old(registry)@.len() ==> r == Err::<(), IrqError>(
            IrqError::InvalidLine,
        ),
        SUPERVISOR_TIMER_LINE < old(registry)@.len() && (old(
            registry,
        )@[SUPERVISOR_SOFT_LINE as int].handler is Some || old(
            registry,
        )@[SUPERVISOR_TIMER_LINE as int].handler is Some) ==> r == Err::<(), IrqError>(
            IrqError::AlreadyRegistered,
        ),
        r is Err ==> *final(registry) == *old(registry),
        forall|i: int|
            (i == SUPERVISOR_SOFT_LINE || i == SUPERVISOR_TIMER_LINE) && final(registry)@.len() > i
                && #[trigger] final(registry)@[i].unmasked ==> final(registry)@[i].handler is Some,
        r is Ok ==> final(registry)@ == old(registry)@.update(
            SUPERVISOR_SOFT_LINE as int,
            IrqLine { handler: Some(soft), unmasked: true, ..old(registry)@[SUPERVISOR_SOFT_LINE as int] },
        ).update(
            SUPERVISOR_TIMER_LINE as int,
            IrqLine {
                handler: Some(timer),
                unmasked: true,
                ..old(registry)@[SUPERVISOR_TIMER_LINE as int]
            },
        ),
{
    if registry.num_lines() <= SUPERVISOR_TIMER_LINE {
        return Err(IrqError::InvalidLine);
    }
    if registry.has_handler(SUPERVISOR_SOFT_LINE) || registry.has_handler(SUPERVISOR_TIMER_LINE) {
        return Err(IrqError::AlreadyRegistered);
    }
    let _ = registry.register(SUPERVISOR_SOFT_LINE, soft);
    let _ = registry.register(SUPERVISOR_TIMER_LINE, timer);
    let _ = registry.unmask(SUPERVISOR_SOFT_LINE);
    let _ = registry.unmask(SUPERVISOR_TIMER_LINE);
    assert(registry@ =~= old(registry)@.update(
        SUPERVISOR_SOFT_LINE as int,
        IrqLine { handler: Some(soft), unmasked: true, ..old(registry)@[SUPERVISOR_SOFT_LINE as int] },
    ).update(
        SUPERVISOR_TIMER_LINE as int,
        IrqLine {
            handler: Some(timer),
            unmasked: true,
            ..old(registry)@[SUPERVISOR_TIMER_LINE as int]
        },
    ));
    Ok(())
}

/// Registering a handler on a free line and then unmasking the line makes a
/// delivery on it run exactly that handler; a delivery on any other line
/// runs what it ran before, so a line without a handler still runs none.
pub proof fn lemma_register_unmask_dispatch(
    lines: Seq<IrqLine>,
    line: int,
    handler: usize,
    other: int,
)
    requires
        0 <= line < lines.len(),
        lines[line].handler is None,
        other != line,
    ensures
        ({
            let registered = lines.update(line, IrqLine { handler: Some(handler), ..lines[line] });
            let live = registered.update(line, IrqLine { unmasked: true, ..registered[line] });
            &&& spec_dispatch(live, line) == Some(handler)
            &&& spec_dispatch(live, other) == spec_dispatch(lines, other)
        }),
{
}

/// A delivery on a line that has no handler runs nothing.
pub proof fn lemma_unregistered_runs_nothing(lines: Seq<IrqLine>, line: int)
    requires
        !(0 <= line < lines.len()) || lines[line].handler is None,
    ensures
        spec_dispatch(lines, line) is None,
{
}

} // verus!
