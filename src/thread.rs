//! The park/wake protocol of an execution context. Each context has one
//! wake token; `park` consumes a pending wake or blocks, and `wake` resumes
//! a blocked context or leaves a wake pending, so a wake that comes before
//! the park is never lost.
use vstd::prelude::*;

verus! {

/// Wake-token state of one execution context.
#[derive(Clone, Copy, Debug, PartialEq, Eq, Structural)]
pub enum ParkState {
    /// Running, with no wake pending.
    Empty,
    /// Running, with a wake pending.
    Notified,
    /// Blocked in `park`.
    Parked,
}

/// What the parking context does next.
#[derive(Clone, Copy, Debug, PartialEq, Eq, Structural)]
pub enum ParkStep {
    /// Go on running: a wake was pending.
    Proceed,
    /// Block until woken.
    Block,
}

/// What the waking side does next.
#[derive(Clone, Copy, Debug, PartialEq, Eq, Structural)]
pub enum WakeStep {
    /// Resume the blocked context.
    Resume,
    /// Nothing: the context is running and will see the pending wake.
    Pending,
}

/// State and step after a running context parks.
pub open spec fn spec_park(s: ParkState) -> (ParkState, ParkStep) {
    match s {
        ParkState::Notified => (ParkState::Empty, ParkStep::Proceed),
        _ => (ParkState::Parked, ParkStep::Block),
    }
}

/// State and step after a wake.
pub open spec fn spec_wake(s: ParkState) -> (ParkState, WakeStep) {
    match s {
        ParkState::Parked => (ParkState::Empty, WakeStep::Resume),
        _ => (ParkState::Notified, WakeStep::Pending),
    }
}

/// Wake token of one execution context, shared by the context and every
/// holder of its waker.
pub struct Parker {
    state: ParkState,
}

impl View for Parker {
    type V = ParkState;

    closed spec fn view(&self) -> ParkState {
        self.state
    }
}

impl Parker {
    /// A running context with no wake pending.
    pub fn new() -> (r: Parker)
        ensures
            r@ == ParkState::Empty,
    {
        Parker { state: ParkState::Empty }
    }

    /// Current state of the token.
    pub fn state(&self) -> (r: ParkState)
        ensures
            r == self@,
    {
        self.state
    }

    /// The running context suspends itself: a pending wake is consumed and
    /// the context goes on; otherwise it blocks.
    pub fn park(&mut self) -> (r: ParkStep)
        requires
            old(self)@ != ParkState::Parked,
        ensures
            (final(self)@, r) == spec_park(old(self)@),
    {
        match self.state {
            ParkState::Notified => {
                self.state = ParkState::Empty;
                ParkStep::Proceed
            },
            _ => {
                self.state = ParkState::Parked;
                ParkStep::Block
            },
        }
    }

    /// Another context wakes this one: a blocked context is resumed, a
    /// running one gets a pending wake.
    pub fn wake(&mut self) -> (r: WakeStep)
        ensures
            (final(self)@, r) == spec_wake(old(self)@),
    {
        match self.state {
            ParkState::Parked => {
                self.state = ParkState::Empty;
                WakeStep::Resume
            },
            _ => {
                self.state = ParkState::Notified;
                WakeStep::Pending
            },
        }
    }
}

/// A parked context stays blocked until a wake: only `wake` leaves the
/// parked state, and it does so by resuming the context. A wake that
/// arrives before the park is kept, and the park that follows goes on
/// without blocking. Parking from a running state blocks exactly when no
/// wake is pending.
pub proof fn lemma_no_missed_wakeup(s: ParkState)
    ensures
        spec_wake(ParkState::Parked) == (ParkState::Empty, WakeStep::Resume),
        s != ParkState::Parked ==> spec_park(spec_wake(s).0) == (ParkState::Empty, ParkStep::Proceed),
        s != ParkState::Parked ==> (spec_park(s).1 == ParkStep::Block <==> s == ParkState::Empty),
        spec_park(s).1 == ParkStep::Block ==> spec_park(s).0 == ParkState::Parked,
{
}

} // verus!
