//! Timer service. The emulation backend keeps any number of one-shot timers
//! in a `TimerQueue`, and fires each once its deadline has passed; bare
//! metal re-arms a single comparator on every tick with a `TickTimer`.
//! Times are in nanoseconds.
use vstd::prelude::*;

verus! {

/// One armed timer: when it may fire, and the caller's token for its
/// callback.
#[derive(Clone, Copy, Debug, PartialEq, Eq, Structural)]
pub struct TimerEntry {
    pub deadline: u64,
    pub callback: usize,
}

/// The entries of `s` whose deadline has passed at `now`, in order.
pub open spec fn due(s: Seq<TimerEntry>, now: u64) -> Seq<TimerEntry> {
    s.filter(|e: TimerEntry| e.deadline <= now)
}

/// The entries of `s` still waiting at `now`, in order.
pub open spec fn pending(s: Seq<TimerEntry>, now: u64) -> Seq<TimerEntry> {
    s.filter(|e: TimerEntry| e.deadline > now)
}

/// Armed one-shot timers, in the order they were set.
pub struct TimerQueue {
    entries: Vec<TimerEntry>,
}

impl View for TimerQueue {
    type V = Seq<TimerEntry>;

    closed spec fn view(&self) -> Seq<TimerEntry> {
        self.entries@
    }
}

impl TimerQueue {
    /// A queue with no timer.
    pub fn new() -> (r: TimerQueue)
        ensures
            r@ == Seq::<TimerEntry>::empty(),
    {
        TimerQueue { entries: Vec::new() }
    }

    /// Number of armed timers.
    pub fn len(&self) -> (r: usize)
        ensures
            r == self@.len(),
    {
        self.entries.len()
    }

    /// Arm a timer that runs `callback` once, at a time not before
    /// `deadline`.
    pub fn set(&mut self, deadline: u64, callback: usize)
        ensures
            final(self)@ == old(self)@.push(TimerEntry { deadline, callback }),
    {
        self.entries.push(TimerEntry { deadline, callback });
    }

    /// Remove and return, in the order they were set, the timers whose
    /// deadline is not after `now`; their callbacks are to run with fire
    /// time `now`. The others stay armed, in order.
    pub fn expire(&mut self, now: u64) -> (fired: Vec<TimerEntry>)
        ensures
            fired@ == due(old(self)@, now),
            final(self)@ == pending(old(self)@, now),
    {
        let ghost s = self.entries@;
        let mut fired: Vec<TimerEntry> = Vec::new();
        let mut kept: Vec<TimerEntry> = Vec::new();
        let n = self.entries.len();
        let mut i: usize = 0;
        while i < n
            invariant
                n == s.len(),
                self.entries@ == s,
                i <= n,
                fired@ == due(s.subrange(0, i as int), now),
                kept@ == pending(s.subrange(0, i as int), now),
            decreases n - i,
        {
            let e = self.entries[i];
            proof {
                let pre = s.subrange(0, i as int);
                assert(s.subrange(0, i + 1) =~= pre.push(e));
                pre.lemma_filter_push(e, |x: TimerEntry| x.deadline <= now);
                pre.lemma_filter_push(e, |x: TimerEntry| x.deadline > now);
            }
            if e.deadline <= now {
                fired.push(e);
            } else {
                kept.push(e);
            }
            i = i + 1;
        }
        assert(s.subrange(0, n as int) =~= s);
        self.entries = kept;
        fired
    }
}

/// Every armed timer is either fired or kept by an expiry, never both and
/// never lost: a timer fires exactly once. A fired timer's deadline is not
/// after the fire time, and a kept one's deadline is after it, so no timer
/// fires early.
pub proof fn lemma_expire_fires_once(s: Seq<TimerEntry>, now: u64)
    ensures
        s.to_multiset() == due(s, now).to_multiset().add(pending(s, now).to_multiset()),
        forall|i: int| 0 <= i < due(s, now).len() ==> #[trigger] due(s, now)[i].deadline <= now,
        forall|i: int|
            0 <= i < pending(s, now).len() ==> #[trigger] pending(s, now)[i].deadline > now,
    decreases s.len(),
{
    let p = |e: TimerEntry| e.deadline <= now;
    let q = |e: TimerEntry| e.deadline > now;
    if s.len() == 0 {
        assert(due(s, now) =~= Seq::<TimerEntry>::empty());
        assert(pending(s, now) =~= Seq::<TimerEntry>::empty());
        s.to_multiset_ensures();
        assert(due(s, now) == s);
        assert(pending(s, now) == s);
        assert forall|a: TimerEntry| s.to_multiset().count(a) == 0 by {
            assert(!s.contains(a));
        }
        assert(s.to_multiset() =~= due(s, now).to_multiset().add(pending(s, now).to_multiset()));
    } else {
        let init = s.drop_last();
        let e = s.last();
        lemma_expire_fires_once(init, now);
        assert(s =~= init.push(e));
        init.lemma_filter_push(e, p);
        init.lemma_filter_push(e, q);
        init.to_multiset_ensures();
        due(init, now).to_multiset_ensures();
        pending(init, now).to_multiset_ensures();
        assert(s.to_multiset() == init.to_multiset().insert(e));
        if e.deadline <= now {
            assert(due(s, now) == due(init, now).push(e));
            assert(pending(s, now) == pending(init, now));
        } else {
            assert(due(s, now) == due(init, now));
            assert(pending(s, now) == pending(init, now).push(e));
        }
        assert(s.to_multiset() =~= due(s, now).to_multiset().add(pending(s, now).to_multiset()));
    }
    assert forall|i: int| 0 <= i < due(s, now).len() implies #[trigger] due(s, now)[i].deadline
        <= now by {
        broadcast use vstd::seq_lib::group_filter_ensures;
    }
    assert forall|i: int| 0 <= i < pending(s, now).len() implies #[trigger] pending(
        s,
        now,
    )[i].deadline > now by {
        broadcast use vstd::seq_lib::group_filter_ensures;
    }
}

/// The single comparator of a bare-metal timer: the next tick's deadline
/// and the period between ticks.
pub struct TickTimer {
    pub interval: u64,
    pub deadline: u64,
}

impl TickTimer {
    /// A comparator with period `interval`, first due at `interval`.
    pub fn new(interval: u64) -> (r: TickTimer)
        ensures
            r.interval == interval,
            r.deadline == interval,
    {
        TickTimer { interval, deadline: interval }
    }

    /// Handle a timer interrupt taken at `now`: re-arm the comparator one
    /// period ahead and return the new deadline.
    pub fn super_timer(&mut self, now: u64) -> (r: u64)
        requires
            now + old(self).interval <= u64::MAX,
        ensures
            r == now + old(self).interval,
            final(self).deadline == r,
            final(self).interval == old(self).interval,
    {
        self.deadline = now + self.interval;
        self.deadline
    }
}

} // verus!
