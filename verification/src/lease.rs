//! The guard that lets at most one runtime be active.

use vstd::prelude::*;

verus! {

/// What can happen to a lease.
pub enum LeaseEvent {
    /// An attempt to start an engine.
    Start,
    /// The end of an engine.
    Stop,
}

/// The flag after `event`, whatever it was before.
pub open spec fn flag_after(event: LeaseEvent) -> bool {
    event is Start
}

/// Whether `event` brings an engine to life: a start that finds the flag
/// clear.
pub open spec fn granted(active: bool, event: LeaseEvent) -> bool {
    event is Start && !active
}

/// Whether `event` ends a live engine: a stop that finds the flag set.
pub open spec fn ended(active: bool, event: LeaseEvent) -> bool {
    event is Stop && active
}

/// The flag of a lease that was made free and has seen `events`.
pub open spec fn flag(events: Seq<LeaseEvent>) -> bool {
    if events.len() == 0 {
        false
    } else {
        flag_after(events.last())
    }
}

/// The number of engines alive after `events` on a lease that was made free.
pub open spec fn alive(events: Seq<LeaseEvent>) -> int
    decreases events.len(),
{
    if events.len() == 0 {
        0
    } else {
        let before = events.drop_last();
        alive(before) + (if granted(flag(before), events.last()) {
            1int
        } else {
            0int
        }) - (if ended(flag(before), events.last()) {
            1int
        } else {
            0int
        })
    }
}

/// At most one engine is alive at any time, and the flag says whether one is.
pub proof fn law_at_most_one_alive(events: Seq<LeaseEvent>)
    ensures
        alive(events) == (if flag(events) {
            1int
        } else {
            0int
        }),
    decreases events.len(),
{
    if events.len() > 0 {
        law_at_most_one_alive(events.drop_last());
    }
}

/// On a lease that was made free, the first start is granted, and a start
/// that follows a start is refused, however the lease got there.
pub proof fn law_start_granted_once(events: Seq<LeaseEvent>)
    ensures
        granted(flag(Seq::<LeaseEvent>::empty()), LeaseEvent::Start),
        !granted(flag(events.push(LeaseEvent::Start)), LeaseEvent::Start),
{
}

/// The flag that says whether a runtime is active. A host keeps one lease for
/// the whole process and hands it to every attempt to start an engine.
pub struct Lease {
    started: bool,
}

impl Lease {
    /// Whether a runtime is active under this lease.
    pub closed spec fn active(&self) -> bool {
        self.started
    }

    /// A lease under which nothing has been started.
    pub fn new() -> (r: Lease)
        ensures
            !r.active(),
    {
        Lease { started: false }
    }

    /// Reads the flag.
    pub fn is_started(&self) -> (r: bool)
        ensures
            r == self.active(),
    {
        self.started
    }

    /// Sets the flag and returns what it was before: `false` means that the
    /// caller now holds the lease, `true` that somebody else does.
    pub fn start(&mut self) -> (was: bool)
        ensures
            was == old(self).active(),
            was == !granted(old(self).active(), LeaseEvent::Start),
            final(self).active() == flag_after(LeaseEvent::Start),
    {
        let was = self.started;
        self.started = true;
        was
    }

    /// Clears the flag and returns what it was before.
    pub fn stop(&mut self) -> (was: bool)
        ensures
            was == old(self).active(),
            was == ended(old(self).active(), LeaseEvent::Stop),
            final(self).active() == flag_after(LeaseEvent::Stop),
    {
        let was = self.started;
        self.started = false;
        was
    }
}

} // verus!
