//! The cancellation coordinator: a single slot holding the generation of
//! the most recently issued navigation task. Issuing a new generation
//! replaces the slot, so an older task's result can no longer be delivered;
//! a task's result is delivered only while its own generation still holds
//! the slot. This realizes "last request wins" for navigation.

use vstd::prelude::*;

verus! {

/// The single-slot coordinator: the next generation to hand out and the
/// generation currently entitled to deliver.
pub struct Coordinator {
    next_gen: u64,
    active: Option<u64>,
}

/// One issuing step: `g` was handed out, the slot now holds `g` alone, and
/// the next generation moved past it.
pub open spec fn spec_issued(pre: Coordinator, post: Coordinator, g: u64) -> bool {
    &&& g == pre.spec_next_gen()
    &&& post.spec_next_gen() == g + 1
    &&& post.spec_active() == Some(g)
}

impl Coordinator {
    /// The generation the next navigation task will run under.
    pub closed spec fn spec_next_gen(&self) -> u64 {
        self.next_gen
    }

    /// The generation currently entitled to deliver, if any.
    pub closed spec fn spec_active(&self) -> Option<u64> {
        self.active
    }

    /// Every handed-out slot generation lies below the next one.
    pub open spec fn wf(&self) -> bool {
        match self.spec_active() {
            Some(g) => g < self.spec_next_gen(),
            None => true,
        }
    }

    /// A task completing under generation `g` delivers its result exactly
    /// when `g` still holds the slot.
    pub open spec fn delivers(&self, g: u64) -> bool {
        self.spec_active() == Some(g)
    }

    /// A fresh coordinator: no task issued, nothing deliverable.
    pub fn new() -> (r: Coordinator)
        ensures
            r.wf(),
            r.spec_next_gen() == 0,
            r.spec_active() is None,
            forall|g: u64| !r.delivers(g),
    {
        Coordinator { next_gen: 0, active: None }
    }

    /// Issues a fresh generation, cancelling whatever held the slot: after
    /// the call only the new generation can deliver.
    pub fn issue(&mut self) -> (g: u64)
        requires
            old(self).wf(),
            old(self).spec_next_gen() < u64::MAX,
        ensures
            final(self).wf(),
            spec_issued(*old(self), *final(self), g),
            final(self).delivers(g),
            forall|h: u64| h != g ==> !final(self).delivers(h),
    {
        let g = self.next_gen;
        self.next_gen = g + 1;
        self.active = Some(g);
        g
    }

    /// Whether another generation can still be issued; false only once the
    /// counter is spent.
    pub fn gen_available(&self) -> (b: bool)
        ensures
            b == (self.spec_next_gen() < u64::MAX),
    {
        self.next_gen < u64::MAX
    }

    /// Whether a task completing under generation `g` may deliver now.
    pub fn should_deliver(&self, g: u64) -> (b: bool)
        ensures
            b == self.delivers(g),
    {
        match self.active {
            Some(a) => a == g,
            None => false,
        }
    }
}

/// Law: the slot holds at most one generation, so at most one in-flight
/// navigation result is ever deliverable.
pub proof fn lemma_single_slot(c: Coordinator, g1: u64, g2: u64)
    requires
        c.delivers(g1),
        c.delivers(g2),
    ensures
        g1 == g2,
{
}

/// Law: when navigation request B is issued while request A is still in
/// flight and no further request follows, A's generation can no longer
/// deliver and only B's can: if both tasks complete, only B's result is
/// delivered, and at most one response reaches the caller.
pub proof fn lemma_last_request_wins(
    c0: Coordinator,
    c1: Coordinator,
    c2: Coordinator,
    ga: u64,
    gb: u64,
)
    requires
        spec_issued(c0, c1, ga),
        spec_issued(c1, c2, gb),
    ensures
        !c2.delivers(ga),
        c2.delivers(gb),
        forall|h: u64| c2.delivers(h) ==> h == gb,
{
}

} // verus!
