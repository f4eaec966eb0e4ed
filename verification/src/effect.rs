//! Effects: deferred computations, and the handle that subsystems are given to
//! reach the event queue.

pub mod announcements;
pub mod requests;

use vstd::prelude::*;

verus! {

/// Zero or more values of one kind.
pub type Multiple<T> = Vec<T>;

/// A deferred computation, described by the values it yields when it completes.
///
/// The reactor neither completes an effect nor reads what it yields: it only
/// wraps it for its owner. Whoever drives the reactor resolves each effect
/// when its time has come and submits what it yields to the event queue.
#[derive(Debug, Clone, PartialEq, Eq)]
pub struct Effect<Ev> {
    yields: Multiple<Ev>,
}

impl<Ev> View for Effect<Ev> {
    type V = Seq<Ev>;

    /// The values that the effect yields, in order.
    closed spec fn view(&self) -> Seq<Ev> {
        self.yields@
    }
}

impl<Ev> Effect<Ev> {
    /// An effect that yields `yields` when it completes.
    pub fn new(yields: Multiple<Ev>) -> (effect: Self)
        ensures
            effect@ == yields@,
    {
        Effect { yields }
    }

    /// Takes the effect apart without completing it, for the reactor to wrap
    /// what it will yield.
    pub(crate) fn into_yields(self) -> (yields: Multiple<Ev>)
        ensures
            yields@ == self@,
    {
        self.yields
    }

    /// Completes the effect and hands out what it yields.
    pub fn resolve(self) -> (yields: Multiple<Ev>)
        ensures
            yields@ == self@,
    {
        self.yields
    }
}

/// The handle that a subsystem is given to schedule work: it holds the handle
/// of the event queue that the reactor was started on, and nothing else. It is
/// copied freely; it has no state of its own.
#[derive(Debug, Clone, Copy, PartialEq, Eq)]
pub struct EffectBuilder<Q> {
    event_queue: Q,
}

impl<Q: Copy> EffectBuilder<Q> {
    /// The queue handle that the builder was made with.
    pub closed spec fn spec_event_queue(&self) -> Q {
        self.event_queue
    }

    /// The builder for the queue `event_queue`.
    pub closed spec fn spec_new(event_queue: Q) -> Self {
        EffectBuilder { event_queue }
    }

    /// A builder for effects whose events go back to `event_queue`.
    #[verifier::when_used_as_spec(spec_new)]
    pub fn new(event_queue: Q) -> (builder: Self)
        ensures
            builder == Self::spec_new(event_queue),
            builder.spec_event_queue() == event_queue,
    {
        EffectBuilder { event_queue }
    }

    /// The queue handle that the builder was made with.
    #[verifier::when_used_as_spec(spec_event_queue)]
    pub fn event_queue(&self) -> (event_queue: Q)
        ensures
            event_queue == self.spec_event_queue(),
    {
        self.event_queue
    }
}

} // verus!
