//! What a subsystem shows to the reactor: the events it consumes and the one
//! operation that consumes them.
//!
//! The reactor knows a subsystem's events only as far as it has to build them
//! itself: a message that arrived for the subsystem, or a request that another
//! subsystem made of it. Everything else a subsystem tells itself travels as
//! its `Local` event, which the reactor hands over unread.

use crate::effect::requests::NetworkRequest;
use crate::effect::{Effect, EffectBuilder, Multiple};
use crate::reactor::{lifted, yields_of};
use rand_chacha::ChaCha20Rng;
use vstd::prelude::*;
use vstd::std_specs::convert::FromSpecImpl;

verus! {

/// A subsystem of the node.
pub trait Component<Q>: Sized {
    /// The events that the subsystem consumes.
    type Event;

    /// What the subsystem may do with an event: from the state `before`, with
    /// the random source as it was, it may go to the state `after`, leave the
    /// random source as `rng_after` and hand back `effects`.
    ///
    /// A subsystem that states nothing of itself keeps this as it is: anything
    /// may happen.
    open spec fn handles(
        before: Self,
        effect_builder: EffectBuilder<Q>,
        rng_before: ChaCha20Rng,
        event: Self::Event,
        after: Self,
        rng_after: ChaCha20Rng,
        effects: Seq<Effect<Self::Event>>,
    ) -> bool {
        true
    }

    /// Consumes one event. The subsystem may change its own state and draw
    /// from `rng`; whatever has to wait comes back as an effect.
    fn handle_event(
        &mut self,
        effect_builder: EffectBuilder<Q>,
        rng: &mut ChaCha20Rng,
        event: Self::Event,
    ) -> (effects: Multiple<Effect<Self::Event>>)
        ensures
            Self::handles(
                *old(self),
                effect_builder,
                *old(rng),
                event,
                *final(self),
                *final(rng),
                effects@,
            ),
    ;
}

/// The subsystem `C` is replayable: from one state, one state of the random
/// source and one event it always goes to the same state, leaves the random
/// source in the same state and hands back effects that yield the same.
pub open spec fn replayable<Q, C: Component<Q>>() -> bool {
    forall|
        before: C,
        effect_builder: EffectBuilder<Q>,
        rng_before: ChaCha20Rng,
        event: C::Event,
        after: C,
        rng_after: ChaCha20Rng,
        effects: Seq<Effect<C::Event>>,
        after_again: C,
        rng_after_again: ChaCha20Rng,
        effects_again: Seq<Effect<C::Event>>,
    |
        #![trigger
            C::handles(before, effect_builder, rng_before, event, after, rng_after, effects),
            C::handles(
                before,
                effect_builder,
                rng_before,
                event,
                after_again,
                rng_after_again,
                effects_again,
            ),
        ]
        C::handles(before, effect_builder, rng_before, event, after, rng_after, effects)
            && C::handles(
            before,
            effect_builder,
            rng_before,
            event,
            after_again,
            rng_after_again,
            effects_again,
        ) ==> after == after_again && rng_after == rng_after_again && yields_of(effects)
            == yields_of(effects_again)
}

/// The subsystem has handled `event`: it went from `before` to `after`, took
/// the random source from `rng_before` to `rng_after`, and `effects` yield what
/// the effects it handed back yield, each value passed through `ctor`.
pub open spec fn handled_by<Q, C: Component<Q>, REv>(
    before: C,
    effect_builder: EffectBuilder<Q>,
    rng_before: ChaCha20Rng,
    event: C::Event,
    after: C,
    rng_after: ChaCha20Rng,
    ctor: spec_fn(C::Event) -> REv,
    effects: Seq<Effect<REv>>,
) -> bool {
    exists|inner: Seq<Effect<C::Event>>|
        {
            &&& #[trigger] C::handles(
                before,
                effect_builder,
                rng_before,
                event,
                after,
                rng_after,
                inner,
            )
            &&& yields_of(effects) == lifted(ctor, inner)
        }
}

/// What a replayable subsystem has handled once, it handles the same way
/// again: the same state after, the same random source after, and effects
/// that yield the same.
pub proof fn lemma_handled_by_replays<Q, C: Component<Q>, REv>(
    before: C,
    effect_builder: EffectBuilder<Q>,
    rng_before: ChaCha20Rng,
    event: C::Event,
    ctor: spec_fn(C::Event) -> REv,
    after: C,
    rng_after: ChaCha20Rng,
    effects: Seq<Effect<REv>>,
    after_again: C,
    rng_after_again: ChaCha20Rng,
    effects_again: Seq<Effect<REv>>,
)
    requires
        replayable::<Q, C>(),
        handled_by(before, effect_builder, rng_before, event, after, rng_after, ctor, effects),
        handled_by(
            before,
            effect_builder,
            rng_before,
            event,
            after_again,
            rng_after_again,
            ctor,
            effects_again,
        ),
    ensures
        after == after_again,
        rng_after == rng_after_again,
        yields_of(effects) == yields_of(effects_again),
{
    let inner = choose|inner: Seq<Effect<C::Event>>|
        #[trigger] C::handles(before, effect_builder, rng_before, event, after, rng_after, inner)
            && yields_of(effects) == lifted(ctor, inner);
    let inner_again = choose|inner: Seq<Effect<C::Event>>|
        #[trigger] C::handles(
            before,
            effect_builder,
            rng_before,
            event,
            after_again,
            rng_after_again,
            inner,
        ) && yields_of(effects_again) == lifted(ctor, inner);
    assert(yields_of(inner) == yields_of(inner_again));
}

/// Events of the network subsystem.
#[derive(Debug, Clone, PartialEq, Eq)]
pub enum NetworkEvent<I, P, L> {
    /// Another subsystem asks for a message to be sent.
    Request(NetworkRequest<I, P>),
    /// An event of the transport itself.
    Local(L),
}

impl<I, P, L> From<NetworkRequest<I, P>> for NetworkEvent<I, P, L> {
    fn from(request: NetworkRequest<I, P>) -> (event: Self) {
        NetworkEvent::Request(request)
    }
}

impl<I, P, L> FromSpecImpl<NetworkRequest<I, P>> for NetworkEvent<I, P, L> {
    open spec fn obeys_from_spec() -> bool {
        true
    }

    open spec fn from_spec(request: NetworkRequest<I, P>) -> Self {
        NetworkEvent::Request(request)
    }
}

/// Events of the pinger.
#[derive(Debug, Clone, PartialEq, Eq)]
pub enum PingerEvent<I, M, L> {
    /// A pinger message arrived from a peer.
    MessageReceived {
        /// The peer that sent the message.
        sender: I,
        /// The message.
        msg: M,
    },
    /// An event of the pinger itself.
    Local(L),
}

/// Events of the API server.
#[derive(Debug, Clone, PartialEq, Eq)]
pub enum ApiServerEvent<R, L> {
    /// A request that came in through the API.
    ApiRequest(R),
    /// An event of the server itself.
    Local(L),
}

/// Events of the consensus subsystem.
#[derive(Debug, Clone, PartialEq, Eq)]
pub enum ConsensusEvent<I, M, L> {
    /// A consensus message arrived from a peer.
    MessageReceived {
        /// The peer that sent the message.
        sender: I,
        /// The message.
        msg: M,
    },
    /// An event of the consensus subsystem itself.
    Local(L),
}

/// Events of the deploy gossiper.
#[derive(Debug, Clone, PartialEq, Eq)]
pub enum DeployGossiperEvent<I, M, R, L> {
    /// Another subsystem asks the gossiper for something.
    Request(R),
    /// A gossip message arrived from a peer.
    MessageReceived {
        /// The peer that sent the message.
        sender: I,
        /// The message.
        message: M,
    },
    /// An event of the gossiper itself.
    Local(L),
}

} // verus!
