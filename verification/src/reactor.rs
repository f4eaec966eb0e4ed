//! The reactor: the one place where events are dispatched, and where the
//! effects of a subsystem are turned into effects of the node.

pub mod validator;

use crate::effect::{Effect, Multiple};
use vstd::prelude::*;

verus! {

/// `outer` holds, position by position, a result of `wrap` on the value of
/// `inner`.
pub open spec fn wrapped_by<Ev, REv, F: Fn(Ev) -> REv>(
    wrap: F,
    inner: Seq<Ev>,
    outer: Seq<REv>,
) -> bool {
    &&& outer.len() == inner.len()
    &&& forall|j: int| 0 <= j < inner.len() ==> call_ensures(wrap, (inner[j],), #[trigger] outer[j])
}

/// Every effect of `outer` yields what the effect of `inner` at the same
/// position yields, passed through `wrap`.
pub open spec fn all_wrapped_by<Ev, REv, F: Fn(Ev) -> REv>(
    wrap: F,
    inner: Seq<Effect<Ev>>,
    outer: Seq<Effect<REv>>,
) -> bool {
    &&& outer.len() == inner.len()
    &&& forall|i: int| 0 <= i < inner.len() ==> wrapped_by(wrap, inner[i]@, #[trigger] outer[i]@)
}

/// `wrap` may be called on every value that the effects yield.
pub open spec fn wrap_accepts<Ev, REv, F: Fn(Ev) -> REv>(
    wrap: F,
    effects: Seq<Effect<Ev>>,
) -> bool {
    forall|i: int, j: int|
        0 <= i < effects.len() && 0 <= j < effects[i]@.len() ==> call_requires(
            wrap,
            (#[trigger] effects[i]@[j],),
        )
}

/// What each effect of a collection yields.
pub open spec fn yields_of<Ev>(effects: Seq<Effect<Ev>>) -> Seq<Seq<Ev>> {
    effects.map_values(|effect: Effect<Ev>| effect@)
}

/// What each effect of a collection yields once `ctor` has been applied to
/// every value.
pub open spec fn lifted<Ev, REv>(ctor: spec_fn(Ev) -> REv, effects: Seq<Effect<Ev>>) -> Seq<
    Seq<REv>,
> {
    yields_of(effects).map_values(|yields: Seq<Ev>| yields.map_values(ctor))
}

/// Wraps one effect: the result yields `wrap` of each value that `effect`
/// yields, in the same order.
pub fn wrap_effect<Ev, REv, F>(wrap: &F, effect: Effect<Ev>) -> (wrapped: Effect<REv>) where
    F: Fn(Ev) -> REv,

    requires
        forall|j: int| 0 <= j < effect@.len() ==> call_requires(*wrap, (#[trigger] effect@[j],)),
    ensures
        wrapped_by(*wrap, effect@, wrapped@),
{
    let ghost inner = effect@;
    let mut yields: Multiple<REv> = Vec::new();
    for ev in it: effect.into_yields().into_iter()
        invariant
            it.seq() == inner,
            yields@.len() == it.index(),
            forall|j: int| 0 <= j < inner.len() ==> call_requires(*wrap, (#[trigger] inner[j],)),
            forall|j: int|
                0 <= j < it.index() ==> call_ensures(*wrap, (inner[j],), #[trigger] yields@[j]),
    {
        yields.push(wrap(ev));
    }
    Effect::new(yields)
}

/// Wraps every effect of a collection, so that what a subsystem's effects
/// yield comes out as events of the reactor.
///
/// The result has one effect for each effect given, in the same order, and
/// each yields `wrap` of what the original yields. No effect is completed,
/// dropped or reordered.
pub fn wrap_effects<Ev, REv, F>(wrap: F, effects: Multiple<Effect<Ev>>) -> (wrapped: Multiple<
    Effect<REv>,
>) where F: Fn(Ev) -> REv
    requires
        wrap_accepts(wrap, effects@),
    ensures
        all_wrapped_by(wrap, effects@, wrapped@),
{
    let ghost inner = effects@;
    let mut wrapped: Multiple<Effect<REv>> = Vec::new();
    for effect in it: effects.into_iter()
        invariant
            it.seq() == inner,
            wrapped@.len() == it.index(),
            wrap_accepts(wrap, inner),
            forall|i: int|
                0 <= i < it.index() ==> wrapped_by(wrap, inner[i]@, #[trigger] wrapped@[i]@),
    {
        wrapped.push(wrap_effect(&wrap, effect));
    }
    wrapped
}

/// Where `wrap` can return nothing but `ctor` of its argument, a wrapped
/// effect yields exactly `ctor` of each value that the inner effect yields.
pub proof fn lemma_wrapped_yields<Ev, REv, F: Fn(Ev) -> REv>(
    wrap: F,
    ctor: spec_fn(Ev) -> REv,
    inner: Seq<Ev>,
    outer: Seq<REv>,
)
    requires
        forall|a: Ev, b: REv| call_ensures(wrap, (a,), b) ==> b == ctor(a),
        wrapped_by(wrap, inner, outer),
    ensures
        outer == inner.map_values(ctor),
{
    assert(outer =~= inner.map_values(ctor));
}

/// Wrapping keeps the number of effects, and each wrapped effect yields `ctor`
/// of what the effect at its position yields.
pub proof fn lemma_wrap_effects_maps<Ev, REv, F: Fn(Ev) -> REv>(
    wrap: F,
    ctor: spec_fn(Ev) -> REv,
    inner: Seq<Effect<Ev>>,
    outer: Seq<Effect<REv>>,
)
    requires
        forall|a: Ev, b: REv| call_ensures(wrap, (a,), b) ==> b == ctor(a),
        all_wrapped_by(wrap, inner, outer),
    ensures
        outer.len() == inner.len(),
        yields_of(outer) == lifted(ctor, inner),
{
    assert forall|i: int| 0 <= i < inner.len() implies #[trigger] outer[i]@ == inner[i]@.map_values(
        ctor,
    ) by {
        lemma_wrapped_yields(wrap, ctor, inner[i]@, outer[i]@);
    }
    assert(yields_of(outer) =~= lifted(ctor, inner));
}

} // verus!
