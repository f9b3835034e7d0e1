//! What holds of every sequence of registrations and resolutions.
//!
//! Under the container's lock the operations of all threads take place one
//! after the other, so a run of the container is a sequence of steps on one
//! registry state.

use crate::erased::Factory;
use crate::erased::Instance;
use crate::registry::checked;
use crate::registry::RegistryState;
use crate::registry::ResolveError;
use std::any::TypeId;
use vstd::prelude::*;

verus! {

/// One operation on a registry.
pub enum Step {
    /// `factory` is registered under `key`.
    Register { key: TypeId, factory: Factory },
    /// `key` is resolved; `produced` is what its factory builds if it runs.
    Resolve { key: TypeId, produced: Instance },
}

/// The state after one step.
pub open spec fn after(state: RegistryState, step: Step) -> RegistryState {
    match step {
        Step::Register { key, factory } => state.register(key, factory),
        Step::Resolve { key, produced } => state.resolve(key, produced),
    }
}

/// The state after a sequence of steps.
pub open spec fn run(state: RegistryState, steps: Seq<Step>) -> RegistryState
    decreases steps.len(),
{
    if steps.len() == 0 {
        state
    } else {
        after(run(state, steps.drop_last()), steps.last())
    }
}

/// Whether `step`, taken in `state`, runs the factory of `key`.
pub open spec fn runs_factory(state: RegistryState, step: Step, key: TypeId) -> bool {
    step matches Step::Resolve { key: k, .. } && k == key && state.constructs(key)
}

/// How often the factory of `key` runs in a sequence of steps.
pub open spec fn constructions(state: RegistryState, steps: Seq<Step>, key: TypeId) -> nat
    decreases steps.len(),
{
    if steps.len() == 0 {
        0
    } else {
        let earlier = constructions(state, steps.drop_last(), key);
        if runs_factory(run(state, steps.drop_last()), steps.last(), key) {
            earlier + 1
        } else {
            earlier
        }
    }
}

/// An instance, once constructed, stays: no step removes or replaces it.
pub proof fn lemma_instance_stays(state: RegistryState, steps: Seq<Step>, key: TypeId)
    requires
        state.ready.contains_key(key),
    ensures
        run(state, steps).ready.contains_key(key),
        run(state, steps).ready[key] == state.ready[key],
    decreases steps.len(),
{
    if steps.len() > 0 {
        lemma_instance_stays(state, steps.drop_last(), key);
    }
}

/// A key that has a factory or an instance never loses both: between any two
/// steps it has one of them, so resolving it never fails for want of a
/// provider.
pub proof fn provider_stays(state: RegistryState, steps: Seq<Step>, key: TypeId, produced: Instance)
    requires
        state.ready.contains_key(key) || state.pending.contains_key(key),
    ensures
        run(state, steps).ready.contains_key(key) || run(state, steps).pending.contains_key(key),
        !(run(state, steps).resolved(key, produced) is Err && run(state, steps).resolved(
            key,
            produced,
        )->Err_0 is UnregisteredKey),
    decreases steps.len(),
{
    if steps.len() > 0 {
        provider_stays(state, steps.drop_last(), key, produced);
    }
}

/// Whatever is registered and resolved, in whatever
/// order and from whatever state, the factory of one key runs at most once;
/// and once it has run, the key has its instance.
pub proof fn single_construction(state: RegistryState, steps: Seq<Step>, key: TypeId)
    ensures
        constructions(state, steps, key) <= 1,
        constructions(state, steps, key) == 1 ==> run(state, steps).ready.contains_key(key),
        state.ready.contains_key(key) ==> constructions(state, steps, key) == 0,
    decreases steps.len(),
{
    if steps.len() > 0 {
        single_construction(state, steps.drop_last(), key);
        if state.ready.contains_key(key) {
            lemma_instance_stays(state, steps.drop_last(), key);
        }
    }
}

/// Once a key has been resolved, every later resolution of
/// it, after any further steps, answers with the same instance or the same
/// failure as the first one did.
pub proof fn shared_identity(
    state: RegistryState,
    key: TypeId,
    produced: Instance,
    steps: Seq<Step>,
    later: Instance,
)
    requires
        state.ready.contains_key(key) || state.pending.contains_key(key),
    ensures
        run(state.resolve(key, produced), steps).resolved(key, later) == state.resolved(
            key,
            produced,
        ),
        state.resolved(key, produced) matches Ok(value) ==> run(
            state.resolve(key, produced),
            steps,
        ).ready[key] == value,
{
    lemma_instance_stays(state.resolve(key, produced), steps, key);
}

/// A resolution never hands out an instance whose runtime type is
/// not the requested key. Where the instance kept or built for the key is of
/// another type, the resolution fails with a mismatch that names both.
pub proof fn type_safety(state: RegistryState, key: TypeId, produced: Instance)
    ensures
        state.resolved(key, produced) matches Ok(value) ==> value.runtime_type() == key,
        state.constructs(key) && produced.runtime_type() != key ==> state.resolved(key, produced)
            == Err::<Instance, ResolveError>(
            ResolveError::TypeMismatch { requested: key, found: produced.runtime_type() },
        ),
        state.ready.contains_key(key) && state.ready[key].runtime_type() != key ==> state.resolved(
            key,
            produced,
        ) == Err::<Instance, ResolveError>(
            ResolveError::TypeMismatch { requested: key, found: state.ready[key].runtime_type() },
        ),
{
}

/// An unregistered key fails to resolve, and the failed resolution changes
/// nothing.
pub proof fn unregistered_fails(state: RegistryState, key: TypeId, produced: Instance)
    requires
        !state.ready.contains_key(key),
        !state.pending.contains_key(key),
    ensures
        state.resolved(key, produced) == Err::<Instance, ResolveError>(
            ResolveError::UnregisteredKey { requested: key },
        ),
        state.resolve(key, produced) == state,
{
}

/// A step on one key neither runs the factory of another key nor
/// changes what is pending or constructed for it, nor what resolving it
/// returns.
pub proof fn independent_keys(state: RegistryState, step: Step, other: TypeId, produced: Instance)
    requires
        match step {
            Step::Register { key, .. } => key != other,
            Step::Resolve { key, .. } => key != other,
        },
    ensures
        !runs_factory(state, step, other),
        after(state, step).pending.contains_key(other) == state.pending.contains_key(other),
        after(state, step).ready.contains_key(other) == state.ready.contains_key(other),
        state.pending.contains_key(other) ==> after(state, step).pending[other]
            == state.pending[other],
        state.ready.contains_key(other) ==> after(state, step).ready[other] == state.ready[other],
        after(state, step).constructs(other) == state.constructs(other),
        after(state, step).resolved(other, produced) == state.resolved(other, produced),
{
}

/// Registering again for a key whose instance exists changes nothing that a
/// resolution can see: the instance stays, the new factory never runs, and
/// resolving answers as before.
pub proof fn stale_factory_ignored(
    state: RegistryState,
    key: TypeId,
    factory: Factory,
    produced: Instance,
    before: Instance,
)
    requires
        state.ready.contains_key(key),
    ensures
        state.register(key, factory).ready == state.ready,
        !state.register(key, factory).constructs(key),
        state.register(key, factory).resolved(key, produced) == state.resolved(key, before),
        state.register(key, factory).resolve(key, produced) == state.register(key, factory),
{
}

} // verus!
