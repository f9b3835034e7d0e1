//! The sequential register / resolve protocol.
//!
//! A [`Registry`] holds, per type identity, at most one pending factory and at
//! most one constructed instance. Resolving a key whose instance exists hands
//! that instance out; resolving a key that only has a factory consumes the
//! factory, runs it once and keeps what it built; resolving any other key fails.

use crate::erased::Factory;
use crate::erased::Instance;
use crate::key::key_of;
use crate::key::same_key;
use crate::type_map::TypeMap;
use std::any::TypeId;
use std::sync::Arc;
use vstd::prelude::*;

verus! {

/// Why a key could not be resolved.
#[derive(Clone, Copy, Debug, PartialEq, Eq)]
pub enum ResolveError {
    /// The instance kept under `requested` is a value of the type `found`.
    TypeMismatch { requested: TypeId, found: TypeId },
    /// Neither a factory nor an instance is kept under `requested`.
    UnregisteredKey { requested: TypeId },
}

impl ResolveError {
    /// The key whose resolution failed.
    pub open spec fn spec_requested(self) -> TypeId {
        match self {
            ResolveError::TypeMismatch { requested, .. } => requested,
            ResolveError::UnregisteredKey { requested } => requested,
        }
    }

    /// The key whose resolution failed.
    pub fn requested(&self) -> (k: TypeId)
        ensures
            k == self.spec_requested(),
    {
        match self {
            ResolveError::TypeMismatch { requested, .. } => *requested,
            ResolveError::UnregisteredKey { requested } => *requested,
        }
    }

    /// Whether the failure is a type mismatch.
    pub fn is_type_mismatch(&self) -> (b: bool)
        ensures
            b == (*self is TypeMismatch),
    {
        match self {
            ResolveError::TypeMismatch { .. } => true,
            ResolveError::UnregisteredKey { .. } => false,
        }
    }
}

/// What a request for `key` gets when `value` is the instance kept under it:
/// the instance where its runtime type is `key`, a mismatch otherwise.
pub open spec fn checked(value: Instance, key: TypeId) -> Result<Instance, ResolveError> {
    if value.runtime_type() == key {
        Ok(value)
    } else {
        Err(ResolveError::TypeMismatch { requested: key, found: value.runtime_type() })
    }
}

/// The mathematical state of a registry.
pub struct RegistryState {
    /// The factories that have not run yet.
    pub pending: Map<TypeId, Factory>,
    /// The instances that have been constructed.
    pub ready: Map<TypeId, Instance>,
}

impl RegistryState {
    /// The state with nothing registered.
    pub open spec fn empty() -> RegistryState {
        RegistryState { pending: Map::empty(), ready: Map::empty() }
    }

    /// Whether resolving `key` in this state runs a factory.
    pub open spec fn constructs(self, key: TypeId) -> bool {
        !self.ready.contains_key(key) && self.pending.contains_key(key)
    }

    /// The state after `factory` was registered under `key`.
    pub open spec fn register(self, key: TypeId, factory: Factory) -> RegistryState {
        RegistryState { pending: self.pending.insert(key, factory), ready: self.ready }
    }

    /// The state after `value` was offered for `key`: it is kept unless an
    /// instance is there already.
    pub open spec fn publish(self, key: TypeId, value: Instance) -> RegistryState {
        if self.ready.contains_key(key) {
            self
        } else {
            RegistryState { pending: self.pending, ready: self.ready.insert(key, value) }
        }
    }

    /// The state after `key` was resolved, where `produced` is what the factory
    /// built if it ran.
    pub open spec fn resolve(self, key: TypeId, produced: Instance) -> RegistryState {
        if self.constructs(key) {
            RegistryState {
                pending: self.pending.remove(key),
                ready: self.ready.insert(key, produced),
            }
        } else {
            self
        }
    }

    /// What resolving `key` returns, where `produced` is what the factory built
    /// if it ran.
    pub open spec fn resolved(self, key: TypeId, produced: Instance) -> Result<
        Instance,
        ResolveError,
    > {
        if self.ready.contains_key(key) {
            checked(self.ready[key], key)
        } else if self.pending.contains_key(key) {
            checked(produced, key)
        } else {
            Err(ResolveError::UnregisteredKey { requested: key })
        }
    }
}

/// Pending factories and constructed instances, by type identity.
pub struct Registry {
    pending: TypeMap<Factory>,
    ready: TypeMap<Instance>,
}

/// Tests the runtime type of `value` against `key`.
pub fn check(value: Instance, key: TypeId) -> (r: Result<Instance, ResolveError>)
    ensures
        r == checked(value, key),
{
    let found = value.type_key();
    if same_key(found, key) {
        Ok(value)
    } else {
        Err(ResolveError::TypeMismatch { requested: key, found })
    }
}

impl Registry {
    /// The state that this registry is in.
    pub closed spec fn view(self) -> RegistryState {
        RegistryState { pending: self.pending@, ready: self.ready@ }
    }

    /// A registry with nothing registered.
    pub fn new() -> (r: Registry)
        ensures
            r@ == RegistryState::empty(),
    {
        Registry { pending: TypeMap::new(), ready: TypeMap::new() }
    }

    /// Registers `factory` under `key`, in place of a factory that was pending
    /// there. An instance that exists already is left as it is.
    ///
    /// The stored factory is a new value; the contract names it as what is
    /// pending under `key` afterwards.
    pub fn register<C>(&mut self, key: TypeId, factory: C) where
        C: Fn() -> Instance + Send + Sync + 'static,

        ensures
            final(self)@ == old(self)@.register(key, final(self)@.pending[key]),
    {
        self.pending.insert(key, Factory::new(factory));
    }

    /// Whether an instance has been constructed for `key`.
    pub fn is_ready(&self, key: TypeId) -> (b: bool)
        ensures
            b == self@.ready.contains_key(key),
    {
        self.ready.contains_key(key)
    }

    /// Whether a factory is pending under `key`.
    pub fn is_pending(&self, key: TypeId) -> (b: bool)
        ensures
            b == self@.pending.contains_key(key),
    {
        self.pending.contains_key(key)
    }

    /// The keys under which a factory is pending, each once.
    pub fn pending_keys(&self) -> (r: Vec<TypeId>)
        ensures
            r@.no_duplicates(),
            forall|k: TypeId| r@.contains(k) <==> self@.pending.contains_key(k),
    {
        self.pending.keys()
    }

    /// The keys for which an instance has been constructed, each once.
    pub fn ready_keys(&self) -> (r: Vec<TypeId>)
        ensures
            r@.no_duplicates(),
            forall|k: TypeId| r@.contains(k) <==> self@.ready.contains_key(k),
    {
        self.ready.keys()
    }

    /// A handle to the instance constructed for `key`, if there is one. No
    /// factory runs and nothing changes.
    pub fn lookup(&self, key: TypeId) -> (r: Option<Instance>)
        ensures
            r == (if self@.ready.contains_key(key) {
                Some(self@.ready[key])
            } else {
                None
            }),
    {
        match self.ready.get(key) {
            Some(value) => Some(value.share()),
            None => None,
        }
    }

    /// Offers `value` as the instance for `key`. It is kept unless an instance
    /// is there already, in which case that one stays; the request is then
    /// answered from what is kept.
    pub fn publish(&mut self, key: TypeId, value: Instance) -> (r: Result<Instance, ResolveError>)
        ensures
            final(self)@ == old(self)@.publish(key, value),
            r == checked(final(self)@.ready[key], key),
    {
        match self.lookup(key) {
            Some(kept) => check(kept, key),
            None => {
                let handle = value.share();
                self.ready.insert(key, value);
                check(handle, key)
            },
        }
    }

    /// Resolves `key`: hands out the instance that exists, or else consumes the
    /// pending factory, runs it once and keeps and hands out what it built, or
    /// else fails and changes nothing.
    ///
    /// What the factory builds is not known here; the contract holds whatever
    /// it was, and names it as the instance kept under `key` afterwards.
    pub fn resolve(&mut self, key: TypeId) -> (r: Result<Instance, ResolveError>)
        ensures
            final(self)@ == old(self)@.resolve(key, final(self)@.ready[key]),
            r == old(self)@.resolved(key, final(self)@.ready[key]),
    {
        match self.lookup(key) {
            Some(kept) => check(kept, key),
            None => {
                match self.pending.remove(key) {
                    Some(factory) => {
                        let produced = factory.invoke();
                        let r = self.publish(key, produced);
                        assert(self@.pending =~= old(self)@.pending.remove(key));
                        assert(self@.ready =~= old(self)@.ready.insert(key, self@.ready[key]));
                        r
                    },
                    None => {
                        assert(self@.pending =~= old(self)@.pending);
                        Err(ResolveError::UnregisteredKey { requested: key })
                    },
                }
            },
        }
    }

    /// Registers `factory` under the identity of `T`.
    pub fn add<T: Send + Sync + 'static, C>(&mut self, factory: C) where
        C: Fn() -> Instance + Send + Sync + 'static,

        ensures
            exists|key: TypeId|
                final(self)@ == #[trigger] old(self)@.register(key, final(self)@.pending[key]),
    {
        let key = key_of::<T>();
        self.register(key, factory);
    }

    /// Resolves the identity of `T` and recovers the typed handle.
    pub fn get<T: Send + Sync + 'static>(&mut self) -> (r: Result<Arc<T>, ResolveError>)
        ensures
            exists|key: TypeId|
                {
                    &&& final(self)@ == #[trigger] old(self)@.resolve(key, final(self)@.ready[key])
                    &&& old(self)@.resolved(key, final(self)@.ready[key]) matches Err(e) ==> r
                        == Err::<Arc<T>, ResolveError>(e)
                    &&& r is Ok ==> old(self)@.resolved(key, final(self)@.ready[key]) is Ok
                    &&& r matches Err(e) ==> e.spec_requested() == key
                },
    {
        let key = key_of::<T>();
        typed::<T>(self.resolve(key), key)
    }
}

/// Recovers the typed handle from the outcome of resolving `key`. A failure is
/// passed on; an instance that is no `T` is a mismatch.
pub fn typed<T: Send + Sync + 'static>(outcome: Result<Instance, ResolveError>, key: TypeId) -> (r:
    Result<Arc<T>, ResolveError>)
    ensures
        outcome matches Err(e) ==> r == Err::<Arc<T>, ResolveError>(e),
        r is Ok ==> outcome is Ok,
        (outcome matches Ok(value)) && r is Err ==> r == Err::<Arc<T>, ResolveError>(
            ResolveError::TypeMismatch { requested: key, found: outcome->Ok_0.runtime_type() },
        ),
{
    match outcome {
        Err(e) => Err(e),
        Ok(value) => {
            let found = value.type_key();
            match value.downcast::<T>() {
                Some(handle) => Ok(handle),
                None => Err(ResolveError::TypeMismatch { requested: key, found }),
            }
        },
    }
}

} // verus!
