//! The container: one registry shared among threads.
//!
//! The registry sits behind a reader-writer lock. A request that finds its
//! instance constructed only reads. Any other request takes the lock
//! exclusively and keeps it while it consumes the factory, runs it and
//! publishes what was built, so no thread ever sees a key with neither factory
//! nor instance while its construction is under way: a thread that arrives
//! meanwhile waits for the lock and then finds the instance.
//!
//! A factory that resolves from the container it is registered in waits for a
//! lock that its own thread holds. That is not supported, and nothing detects
//! it.

use crate::erased::Instance;
use crate::key::key_of;
use crate::registry::check;
use crate::registry::typed;
use crate::registry::Registry;
use crate::registry::ResolveError;
use parking_lot::lock_api::RwLock;
use parking_lot::lock_api::RwLockReadGuard;
use parking_lot::lock_api::RwLockWriteGuard;
use parking_lot::RawRwLock;
use std::any::TypeId;
use std::sync::Arc;
use vstd::prelude::*;

verus! {

/// `parking_lot::RawRwLock`, the lock word of a `parking_lot::RwLock`.
#[verifier::external_type_specification]
#[verifier::external_body]
pub struct ExRawRwLock<const RECURSIVE: bool>(RawRwLock<RECURSIVE>);

/// `lock_api::RwLock`, of which `parking_lot::RwLock<T>` is the instance with
/// `parking_lot::RawRwLock`.
#[verifier::external_type_specification]
#[verifier::external_body]
#[verifier::reject_recursive_types(R)]
#[verifier::reject_recursive_types(T)]
pub struct ExRwLock<R, T: ?Sized>(RwLock<R, T>);

/// Shared access to the registry for as long as the value lives.
///
/// Holds a `parking_lot::RwLockReadGuard`, whose declaration carries a bound
/// that the verifier does not read.
#[verifier::external_body]
struct ReadAccess<'a> {
    guard: RwLockReadGuard<'a, RawRwLock, Registry>,
}

/// Exclusive access to the registry for as long as the value lives.
///
/// Holds a `parking_lot::RwLockWriteGuard`, whose declaration carries a bound
/// that the verifier does not read.
#[verifier::external_body]
struct WriteAccess<'a> {
    guard: RwLockWriteGuard<'a, RawRwLock, Registry>,
}

/// Calls `RwLock::new`. Nothing is claimed of the lock.
#[verifier::external_body]
fn new_lock(registry: Registry) -> (lock: RwLock<RawRwLock, Registry>) {
    RwLock::new(registry)
}

/// Calls `RwLock::read`, which blocks until no writer holds the lock. Nothing
/// is claimed of what the lock holds by then: other threads may have written.
/// The call does not return on a thread that holds the lock exclusively, and
/// may panic once the lock has as many readers as it can count.
#[verifier::external_body]
fn read_access<'a>(lock: &'a RwLock<RawRwLock, Registry>) -> (access: ReadAccess<'a>) {
    ReadAccess { guard: lock.read() }
}

/// Calls `RwLock::write`, which blocks until no other thread holds the lock.
/// Nothing is claimed of what the lock holds by then. On a thread that holds
/// the lock already the call does not return, or panics.
#[verifier::external_body]
fn write_access<'a>(lock: &'a RwLock<RawRwLock, Registry>) -> (access: WriteAccess<'a>) {
    WriteAccess { guard: lock.write() }
}

/// Calls `Deref::deref` of the read guard: the registry under the lock.
#[verifier::external_body]
fn shared<'a, 'b>(access: &'b ReadAccess<'a>) -> (registry: &'b Registry) {
    &*access.guard
}

/// Calls `DerefMut::deref_mut` of the write guard: the registry under the lock.
#[verifier::external_body]
fn exclusive<'a, 'b>(access: &'b mut WriteAccess<'a>) -> (registry: &'b mut Registry) {
    &mut *access.guard
}

/// A concurrent, lazily initialising provider of one shared instance per type.
pub struct Container {
    state: RwLock<RawRwLock, Registry>,
}

impl Container {
    /// A container with nothing registered.
    pub fn new() -> (c: Container) {
        Container { state: new_lock(Registry::new()) }
    }

    /// The instance constructed for `key`, if one is there when the lock is
    /// had. Only reads.
    fn cached(&self, key: TypeId) -> (r: Option<Instance>) {
        let access = read_access(&self.state);
        shared(&access).lookup(key)
    }

    /// Registers `factory` under `key`. An instance that exists already stays.
    pub fn register<C>(&self, key: TypeId, factory: C) where
        C: Fn() -> Instance + Send + Sync + 'static,
    {
        let mut access = write_access(&self.state);
        exclusive(&mut access).register(key, factory);
    }

    /// Resolves `key` against whatever the container holds when its lock is
    /// had: see [`Registry::resolve`].
    ///
    /// The instance that comes back is a value of the type that `key`
    /// identifies, and a failure names `key`.
    pub fn resolve(&self, key: TypeId) -> (r: Result<Instance, ResolveError>)
        ensures
            r matches Ok(value) ==> value.runtime_type() == key,
            r matches Err(e) ==> e.spec_requested() == key,
            r matches Err(ResolveError::TypeMismatch { found, .. }) ==> found != key,
    {
        match self.cached(key) {
            Some(value) => check(value, key),
            None => {
                let mut access = write_access(&self.state);
                exclusive(&mut access).resolve(key)
            },
        }
    }

    /// Whether an instance has been constructed for `key` by the time the lock
    /// is had.
    pub fn is_ready(&self, key: TypeId) -> (b: bool) {
        let access = read_access(&self.state);
        shared(&access).is_ready(key)
    }

    /// The keys under which a factory is pending when the lock is had, each
    /// once.
    pub fn pending_keys(&self) -> (r: Vec<TypeId>)
        ensures
            r@.no_duplicates(),
    {
        let access = read_access(&self.state);
        shared(&access).pending_keys()
    }

    /// The keys for which an instance exists when the lock is had, each once.
    pub fn ready_keys(&self) -> (r: Vec<TypeId>)
        ensures
            r@.no_duplicates(),
    {
        let access = read_access(&self.state);
        shared(&access).ready_keys()
    }

    /// Registers `factory` under the identity of `T` and hands the container
    /// back, so that registrations can be chained.
    pub fn add<T: Send + Sync + 'static, C>(&self, factory: C) -> (r: &Self) where
        C: Fn() -> Instance + Send + Sync + 'static,

        ensures
            r == self,
    {
        let key = key_of::<T>();
        self.register(key, factory);
        self
    }

    /// A shared handle to the one instance of `T`, constructed now if this is
    /// the first request for it.
    pub fn get<T: Send + Sync + 'static>(&self) -> (r: Result<Arc<T>, ResolveError>) {
        let key = key_of::<T>();
        typed::<T>(self.resolve(key), key)
    }
}

impl Default for Container {
    fn default() -> (c: Container) {
        Container::new()
    }
}

} // verus!
