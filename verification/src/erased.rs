//! Type-erased instances and the factories that build them.
//!
//! Trait objects with marker bounds cannot be read by the verifier, so the
//! erased value and the stored closure are opaque to it. What the protocol
//! needs to know of an instance, the identity of its concrete type, is kept
//! beside the erased value as a tag.

use crate::key::key_of;
use std::any::Any;
use std::any::TypeId;
use std::sync::Arc;
use vstd::prelude::*;

verus! {

/// A shared, reference-counted pointer to a value whose concrete type is
/// hidden. Two of them are equal when they point to the same value.
///
/// Holds an `Arc<dyn Any + Send + Sync>`; the verifier sees none of it.
#[verifier::external_body]
struct Erased {
    value: Arc<dyn Any + Send + Sync>,
}

/// A stored zero-argument constructor of instances.
///
/// Holds a boxed `dyn Fn() -> Instance + Send + Sync`; the verifier sees none
/// of it.
#[verifier::external_body]
pub struct Factory {
    make: Box<dyn Fn() -> Instance + Send + Sync>,
}

/// Calls `Arc::new` and forgets the type. Nothing is claimed of the pointer.
#[verifier::external_body]
fn erase<T: Send + Sync + 'static>(value: T) -> (r: Erased) {
    Erased { value: Arc::new(value) }
}

/// Calls `Arc::clone`, which hands out one more pointer to the same value and
/// leaves the value alone.
#[verifier::external_body]
fn another(value: &Erased) -> (r: Erased)
    ensures
        r == *value,
{
    Erased { value: Arc::clone(&value.value) }
}

/// Calls `Arc::downcast`, which tests the concrete type before it converts and
/// hands the pointer back where the value is no `T`. Nothing is claimed of which
/// of the two happens.
#[verifier::external_body]
fn recover<T: Send + Sync + 'static>(value: Erased) -> (r: Option<Arc<T>>) {
    value.value.downcast::<T>().ok()
}

/// A shared handle to one constructed value, tagged with the identity of the
/// value's concrete type.
pub struct Instance {
    tag: TypeId,
    value: Erased,
}

impl Instance {
    /// The identity of the concrete type of the value behind the handle.
    pub closed spec fn runtime_type(self) -> TypeId {
        self.tag
    }

    /// Erases `value`, wraps it for shared ownership and tags it with the
    /// identity of `T`.
    pub fn new<T: Send + Sync + 'static>(value: T) -> (r: Instance) {
        Instance { tag: key_of::<T>(), value: erase(value) }
    }

    /// The identity of the concrete type of the value behind the handle.
    pub fn type_key(&self) -> (k: TypeId)
        ensures
            k == self.runtime_type(),
    {
        self.tag
    }

    /// One more handle to the same value.
    pub fn share(&self) -> (r: Instance)
        ensures
            r == *self,
    {
        Instance { tag: self.tag, value: another(&self.value) }
    }

    /// The typed handle, or `None` where the value is no `T`. The conversion
    /// tests the concrete type itself; the tag is not relied on.
    pub fn downcast<T: Send + Sync + 'static>(self) -> (r: Option<Arc<T>>) {
        recover::<T>(self.value)
    }
}

impl Factory {
    /// Stores a constructor.
    ///
    /// Calls `Box::new`. Nothing is claimed of the stored value.
    #[verifier::external_body]
    pub(crate) fn new<C>(make: C) -> (f: Factory) where C: Fn() -> Instance + Send + Sync + 'static {
        Factory { make: Box::new(make) }
    }

    /// Runs the constructor once.
    ///
    /// Calls the stored closure through `Fn::call`. The closure is the
    /// caller's: nothing is claimed of what it builds, and the call returns
    /// only when the closure does.
    #[verifier::external_body]
    pub(crate) fn invoke(&self) -> (r: Instance) {
        (self.make)()
    }
}

} // verus!
