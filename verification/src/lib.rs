//! A lazily initialising service container.
//!
//! Callers register a zero-argument factory under the identity of a type; the
//! first request for that type runs the factory once, caches what it built, and
//! every later request receives a handle to that same instance.
//!
//! * [`key`] holds what is assumed of `std::any::TypeId`.
//! * [`type_map`] is a map keyed by type identity.
//! * [`erased`] holds type-erased instances and factories.
//! * [`registry`] is the sequential register / resolve protocol.
//! * [`history`] states what holds of every sequence of operations.
//! * [`container`] shares one registry among threads behind a reader-writer lock.

pub mod container;
pub mod erased;
pub mod history;
pub mod key;
pub mod registry;
pub mod type_map;

pub use container::Container;
pub use erased::Factory;
pub use erased::Instance;
pub use registry::Registry;
pub use registry::RegistryState;
pub use registry::ResolveError;
pub use type_map::TypeMap;
