//! A minimal synchronous event-notification library: a subject holds an
//! ordered collection of registered observers and delivers each published
//! event to every one of them in registration order. Observers are registered
//! under different ownership and sharing disciplines — owned, shared-immutable,
//! shared with runtime-checked interior mutability, or lock-guarded across
//! threads — and the subject treats them all through one read-only
//! notification contract.

mod access;
mod observer;
mod subject;

pub use observer::BoxedObserver;
pub use observer::MutObserver;
pub use observer::Observer;
pub use observer::Violation;
pub use subject::Subject;
