//! The notification capability: the contract an event receiver satisfies, in a
//! read-only and a mutable variant, and the bridging that lets every supported
//! ownership wrapper around a receiver satisfy the read-only contract.

use vstd::prelude::*;

use crate::access::{
    cell_try_borrow, cell_try_borrow_mut, mutex_guard_access, mutex_guard_access_mut, mutex_lock,
    read_guard_access, ref_access, refmut_access, rwlock_read, rwlock_write, write_guard_access_mut,
};
use std::cell::RefCell;
use std::rc::Rc;
use std::sync::{Arc, Mutex, RwLock};

verus! {

/// An unrecoverable fault raised while delivering an event or editing the
/// registry. Verified code reports it as a value instead of aborting the
/// process, so the two kinds stay distinguishable at the caller.
#[derive(Clone, Copy, Debug, PartialEq, Eq, Structural)]
pub enum Violation {
    /// A borrow-discipline conflict or a poisoned lock inside an ownership
    /// wrapper's access-acquisition step.
    Access,
    /// An out-of-range handle passed to a positional operation.
    Bounds,
}

/// A read-only event receiver: reacting needs only shared access to the
/// receiver. An implementation may describe its possible outcomes by
/// overriding `delivery`; the default promises nothing.
pub trait Observer<E> {
    /// What this receiver guarantees of an outcome of `on_notify`.
    open spec fn delivery(&self, event: &E, outcome: Result<(), Violation>) -> bool {
        true
    }

    /// React to `event`. Returns a violation when an ownership wrapper on the
    /// path to the receiver cannot obtain the access its discipline demands.
    fn on_notify(&self, event: &E) -> (outcome: Result<(), Violation>)
        ensures
            self.delivery(event, outcome),
    ;
}

/// A mutable event receiver: reacting needs exclusive access to the receiver.
pub trait MutObserver<E> {
    /// React to `event` with exclusive access to the receiver.
    fn on_notify(&mut self, event: &E);
}

/// An owned, type-erased read-only receiver: the form in which the subject
/// stores every registered observer.
#[verifier::reject_recursive_types(E)]
pub struct BoxedObserver<E> {
    /// The erased receiver; most often one of the ownership wrappers below.
    pub inner: Box<dyn Observer<E>>,
}

impl<E> View for BoxedObserver<E> {
    type V = Box<dyn Observer<E>>;

    open spec fn view(&self) -> Box<dyn Observer<E>> {
        self.inner
    }
}

impl<E> BoxedObserver<E> {
    /// Erase an already-boxed receiver.
    pub fn new(inner: Box<dyn Observer<E>>) -> (boxed: Self)
        ensures
            boxed == (BoxedObserver { inner }),
    {
        BoxedObserver { inner }
    }
}

impl<E> Observer<E> for BoxedObserver<E> {
    open spec fn delivery(&self, event: &E, outcome: Result<(), Violation>) -> bool {
        (*self.inner).delivery(event, outcome)
    }

    fn on_notify(&self, event: &E) -> (outcome: Result<(), Violation>) {
        (*self.inner).on_notify(event)
    }
}

/// Single-thread shared, immutable: forwards directly, no acquisition step.
impl<E> Observer<E> for Rc<dyn Observer<E>> {
    open spec fn delivery(&self, event: &E, outcome: Result<(), Violation>) -> bool {
        (**self).delivery(event, outcome)
    }

    fn on_notify(&self, event: &E) -> (outcome: Result<(), Violation>) {
        (**self).on_notify(event)
    }
}

/// Multi-thread shared, immutable: forwards directly, no acquisition step.
impl<E> Observer<E> for Arc<dyn Observer<E>> {
    open spec fn delivery(&self, event: &E, outcome: Result<(), Violation>) -> bool {
        (**self).delivery(event, outcome)
    }

    fn on_notify(&self, event: &E) -> (outcome: Result<(), Violation>) {
        (**self).on_notify(event)
    }
}

/// Single-thread shared, interior-mutable, read-only receiver: takes a
/// runtime-checked shared borrow for the duration of one reaction. A
/// conflicting live borrow is an access violation.
impl<E> Observer<E> for Rc<RefCell<dyn Observer<E>>> {
    fn on_notify(&self, event: &E) -> (outcome: Result<(), Violation>) {
        match cell_try_borrow(&**self) {
            Some(guard) => ref_access(&guard).on_notify(event),
            None => Err(Violation::Access),
        }
    }
}

/// Single-thread shared, interior-mutable, mutable receiver: takes a
/// runtime-checked exclusive borrow for the duration of one reaction. Any
/// other live borrow is an access violation; the reaction itself returns no
/// value, so every outcome is success or that violation.
impl<E> Observer<E> for Rc<RefCell<dyn MutObserver<E>>> {
    open spec fn delivery(&self, event: &E, outcome: Result<(), Violation>) -> bool {
        outcome == Ok::<(), Violation>(()) || outcome == Err::<(), Violation>(Violation::Access)
    }

    fn on_notify(&self, event: &E) -> (outcome: Result<(), Violation>) {
        match cell_try_borrow_mut(&**self) {
            Some(mut guard) => {
                refmut_access(&mut guard).on_notify(event);
                Ok(())
            },
            None => Err(Violation::Access),
        }
    }
}

/// Multi-thread shared, mutex-guarded, read-only receiver: blocks until the
/// mutex is held for the duration of one reaction. A poisoned mutex is an
/// access violation.
impl<E> Observer<E> for Arc<Mutex<dyn Observer<E>>> {
    fn on_notify(&self, event: &E) -> (outcome: Result<(), Violation>) {
        match mutex_lock(&**self) {
            Some(guard) => mutex_guard_access(&guard).on_notify(event),
            None => Err(Violation::Access),
        }
    }
}

/// Multi-thread shared, mutex-guarded, mutable receiver: blocks until the
/// mutex is held for the duration of one reaction. A poisoned mutex is an
/// access violation; the reaction itself returns no value, so every outcome
/// is success or that violation.
impl<E> Observer<E> for Arc<Mutex<dyn MutObserver<E>>> {
    open spec fn delivery(&self, event: &E, outcome: Result<(), Violation>) -> bool {
        outcome == Ok::<(), Violation>(()) || outcome == Err::<(), Violation>(Violation::Access)
    }

    fn on_notify(&self, event: &E) -> (outcome: Result<(), Violation>) {
        match mutex_lock(&**self) {
            Some(mut guard) => {
                mutex_guard_access_mut(&mut guard).on_notify(event);
                Ok(())
            },
            None => Err(Violation::Access),
        }
    }
}

/// Multi-thread shared, read-write-lock, read-only receiver: blocks until
/// shared access is held for the duration of one reaction. A poisoned lock is
/// an access violation.
impl<E> Observer<E> for Arc<RwLock<dyn Observer<E>>> {
    fn on_notify(&self, event: &E) -> (outcome: Result<(), Violation>) {
        match rwlock_read(&**self) {
            Some(guard) => read_guard_access(&guard).on_notify(event),
            None => Err(Violation::Access),
        }
    }
}

/// Multi-thread shared, read-write-lock, mutable receiver: blocks until
/// exclusive access is held for the duration of one reaction. A poisoned lock
/// is an access violation; the reaction itself returns no value, so every
/// outcome is success or that violation.
impl<E> Observer<E> for Arc<RwLock<dyn MutObserver<E>>> {
    open spec fn delivery(&self, event: &E, outcome: Result<(), Violation>) -> bool {
        outcome == Ok::<(), Violation>(()) || outcome == Err::<(), Violation>(Violation::Access)
    }

    fn on_notify(&self, event: &E) -> (outcome: Result<(), Violation>) {
        match rwlock_write(&**self) {
            Some(mut guard) => {
                write_guard_access_mut(&mut guard).on_notify(event);
                Ok(())
            },
            None => Err(Violation::Access),
        }
    }
}

} // verus!
