//! The subject registry: an ordered collection of type-erased read-only
//! receivers, with registration, positional removal and broadcast
//! notification in registration order.

use vstd::prelude::*;

use crate::observer::{BoxedObserver, MutObserver, Observer, Violation};
use std::cell::RefCell;
use std::rc::Rc;
use std::sync::{Arc, Mutex, RwLock};

verus! {

/// A publisher over one event type. Its view is the sequence of registered
/// observers, in registration order after any removals.
#[verifier::reject_recursive_types(E)]
pub struct Subject<E> {
    observers: Vec<BoxedObserver<E>>,
}

impl<E> View for Subject<E> {
    type V = Seq<BoxedObserver<E>>;

    closed spec fn view(&self) -> Seq<BoxedObserver<E>> {
        self.observers@
    }
}

impl<E> Default for Subject<E> {
    fn default() -> (subject: Self)
        ensures
            subject@ == Seq::<BoxedObserver<E>>::empty(),
    {
        Subject::new()
    }
}

impl<E> Subject<E> {
    /// An empty subject.
    pub fn new() -> (subject: Self)
        ensures
            subject@ == Seq::<BoxedObserver<E>>::empty(),
            subject@.len() == 0,
    {
        Subject { observers: Vec::new() }
    }

    /// How many observers are currently registered.
    pub fn observer_count(&self) -> (count: usize)
        ensures
            count == self@.len(),
    {
        self.observers.len()
    }

    /// Deliver `event` to every registered observer, strictly in registration
    /// order. A violation raised by an observer's bridging step aborts the
    /// remaining iteration and is returned; every observer before it received
    /// the event and reported a non-violating outcome.
    pub fn notify(&self, event: &E) -> (outcome: Result<(), Violation>)
        ensures
            match outcome {
                Ok(()) => forall|i: int|
                    0 <= i < self@.len() ==> #[trigger] self@[i].delivery(event, Ok(())),
                Err(violation) => exists|k: int|
                    0 <= k < self@.len() && #[trigger] self@[k].delivery(event, Err(violation))
                        && forall|i: int| 0 <= i < k ==> #[trigger] self@[i].delivery(
                        event,
                        Ok(()),
                    ),
            },
            self@.len() == 0 ==> outcome == Ok::<(), Violation>(()),
    {
        let mut i: usize = 0;
        while i < self.observers.len()
            invariant
                i <= self@.len(),
                forall|j: int| 0 <= j < i ==> #[trigger] self@[j].delivery(event, Ok(())),
            decreases self@.len() - i,
        {
            let outcome = self.observers[i].on_notify(event);
            match outcome {
                Ok(unit) => {
                    // Names the successful outcome so the solver can rewrite
                    // the delivery fact from `outcome` to `Ok(())`.
                    proof {
                        assert(outcome == Ok::<(), Violation>(unit));
                    }
                },
                Err(violation) => {
                    return Err(violation);
                },
            }
            i = i + 1;
        }
        Ok(())
    }

    /// Register an erased observer; the returned handle is its position, and
    /// stays valid until an observer at a lower position is removed.
    pub fn add_observer(&mut self, observer: BoxedObserver<E>) -> (handle: usize)
        ensures
            final(self)@ == old(self)@.push(observer),
            handle == old(self)@.len(),
    {
        self.observers.push(observer);
        self.observers.len() - 1
    }

    /// Remove and return the observer at `index`, compacting the collection:
    /// every observer past `index` moves down by exactly one position.
    pub fn remove_observer(&mut self, index: usize) -> (removed: BoxedObserver<E>)
        requires
            index < old(self)@.len(),
        ensures
            removed == old(self)@[index as int],
            final(self)@ == old(self)@.remove(index as int),
            final(self)@.len() == old(self)@.len() - 1,
            forall|j: int| 0 <= j < index ==> final(self)@[j] == old(self)@[j],
            forall|j: int|
                index <= j < final(self)@.len() ==> final(self)@[j] == old(self)@[j + 1],
    {
        self.observers.remove(index)
    }

    /// Remove by handle, reporting an out-of-range handle as a bounds
    /// violation and leaving the collection unchanged.
    pub fn try_remove_observer(&mut self, index: usize) -> (outcome: Result<
        BoxedObserver<E>,
        Violation,
    >)
        ensures
            match outcome {
                Ok(removed) => index < old(self)@.len() && removed == old(self)@[index as int]
                    && final(self)@ == old(self)@.remove(index as int) && final(self)@.len()
                    == old(self)@.len() - 1,
                Err(violation) => violation == Violation::Bounds && index >= old(self)@.len()
                    && final(self)@ == old(self)@,
            },
    {
        if self.observers.len() > index {
            Ok(self.remove_observer(index))
        } else {
            Err(Violation::Bounds)
        }
    }
}

impl<E: 'static> Subject<E> {
    /// Register a single-thread shared, immutable receiver.
    pub fn add_rc_observer(&mut self, observer: Rc<dyn Observer<E>>) -> (handle: usize)
        ensures
            final(self)@.len() == old(self)@.len() + 1,
            handle == old(self)@.len(),
            forall|j: int| 0 <= j < old(self)@.len() ==> final(self)@[j] == old(self)@[j],
    {
        self.add_observer(BoxedObserver::new(Box::new(observer)))
    }

    /// Register a single-thread shared, interior-mutable, read-only receiver.
    pub fn add_rc_refcell_observer(&mut self, observer: Rc<RefCell<dyn Observer<E>>>) -> (handle:
        usize)
        ensures
            final(self)@.len() == old(self)@.len() + 1,
            handle == old(self)@.len(),
            forall|j: int| 0 <= j < old(self)@.len() ==> final(self)@[j] == old(self)@[j],
    {
        self.add_observer(BoxedObserver::new(Box::new(observer)))
    }

    /// Register a single-thread shared, interior-mutable, mutable receiver.
    pub fn add_rc_refcell_mut_observer(
        &mut self,
        observer: Rc<RefCell<dyn MutObserver<E>>>,
    ) -> (handle: usize)
        ensures
            final(self)@.len() == old(self)@.len() + 1,
            handle == old(self)@.len(),
            forall|j: int| 0 <= j < old(self)@.len() ==> final(self)@[j] == old(self)@[j],
    {
        self.add_observer(BoxedObserver::new(Box::new(observer)))
    }

    /// Register a multi-thread shared, immutable receiver.
    pub fn add_arc_observer(&mut self, observer: Arc<dyn Observer<E>>) -> (handle: usize)
        ensures
            final(self)@.len() == old(self)@.len() + 1,
            handle == old(self)@.len(),
            forall|j: int| 0 <= j < old(self)@.len() ==> final(self)@[j] == old(self)@[j],
    {
        self.add_observer(BoxedObserver::new(Box::new(observer)))
    }

    /// Register a multi-thread shared, mutex-guarded, read-only receiver.
    pub fn add_arc_mutex_observer(&mut self, observer: Arc<Mutex<dyn Observer<E>>>) -> (handle:
        usize)
        ensures
            final(self)@.len() == old(self)@.len() + 1,
            handle == old(self)@.len(),
            forall|j: int| 0 <= j < old(self)@.len() ==> final(self)@[j] == old(self)@[j],
    {
        self.add_observer(BoxedObserver::new(Box::new(observer)))
    }

    /// Register a multi-thread shared, mutex-guarded, mutable receiver.
    pub fn add_arc_mutex_mut_observer(
        &mut self,
        observer: Arc<Mutex<dyn MutObserver<E>>>,
    ) -> (handle: usize)
        ensures
            final(self)@.len() == old(self)@.len() + 1,
            handle == old(self)@.len(),
            forall|j: int| 0 <= j < old(self)@.len() ==> final(self)@[j] == old(self)@[j],
    {
        self.add_observer(BoxedObserver::new(Box::new(observer)))
    }

    /// Register a multi-thread shared, read-write-lock, read-only receiver.
    pub fn add_arc_rwlock_observer(&mut self, observer: Arc<RwLock<dyn Observer<E>>>) -> (handle:
        usize)
        ensures
            final(self)@.len() == old(self)@.len() + 1,
            handle == old(self)@.len(),
            forall|j: int| 0 <= j < old(self)@.len() ==> final(self)@[j] == old(self)@[j],
    {
        self.add_observer(BoxedObserver::new(Box::new(observer)))
    }

    /// Register a multi-thread shared, read-write-lock, mutable receiver.
    pub fn add_arc_rwlock_mut_observer(
        &mut self,
        observer: Arc<RwLock<dyn MutObserver<E>>>,
    ) -> (handle: usize)
        ensures
            final(self)@.len() == old(self)@.len() + 1,
            handle == old(self)@.len(),
            forall|j: int| 0 <= j < old(self)@.len() ==> final(self)@[j] == old(self)@[j],
    {
        self.add_observer(BoxedObserver::new(Box::new(observer)))
    }
}

} // verus!
