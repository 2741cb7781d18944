use observer::{BoxedObserver, MutObserver, Observer, Subject, Violation};
use std::cell::RefCell;
use std::rc::Rc;
use std::sync::{Arc, Mutex, RwLock};

/// Appends its id to a shared log on every reaction.
struct Logger {
    id: usize,
    log: Rc<RefCell<Vec<usize>>>,
}

impl Observer<u64> for Logger {
    fn on_notify(&self, _event: &u64) -> Result<(), Violation> {
        self.log.borrow_mut().push(self.id);
        Ok(())
    }
}

/// Records every event value it receives.
struct Echo {
    seen: Rc<RefCell<Vec<u64>>>,
}

impl Observer<u64> for Echo {
    fn on_notify(&self, event: &u64) -> Result<(), Violation> {
        self.seen.borrow_mut().push(*event);
        Ok(())
    }
}

/// A mutable receiver that counts its reactions.
struct Counter {
    n: u64,
}

impl MutObserver<u64> for Counter {
    fn on_notify(&mut self, _event: &u64) {
        self.n += 1;
    }
}

/// A read-only receiver that never touches any state.
struct Inert;

impl Observer<u64> for Inert {
    fn on_notify(&self, _event: &u64) -> Result<(), Violation> {
        Ok(())
    }
}

fn logger(id: usize, log: &Rc<RefCell<Vec<usize>>>) -> BoxedObserver<u64> {
    BoxedObserver::new(Box::new(Logger { id, log: Rc::clone(log) }))
}

#[test]
fn empty_subject_notify_is_ok() {
    let subject: Subject<u64> = Subject::new();
    assert_eq!(subject.observer_count(), 0);
    assert_eq!(subject.notify(&7), Ok(()));
}

#[test]
fn handles_are_sequential_positions() {
    let log = Rc::new(RefCell::new(Vec::new()));
    let mut subject: Subject<u64> = Subject::new();
    assert_eq!(subject.add_observer(logger(0, &log)), 0);
    assert_eq!(subject.add_observer(logger(1, &log)), 1);
    assert_eq!(subject.add_observer(logger(2, &log)), 2);
    assert_eq!(subject.observer_count(), 3);
}

#[test]
fn notify_reaches_each_observer_once_in_registration_order() {
    let log = Rc::new(RefCell::new(Vec::new()));
    let mut subject: Subject<u64> = Subject::new();
    subject.add_observer(logger(10, &log));
    subject.add_observer(logger(11, &log));
    subject.add_observer(logger(12, &log));
    assert_eq!(subject.notify(&1), Ok(()));
    assert_eq!(*log.borrow(), vec![10, 11, 12]);
    assert_eq!(subject.notify(&2), Ok(()));
    assert_eq!(*log.borrow(), vec![10, 11, 12, 10, 11, 12]);
}

#[test]
fn notify_passes_the_event_to_every_observer() {
    let seen = Rc::new(RefCell::new(Vec::new()));
    let mut subject: Subject<u64> = Subject::new();
    subject.add_observer(BoxedObserver::new(Box::new(Echo { seen: Rc::clone(&seen) })));
    subject.add_observer(BoxedObserver::new(Box::new(Echo { seen: Rc::clone(&seen) })));
    assert_eq!(subject.notify(&42), Ok(()));
    assert_eq!(*seen.borrow(), vec![42, 42]);
}

#[test]
fn removal_shifts_later_observers_down() {
    let log = Rc::new(RefCell::new(Vec::new()));
    let mut subject: Subject<u64> = Subject::new();
    subject.add_observer(logger(0, &log));
    subject.add_observer(logger(1, &log));
    subject.add_observer(logger(2, &log));
    subject.remove_observer(1);
    assert_eq!(subject.observer_count(), 2);
    assert_eq!(subject.notify(&0), Ok(()));
    assert_eq!(*log.borrow(), vec![0, 2]);
}

#[test]
fn remove_returns_the_observer_at_the_handle() {
    let log = Rc::new(RefCell::new(Vec::new()));
    let mut subject: Subject<u64> = Subject::new();
    subject.add_observer(logger(0, &log));
    subject.add_observer(logger(1, &log));
    let removed = subject.remove_observer(1);
    assert_eq!(removed.on_notify(&0), Ok(()));
    assert_eq!(*log.borrow(), vec![1]);
}

#[test]
fn out_of_bounds_removal_is_a_bounds_violation() {
    let log = Rc::new(RefCell::new(Vec::new()));
    let mut subject: Subject<u64> = Subject::new();
    subject.add_observer(logger(5, &log));
    assert_eq!(subject.try_remove_observer(1).err(), Some(Violation::Bounds));
    assert_eq!(subject.observer_count(), 1);
    assert_eq!(subject.notify(&0), Ok(()));
    assert_eq!(*log.borrow(), vec![5]);
}

#[test]
fn in_bounds_try_removal_succeeds() {
    let log = Rc::new(RefCell::new(Vec::new()));
    let mut subject: Subject<u64> = Subject::new();
    subject.add_observer(logger(3, &log));
    let removed = subject.try_remove_observer(0);
    assert!(removed.is_ok());
    assert_eq!(subject.observer_count(), 0);
}

#[test]
fn rc_shared_immutable_observer_reacts() {
    let log = Rc::new(RefCell::new(Vec::new()));
    let shared: Rc<dyn Observer<u64>> = Rc::new(Logger { id: 8, log: Rc::clone(&log) });
    let mut subject: Subject<u64> = Subject::new();
    assert_eq!(subject.add_rc_observer(shared), 0);
    assert_eq!(subject.notify(&0), Ok(()));
    assert_eq!(*log.borrow(), vec![8]);
}

#[test]
fn arc_shared_immutable_observer_reacts() {
    let log = Rc::new(RefCell::new(Vec::new()));
    let shared: Arc<dyn Observer<u64>> = Arc::new(Logger { id: 9, log: Rc::clone(&log) });
    let mut subject: Subject<u64> = Subject::new();
    assert_eq!(subject.add_arc_observer(shared), 0);
    assert_eq!(subject.notify(&0), Ok(()));
    assert_eq!(*log.borrow(), vec![9]);
}

#[test]
fn refcell_read_only_wrapper_reacts_without_mutation() {
    let log = Rc::new(RefCell::new(Vec::new()));
    let cell: Rc<RefCell<Logger>> =
        Rc::new(RefCell::new(Logger { id: 4, log: Rc::clone(&log) }));
    let erased: Rc<RefCell<dyn Observer<u64>>> = cell.clone();
    let mut subject: Subject<u64> = Subject::new();
    subject.add_rc_refcell_observer(erased);
    assert_eq!(subject.notify(&0), Ok(()));
    assert_eq!(*log.borrow(), vec![4]);
    // The bridging step left the wrapped observer untouched.
    assert_eq!(cell.borrow().id, 4);
}

#[test]
fn conflicting_borrow_is_an_access_violation() {
    let cell: Rc<RefCell<Counter>> = Rc::new(RefCell::new(Counter { n: 0 }));
    let erased: Rc<RefCell<dyn MutObserver<u64>>> = cell.clone();
    let mut subject: Subject<u64> = Subject::new();
    subject.add_rc_refcell_mut_observer(erased);
    let held = cell.borrow();
    assert_eq!(subject.notify(&0), Err(Violation::Access));
    drop(held);
    assert_eq!(subject.notify(&0), Ok(()));
    assert_eq!(cell.borrow().n, 1);
}

#[test]
fn refcell_mut_counter_counts_each_notify() {
    let cell: Rc<RefCell<Counter>> = Rc::new(RefCell::new(Counter { n: 0 }));
    let erased: Rc<RefCell<dyn MutObserver<u64>>> = cell.clone();
    let mut subject: Subject<u64> = Subject::new();
    subject.add_rc_refcell_mut_observer(erased);
    assert_eq!(subject.notify(&0), Ok(()));
    assert_eq!(subject.notify(&0), Ok(()));
    assert_eq!(cell.borrow().n, 2);
}

#[test]
fn exclusive_borrow_is_released_between_reactions() {
    let cell: Rc<RefCell<Counter>> = Rc::new(RefCell::new(Counter { n: 0 }));
    let first: Rc<RefCell<dyn MutObserver<u64>>> = cell.clone();
    let second: Rc<RefCell<dyn MutObserver<u64>>> = cell.clone();
    let mut subject: Subject<u64> = Subject::new();
    subject.add_rc_refcell_mut_observer(first);
    subject.add_rc_refcell_mut_observer(second);
    // Both registrations reach the same cell: were the exclusive borrow not
    // released after the first reaction, the second would be a violation.
    assert_eq!(subject.notify(&0), Ok(()));
    assert_eq!(cell.borrow().n, 2);
}

#[test]
fn mutex_guarded_mut_counter_shared_by_two_subjects() {
    let shared: Arc<Mutex<Counter>> = Arc::new(Mutex::new(Counter { n: 0 }));
    let first: Arc<Mutex<dyn MutObserver<u64>>> = shared.clone();
    let second: Arc<Mutex<dyn MutObserver<u64>>> = shared.clone();
    let mut one: Subject<u64> = Subject::new();
    let mut two: Subject<u64> = Subject::new();
    one.add_arc_mutex_mut_observer(first);
    two.add_arc_mutex_mut_observer(second);
    assert_eq!(one.notify(&0), Ok(()));
    assert_eq!(two.notify(&0), Ok(()));
    assert_eq!(shared.lock().unwrap().n, 2);
}

#[test]
fn mutex_guarded_read_only_observer_reacts() {
    let guarded: Arc<Mutex<dyn Observer<u64>>> = Arc::new(Mutex::new(Inert));
    let mut subject: Subject<u64> = Subject::new();
    subject.add_arc_mutex_observer(guarded);
    assert_eq!(subject.notify(&0), Ok(()));
}

#[test]
fn rwlock_mut_counter_counts_each_notify() {
    let shared: Arc<RwLock<Counter>> = Arc::new(RwLock::new(Counter { n: 0 }));
    let erased: Arc<RwLock<dyn MutObserver<u64>>> = shared.clone();
    let mut subject: Subject<u64> = Subject::new();
    subject.add_arc_rwlock_mut_observer(erased);
    assert_eq!(subject.notify(&0), Ok(()));
    assert_eq!(subject.notify(&0), Ok(()));
    assert_eq!(shared.read().unwrap().n, 2);
}

#[test]
fn rwlock_read_only_observer_reacts() {
    let guarded: Arc<RwLock<dyn Observer<u64>>> = Arc::new(RwLock::new(Inert));
    let mut subject: Subject<u64> = Subject::new();
    subject.add_arc_rwlock_observer(guarded);
    assert_eq!(subject.notify(&0), Ok(()));
}

#[test]
fn boxed_observer_forwards_to_the_wrapped_receiver() {
    let log = Rc::new(RefCell::new(Vec::new()));
    let boxed = logger(6, &log);
    assert_eq!(boxed.on_notify(&0), Ok(()));
    assert_eq!(*log.borrow(), vec![6]);
}

#[test]
fn default_subject_is_empty() {
    let subject: Subject<u64> = Subject::default();
    assert_eq!(subject.observer_count(), 0);
    assert_eq!(subject.notify(&3), Ok(()));
}

#[test]
fn violation_kinds_are_distinguishable() {
    assert_ne!(Violation::Access, Violation::Bounds);
    assert_eq!(Violation::Access, Violation::Access);
}
