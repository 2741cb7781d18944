//! Trusted declarations of the standard library's interior-mutability and
//! locking primitives, together with the access-acquisition steps the
//! ownership wrappers perform. The contents of a cell or a lock can change
//! through any shared handle, so nothing is promised of the values these
//! functions hand out; the verified bridging code treats every outcome.

use vstd::prelude::*;

verus! {

#[verifier::external_type_specification]
#[verifier::external_body]
#[verifier::reject_recursive_types(T)]
pub struct ExRefCell<T: ?Sized>(std::cell::RefCell<T>);

#[verifier::external_type_specification]
#[verifier::external_body]
#[verifier::reject_recursive_types(T)]
pub struct ExRef<'b, T: ?Sized>(std::cell::Ref<'b, T>);

#[verifier::external_type_specification]
#[verifier::external_body]
#[verifier::reject_recursive_types(T)]
pub struct ExRefMut<'b, T: ?Sized + 'b>(std::cell::RefMut<'b, T>);

#[verifier::external_type_specification]
#[verifier::external_body]
#[verifier::reject_recursive_types(T)]
pub struct ExMutex<T: ?Sized>(std::sync::Mutex<T>);

#[verifier::external_type_specification]
#[verifier::external_body]
#[verifier::reject_recursive_types(T)]
pub struct ExMutexGuard<'a, T: ?Sized + 'a>(std::sync::MutexGuard<'a, T>);

#[verifier::external_type_specification]
#[verifier::external_body]
#[verifier::reject_recursive_types(T)]
pub struct ExRwLock<T: ?Sized>(std::sync::RwLock<T>);

#[verifier::external_type_specification]
#[verifier::external_body]
#[verifier::reject_recursive_types(T)]
pub struct ExRwLockReadGuard<'a, T: ?Sized>(std::sync::RwLockReadGuard<'a, T>);

#[verifier::external_type_specification]
#[verifier::external_body]
#[verifier::reject_recursive_types(T)]
pub struct ExRwLockWriteGuard<'a, T: ?Sized + 'a>(std::sync::RwLockWriteGuard<'a, T>);

/// Relies on RefCell::try_borrow: a shared borrow of the cell's contents, or
/// nothing when the cell is already exclusively borrowed.
#[verifier::external_body]
pub(crate) fn cell_try_borrow<'a, T: ?Sized>(
    cell: &'a std::cell::RefCell<T>,
) -> Option<std::cell::Ref<'a, T>> {
    cell.try_borrow().ok()
}

/// Relies on RefCell::try_borrow_mut: an exclusive borrow of the cell's
/// contents, or nothing when any other borrow is live.
#[verifier::external_body]
pub(crate) fn cell_try_borrow_mut<'a, T: ?Sized>(
    cell: &'a std::cell::RefCell<T>,
) -> Option<std::cell::RefMut<'a, T>> {
    cell.try_borrow_mut().ok()
}

/// Relies on Ref's Deref impl: shared access to the value the guard protects.
#[verifier::external_body]
pub(crate) fn ref_access<'a, 'b, T: ?Sized>(guard: &'b std::cell::Ref<'a, T>) -> &'b T {
    &**guard
}

/// Relies on RefMut's DerefMut impl: exclusive access to the value the guard
/// protects, for as long as the guard lives.
#[verifier::external_body]
pub(crate) fn refmut_access<'a, 'b, T: ?Sized>(
    guard: &'b mut std::cell::RefMut<'a, T>,
) -> &'b mut T {
    &mut **guard
}

/// Relies on Mutex::lock: blocks until the lock is held, then yields the
/// guard; yields nothing when the lock is poisoned. Acquiring a lock the
/// calling thread already holds does not return normally, as std documents:
/// that reentrant misuse is the caller's error.
#[verifier::external_body]
pub(crate) fn mutex_lock<'a, T: ?Sized>(
    m: &'a std::sync::Mutex<T>,
) -> Option<std::sync::MutexGuard<'a, T>> {
    m.lock().ok()
}

/// Relies on MutexGuard's Deref impl: shared access to the guarded value.
#[verifier::external_body]
pub(crate) fn mutex_guard_access<'a, 'b, T: ?Sized>(
    guard: &'b std::sync::MutexGuard<'a, T>,
) -> &'b T {
    &**guard
}

/// Relies on MutexGuard's DerefMut impl: exclusive access to the guarded
/// value, for as long as the guard lives.
#[verifier::external_body]
pub(crate) fn mutex_guard_access_mut<'a, 'b, T: ?Sized>(
    guard: &'b mut std::sync::MutexGuard<'a, T>,
) -> &'b mut T {
    &mut **guard
}

/// Relies on RwLock::read: blocks until shared access is available, then
/// yields a read guard; yields nothing when the lock is poisoned. A reentrant
/// acquisition by a thread that already holds the lock may not return, as std
/// documents: that misuse is the caller's error.
#[verifier::external_body]
pub(crate) fn rwlock_read<'a, T: ?Sized>(
    l: &'a std::sync::RwLock<T>,
) -> Option<std::sync::RwLockReadGuard<'a, T>> {
    l.read().ok()
}

/// Relies on RwLock::write: blocks until exclusive access is available, then
/// yields a write guard; yields nothing when the lock is poisoned. A reentrant
/// acquisition by a thread that already holds the lock may not return, as std
/// documents: that misuse is the caller's error.
#[verifier::external_body]
pub(crate) fn rwlock_write<'a, T: ?Sized>(
    l: &'a std::sync::RwLock<T>,
) -> Option<std::sync::RwLockWriteGuard<'a, T>> {
    l.write().ok()
}

/// Relies on RwLockReadGuard's Deref impl: shared access to the guarded value.
#[verifier::external_body]
pub(crate) fn read_guard_access<'a, 'b, T: ?Sized>(
    guard: &'b std::sync::RwLockReadGuard<'a, T>,
) -> &'b T {
    &**guard
}

/// Relies on RwLockWriteGuard's DerefMut impl: exclusive access to the guarded
/// value, for as long as the guard lives.
#[verifier::external_body]
pub(crate) fn write_guard_access_mut<'a, 'b, T: ?Sized>(
    guard: &'b mut std::sync::RwLockWriteGuard<'a, T>,
) -> &'b mut T {
    &mut **guard
}

} // verus!
