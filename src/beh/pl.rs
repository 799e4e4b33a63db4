//! The backend over `parking_lot`'s user-space mutex, which can also report
//! whether it is held.
use vstd::prelude::*;

use crate::sync_point::LockHandle;
use crate::sync_point::SyncPointBeh;
use crate::sync_point::SyncPointIsLock;
use crate::sync_point::SyncPointLock;

verus! {

#[verifier::external_type_specification]
#[verifier::external_body]
pub struct ExRawMutex(parking_lot::RawMutex);

#[verifier::external_type_specification]
#[verifier::external_body]
#[verifier::reject_recursive_types(R)]
#[verifier::reject_recursive_types(T)]
pub struct ExMutex<R, T: ?Sized>(parking_lot::lock_api::Mutex<R, T>);

/// The guard of a held `parking_lot` mutex. Its type is generic over a trait
/// of `lock_api` that cannot stand as a bound here, so the guard is held in
/// this opaque wrapper.
#[verifier::external_body]
#[verifier::reject_recursive_types(T)]
pub struct ParkingGuard<'a, T> {
    guard: parking_lot::MutexGuard<'a, T>,
}

/// Relies on `lock_api::Mutex::lock`: blocks until the mutex is free.
#[verifier::external_body]
fn mutex_lock<T>(m: &parking_lot::Mutex<T>) -> (r: ParkingGuard<'_, T>) {
    ParkingGuard { guard: m.lock() }
}

/// Relies on `lock_api::Mutex::try_lock`: never blocks; `None` when another
/// holder has the mutex.
#[verifier::external_body]
fn mutex_try_lock<T>(m: &parking_lot::Mutex<T>) -> (r: Option<ParkingGuard<'_, T>>) {
    m.try_lock().map(|guard| ParkingGuard { guard })
}

/// Relies on `lock_api::Mutex::is_locked`: whether the mutex is held at the
/// moment of the call.
#[verifier::external_body]
fn mutex_is_locked<T>(m: &parking_lot::Mutex<T>) -> (r: bool) {
    m.is_locked()
}

/// Relies on `DerefMut` of `lock_api::MutexGuard`: the payload behind the guard.
#[verifier::external_body]
fn guard_payload_mut<'b, 'a, T>(g: &'b mut ParkingGuard<'a, T>) -> (r: &'b mut T) {
    &mut *g.guard
}

/// Relies on the `Drop` of `lock_api::MutexGuard`, which releases the mutex.
#[verifier::external_body]
fn guard_release<T>(g: ParkingGuard<'_, T>) {
    drop(g.guard)
}

impl<'a, T: 'a> SyncPointBeh<'a> for parking_lot::Mutex<T> {
    type LockType = LockHandle<'a, parking_lot::Mutex<T>, ParkingGuard<'a, T>>;

    type DerefLockType = T;

    open spec fn owns(&self, lock: &LockHandle<'a, parking_lot::Mutex<T>, ParkingGuard<'a, T>>) -> bool {
        *lock.owner() == *self
    }

    fn try_lock(&'a self) -> (r: Option<LockHandle<'a, parking_lot::Mutex<T>, ParkingGuard<'a, T>>>) {
        match mutex_try_lock(self) {
            Some(guard) => Some(LockHandle::new(guard, Ghost(self))),
            None => None,
        }
    }

    fn unlock(&'a self, lock: LockHandle<'a, parking_lot::Mutex<T>, ParkingGuard<'a, T>>) {
        guard_release(lock.guard)
    }

    fn payload_mut<'b>(&'a self, lock: &'b mut LockHandle<'a, parking_lot::Mutex<T>, ParkingGuard<'a, T>>) -> (r: &'b mut T) {
        guard_payload_mut(lock.guard_mut())
    }
}

impl<'a, T: 'a> SyncPointLock<'a> for parking_lot::Mutex<T> {
    fn new_lock(&'a self) -> (r: LockHandle<'a, parking_lot::Mutex<T>, ParkingGuard<'a, T>>) {
        LockHandle::new(mutex_lock(self), Ghost(self))
    }
}

impl<T> SyncPointIsLock for parking_lot::Mutex<T> {
    fn is_lock(&self) -> (r: bool) {
        mutex_is_locked(self)
    }
}

} // verus!
