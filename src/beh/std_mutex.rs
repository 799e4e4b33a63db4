//! The backend over the standard library's blocking mutex. A holder that
//! panicked leaves the mutex poisoned; this adapter recovers the payload and
//! goes on, so a panic never locks out later acquisitions.
use vstd::prelude::*;

use crate::sync_point::LockHandle;
use crate::sync_point::SyncPointBeh;
use crate::sync_point::SyncPointLock;


verus! {

#[verifier::external_type_specification]
#[verifier::external_body]
#[verifier::reject_recursive_types(T)]
pub struct ExMutex<T: ?Sized>(std::sync::Mutex<T>);

#[verifier::external_type_specification]
#[verifier::external_body]
#[verifier::reject_recursive_types(T)]
pub struct ExMutexGuard<'a, T: ?Sized + 'a>(std::sync::MutexGuard<'a, T>);

#[verifier::external_type_specification]
#[verifier::external_body]
#[verifier::reject_recursive_types(T)]
pub struct ExPoisonError<T>(std::sync::PoisonError<T>);

#[verifier::external_type_specification]
#[verifier::reject_recursive_types(T)]
pub struct ExTryLockError<T>(std::sync::TryLockError<T>);

/// Relies on `std::sync::Mutex::new`: a fresh, unlocked mutex around the value.
pub assume_specification<T>[ std::sync::Mutex::<T>::new ](t: T) -> std::sync::Mutex<T>;

/// Relies on `std::sync::Mutex::lock`: blocks until the mutex is free; an
/// `Err` carries the guard of a mutex whose previous holder panicked.
#[verifier::external_body]
fn mutex_lock<T>(m: &std::sync::Mutex<T>) -> (r: Result<std::sync::MutexGuard<'_, T>, std::sync::PoisonError<std::sync::MutexGuard<'_, T>>>) {
    m.lock()
}

/// Relies on `std::sync::Mutex::try_lock`: never blocks; `WouldBlock` when
/// another holder has the mutex.
#[verifier::external_body]
fn mutex_try_lock<T>(m: &std::sync::Mutex<T>) -> (r: Result<std::sync::MutexGuard<'_, T>, std::sync::TryLockError<std::sync::MutexGuard<'_, T>>>) {
    m.try_lock()
}

/// Relies on `std::sync::PoisonError::into_inner`: hands back the guard that
/// the poisoned acquisition obtained.
#[verifier::external_body]
fn poison_into_inner<G>(e: std::sync::PoisonError<G>) -> (r: G) {
    e.into_inner()
}

/// Relies on `DerefMut` of `std::sync::MutexGuard`: the payload behind the guard.
#[verifier::external_body]
fn guard_payload_mut<'b, 'a, T>(g: &'b mut std::sync::MutexGuard<'a, T>) -> (r: &'b mut T) {
    &mut **g
}

/// Relies on the `Drop` of `std::sync::MutexGuard`, which releases the mutex.
#[verifier::external_body]
fn guard_release<T>(g: std::sync::MutexGuard<'_, T>) {
    drop(g)
}

/// The outcome of a blocking acquisition with poisoning recovered: the guard,
/// whether or not a previous holder panicked.
pub fn recover_lock<G>(res: Result<G, std::sync::PoisonError<G>>) -> (r: G)
    ensures
        res is Ok ==> r == res->Ok_0,
{
    match res {
        Ok(g) => g,
        Err(e) => poison_into_inner(e),
    }
}

/// The outcome of a non-blocking attempt with poisoning recovered: a guard
/// unless another holder has the mutex.
pub fn recover_try_lock<G>(res: Result<G, std::sync::TryLockError<G>>) -> (r: Option<G>)
    ensures
        r is None <==> (res is Err && res->Err_0 is WouldBlock),
        res is Ok ==> r == Some(res->Ok_0),
{
    match res {
        Ok(g) => Some(g),
        Err(std::sync::TryLockError::Poisoned(e)) => Some(poison_into_inner(e)),
        Err(std::sync::TryLockError::WouldBlock) => None,
    }
}

impl<'a, T: 'a> SyncPointBeh<'a> for std::sync::Mutex<T> {
    type LockType = LockHandle<'a, std::sync::Mutex<T>, std::sync::MutexGuard<'a, T>>;

    type DerefLockType = T;

    open spec fn owns(&self, lock: &LockHandle<'a, std::sync::Mutex<T>, std::sync::MutexGuard<'a, T>>) -> bool {
        *lock.owner() == *self
    }

    fn try_lock(&'a self) -> (r: Option<LockHandle<'a, std::sync::Mutex<T>, std::sync::MutexGuard<'a, T>>>) {
        match recover_try_lock(mutex_try_lock(self)) {
            Some(guard) => Some(LockHandle::new(guard, Ghost(self))),
            None => None,
        }
    }

    fn unlock(&'a self, lock: LockHandle<'a, std::sync::Mutex<T>, std::sync::MutexGuard<'a, T>>) {
        guard_release(lock.guard)
    }

    fn payload_mut<'b>(&'a self, lock: &'b mut LockHandle<'a, std::sync::Mutex<T>, std::sync::MutexGuard<'a, T>>) -> (r: &'b mut T) {
        guard_payload_mut(lock.guard_mut())
    }
}

impl<'a, T: 'a> SyncPointLock<'a> for std::sync::Mutex<T> {
    fn new_lock(&'a self) -> (r: LockHandle<'a, std::sync::Mutex<T>, std::sync::MutexGuard<'a, T>>) {
        LockHandle::new(recover_lock(mutex_lock(self)), Ghost(self))
    }
}

} // verus!
