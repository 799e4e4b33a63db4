//! The backend over `tokio`'s asynchronous mutex. Its blocking acquisition is
//! a suspension point of the calling task, so only the non-blocking attempt,
//! the release and the payload access stand here.
use vstd::prelude::*;

use crate::sync_point::LockHandle;
use crate::sync_point::SyncPointBeh;

verus! {

#[verifier::external_type_specification]
#[verifier::external_body]
#[verifier::reject_recursive_types(T)]
pub struct ExMutex<T: ?Sized>(tokio::sync::Mutex<T>);

#[verifier::external_type_specification]
#[verifier::external_body]
#[verifier::reject_recursive_types(T)]
pub struct ExMutexGuard<'a, T: ?Sized>(tokio::sync::MutexGuard<'a, T>);

#[verifier::external_type_specification]
#[verifier::external_body]
pub struct ExTryLockError(tokio::sync::TryLockError);

/// Relies on `tokio::sync::Mutex::try_lock`: never suspends; `Err` when
/// another holder has the mutex.
#[verifier::external_body]
fn mutex_try_lock<T>(m: &tokio::sync::Mutex<T>) -> (r: Result<tokio::sync::MutexGuard<'_, T>, tokio::sync::TryLockError>) {
    m.try_lock()
}

/// Relies on `DerefMut` of `tokio::sync::MutexGuard`: the payload behind the guard.
#[verifier::external_body]
fn guard_payload_mut<'b, 'a, T>(g: &'b mut tokio::sync::MutexGuard<'a, T>) -> (r: &'b mut T) {
    &mut **g
}

/// Relies on the `Drop` of `tokio::sync::MutexGuard`, which releases the mutex.
#[verifier::external_body]
fn guard_release<T>(g: tokio::sync::MutexGuard<'_, T>) {
    drop(g)
}

/// The outcome of a non-blocking attempt: the guard, or `None` when the
/// mutex was held.
pub fn try_lock_outcome<G>(res: Result<G, tokio::sync::TryLockError>) -> (r: Option<G>)
    ensures
        r is Some <==> res is Ok,
        res is Ok ==> r == Some(res->Ok_0),
{
    match res {
        Ok(g) => Some(g),
        Err(_) => None,
    }
}

impl<'a, T: 'a> SyncPointBeh<'a> for tokio::sync::Mutex<T> {
    type LockType = LockHandle<'a, tokio::sync::Mutex<T>, tokio::sync::MutexGuard<'a, T>>;

    type DerefLockType = T;

    open spec fn owns(&self, lock: &LockHandle<'a, tokio::sync::Mutex<T>, tokio::sync::MutexGuard<'a, T>>) -> bool {
        *lock.owner() == *self
    }

    fn try_lock(&'a self) -> (r: Option<LockHandle<'a, tokio::sync::Mutex<T>, tokio::sync::MutexGuard<'a, T>>>) {
        match try_lock_outcome(mutex_try_lock(self)) {
            Some(guard) => Some(LockHandle::new(guard, Ghost(self))),
            None => None,
        }
    }

    fn unlock(&'a self, lock: LockHandle<'a, tokio::sync::Mutex<T>, tokio::sync::MutexGuard<'a, T>>) {
        guard_release(lock.guard)
    }

    fn payload_mut<'b>(&'a self, lock: &'b mut LockHandle<'a, tokio::sync::Mutex<T>, tokio::sync::MutexGuard<'a, T>>) -> (r: &'b mut T) {
        guard_payload_mut(lock.guard_mut())
    }
}

} // verus!
