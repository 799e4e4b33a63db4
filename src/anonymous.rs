//! Anonymous synchronized blocks: each call declares a fresh, private point,
//! acquires it, runs the block and releases it, so two anonymous blocks never
//! contend with each other.
use vstd::prelude::*;

use crate::sync_point::SyncPoint;

verus! {

/// Runs `f` under a fresh private point and returns exactly what `f` returned.
pub fn sync<R, F: FnOnce() -> R>(f: F) -> (r: R)
    requires
        f.requires(()),
    ensures
        f.ensures((), r),
{
    let point: SyncPoint<std::sync::Mutex<()>> = SyncPoint::new(std::sync::Mutex::new(()));
    point.sync(f)
}

/// Runs `f` under a fresh private point, on a private slot that starts out
/// as `init`, and returns exactly what `f` returned. No other call can reach
/// the point or the slot, so the slot is held beside the point's lock.
pub fn sync_with<V, R, F: FnOnce(&mut V) -> R>(init: V, f: F) -> (r: R)
    requires
        forall|p: &mut V| *p == init ==> f.requires((p,)),
    ensures
        exists|p: &mut V| *p == init && f.ensures((p,), r),
{
    let point: SyncPoint<std::sync::Mutex<()>> = SyncPoint::new(std::sync::Mutex::new(()));
    let mut slot = init;
    let lock = point.new_lock();
    let r = f(&mut slot);
    point.unlock(lock);
    r
}

} // verus!
