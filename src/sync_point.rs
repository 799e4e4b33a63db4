//! The lock capability that every backend provides, and the synchronization
//! point that owns one backend instance and forwards to it.
use vstd::prelude::*;

verus! {

/// An exclusive handle: the guard that a backend handed out, together with
/// the backend that handed it out. Only the backend's own acquisitions make
/// one, so the recorded owner is the primitive that the guard holds.
pub struct LockHandle<'a, M, G> {
    pub(crate) guard: G,
    pub(crate) owner: Ghost<&'a M>,
}

impl<'a, M, G> LockHandle<'a, M, G> {
    /// The primitive that handed out this handle.
    pub closed spec fn owner(&self) -> &'a M {
        self.owner@
    }

    /// Pairs a guard just obtained from `owner` with that primitive.
    pub(crate) fn new(guard: G, Ghost(owner): Ghost<&'a M>) -> (r: Self)
        ensures
            r.owner() == owner,
    {
        LockHandle { guard, owner: Ghost(owner) }
    }

    /// The guard, mutably; the handle keeps its owner.
    pub(crate) fn guard_mut(&mut self) -> (r: &mut G)
        ensures
            final(self).owner() == old(self).owner(),
    {
        &mut self.guard
    }
}

/// The capability of a mutual-exclusion primitive: a non-blocking attempt to
/// take an exclusive handle, the release of a handle, and access to the
/// protected payload while the handle is held.
pub trait SyncPointBeh<'a> {
    /// The exclusive handle that an acquisition hands out.
    type LockType;

    /// The payload protected by the primitive.
    type DerefLockType;

    /// Whether `lock` is a handle that this very primitive handed out.
    spec fn owns(&self, lock: &Self::LockType) -> bool;

    /// Returns a handle of this primitive when it is free, and `None` when it
    /// is held. Which of the two comes depends on the other holders.
    fn try_lock(&'a self) -> (r: Option<Self::LockType>)
        ensures
            r is Some ==> self.owns(&r->Some_0),
    ;

    /// Consumes a handle of this primitive and makes the primitive available
    /// to the next waiter.
    fn unlock(&'a self, lock: Self::LockType)
        requires
            self.owns(&lock),
    ;

    /// The payload, mutably, for as long as the handle is borrowed; the
    /// handle stays a handle of this primitive.
    fn payload_mut<'b>(&'a self, lock: &'b mut Self::LockType) -> (r: &'b mut Self::DerefLockType)
        requires
            self.owns(&*old(lock)),
        ensures
            self.owns(&*final(lock)),
    ;
}

/// A primitive whose acquisition blocks the calling thread until it is free.
pub trait SyncPointLock<'a>: SyncPointBeh<'a> {
    /// Waits until no other holder exists and returns a handle of this
    /// primitive. Acquiring again from the thread that holds a handle never
    /// returns: it deadlocks, or, on the standard library's mutex, may panic.
    fn new_lock(&'a self) -> (r: Self::LockType)
        ensures
            self.owns(&r),
    ;
}

/// A primitive that can report whether a handle for it is outstanding.
pub trait SyncPointIsLock {
    /// Whether some handle for this primitive is currently held.
    fn is_lock(&self) -> bool;
}

/// A name bound to a synchronization point when it is declared, used only
/// for diagnostics.
pub trait SyncPointName {
    /// The name.
    const NAME: &'static str;

    /// The name of the synchronization point.
    fn get_name() -> (r: &'static str)
        ensures
            r == Self::NAME,
    {
        Self::NAME
    }
}

/// The name of a point that was declared without one.
pub struct UnknownName;

impl SyncPointName for UnknownName {
    const NAME: &'static str = "<unknown>";
}

impl SyncPointName for () {
    const NAME: &'static str = "<empty>";
}

/// A synchronization point: it owns exactly one backend instance, and every
/// acquisition against it goes through that instance. `N` names the point.
pub struct SyncPoint<T, N = ()> {
    mutex_builder: T,
    phantom_name: core::marker::PhantomData<N>,
}

impl<T, N> SyncPoint<T, N> {
    /// The backend instance that this point owns.
    pub closed spec fn backend(&self) -> T {
        self.mutex_builder
    }

    /// Binds the backend to a new point; the point keeps this very instance.
    pub fn new(mutex_builder: T) -> (r: Self)
        ensures
            r.backend() == mutex_builder,
    {
        SyncPoint { mutex_builder, phantom_name: core::marker::PhantomData }
    }

    /// The backend instance, for read access.
    pub fn get_backend(&self) -> (r: &T)
        ensures
            *r == self.backend(),
    {
        &self.mutex_builder
    }

    /// Waits until the point is free and returns a handle of its backend.
    /// The point adds no locking of its own: this and the two methods below
    /// hand the call to the backend it owns. Acquiring again from the thread
    /// that holds a handle never returns: it deadlocks, or, on the standard
    /// library's mutex, may panic.
    pub fn new_lock<'a>(&'a self) -> (r: <T as SyncPointBeh<'a>>::LockType) where
        T: SyncPointLock<'a>,
        ensures
            self.backend().owns(&r),
    {
        self.mutex_builder.new_lock()
    }

    /// Returns a handle of its backend when the point is free, and `None`
    /// when it is held; which of the two comes depends on the other holders.
    pub fn try_lock<'a>(&'a self) -> (r: Option<<T as SyncPointBeh<'a>>::LockType>) where
        T: SyncPointBeh<'a>,
        ensures
            r is Some ==> self.backend().owns(&r->Some_0),
    {
        self.mutex_builder.try_lock()
    }

    /// Consumes a handle of its backend and makes the point available to
    /// the next waiter.
    pub fn unlock<'a>(&'a self, lock: <T as SyncPointBeh<'a>>::LockType) where
        T: SyncPointBeh<'a>,
        requires
            self.backend().owns(&lock),
    {
        self.mutex_builder.unlock(lock)
    }

    /// Runs `f` while holding the point, and returns what `f` returned. A
    /// block that acquires this same point again never returns (see
    /// `new_lock`).
    pub fn sync<'a, R, F: FnOnce() -> R>(&'a self, f: F) -> (r: R) where T: SyncPointLock<'a>
        requires
            f.requires(()),
        ensures
            f.ensures((), r),
    {
        let lock = self.new_lock();
        let r = f();
        self.unlock(lock);
        r
    }

    /// Runs `f` on the payload while holding the point, and returns what `f`
    /// returned. The payload is whatever earlier holders left, so `f` must
    /// accept any payload. A block that acquires this same point again never
    /// returns (see `new_lock`).
    pub fn sync_mut<'a, R, F: FnOnce(&mut <T as SyncPointBeh<'a>>::DerefLockType) -> R>(
        &'a self,
        f: F,
    ) -> (r: R) where T: SyncPointLock<'a>
        requires
            forall|p: &mut <T as SyncPointBeh<'a>>::DerefLockType| f.requires((p,)),
        ensures
            exists|p: &mut <T as SyncPointBeh<'a>>::DerefLockType| f.ensures((p,), r),
    {
        let mut lock = self.new_lock();
        let r = f(self.mutex_builder.payload_mut(&mut lock));
        self.unlock(lock);
        r
    }
}

impl<T, N: SyncPointName> SyncPoint<T, N> {
    /// The name bound to this point.
    pub fn get_sync_point_name(&self) -> (r: &'static str)
        ensures
            r == N::NAME,
    {
        N::get_name()
    }

    /// The name bound to points of this type.
    pub fn get_name() -> (r: &'static str)
        ensures
            r == N::NAME,
    {
        N::get_name()
    }
}

impl<T: SyncPointIsLock, N> SyncPoint<T, N> {
    /// Whether some handle for this point is currently held.
    pub fn is_lock(&self) -> bool {
        self.mutex_builder.is_lock()
    }
}

} // verus!
