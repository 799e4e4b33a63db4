//! Named synchronization points: a registry that maps each name to one point,
//! so that independent call sites that use the same name share one lock.
//! The first declaration of a name creates its point; every later
//! declaration or lookup of that name resolves to the same point.
use vstd::prelude::*;

use crate::sync_point::SyncPoint;
use crate::sync_point::SyncPointBeh;
use crate::sync_point::SyncPointLock;

verus! {

/// Whether two names are the same sequence of characters.
pub fn same_name(a: &str, b: &str) -> (r: bool)
    ensures
        r == (a@ == b@),
{
    let n = a.unicode_len();
    if n != b.unicode_len() {
        return false;
    }
    let mut i: usize = 0;
    while i < n
        invariant
            n == a@.len(),
            n == b@.len(),
            0 <= i <= n,
            a@.subrange(0, i as int) == b@.subrange(0, i as int),
        decreases n - i,
    {
        if a.get_char(i) != b.get_char(i) {
            assert(a@[i as int] != b@[i as int]);
            return false;
        }
        assert(a@.subrange(0, i + 1) == a@.subrange(0, i as int).push(a@[i as int]));
        assert(b@.subrange(0, i + 1) == b@.subrange(0, i as int).push(b@[i as int]));
        i = i + 1;
    }
    assert(a@ == a@.subrange(0, n as int));
    assert(b@ == b@.subrange(0, n as int));
    true
}

/// A registry of named synchronization points over backends of type `B`.
pub struct SyncPoints<B> {
    names: Vec<String>,
    points: Vec<SyncPoint<B>>,
}

impl<B> SyncPoints<B> {
    /// The declared names, in the order of their first declaration.
    pub closed spec fn names(&self) -> Seq<Seq<char>> {
        self.names@.map_values(|s: String| s@)
    }

    /// The backend of the point of each name, at the same position.
    pub closed spec fn backends(&self) -> Seq<B> {
        self.points@.map_values(|p: SyncPoint<B>| p.backend())
    }

    /// Each name has exactly one point.
    pub open spec fn wf(&self) -> bool {
        &&& self.names().len() == self.backends().len()
        &&& self.names().no_duplicates()
    }

    /// A registry with no names.
    pub fn new() -> (r: Self)
        ensures
            r.wf(),
            r.names() == Seq::<Seq<char>>::empty(),
            r.backends() == Seq::<B>::empty(),
    {
        let r = SyncPoints { names: Vec::new(), points: Vec::new() };
        assert(r.names() =~= Seq::<Seq<char>>::empty());
        assert(r.backends() =~= Seq::<B>::empty());
        r
    }

    /// The number of declared names.
    pub fn len(&self) -> (r: usize)
        requires
            self.wf(),
        ensures
            r == self.names().len(),
    {
        self.names.len()
    }

    /// The position of `name`, if it was declared.
    pub fn find(&self, name: &str) -> (r: Option<usize>)
        requires
            self.wf(),
        ensures
            match r {
                Some(i) => i < self.names().len() && self.names()[i as int] == name@,
                None => !self.names().contains(name@),
            },
    {
        let mut i: usize = 0;
        while i < self.names.len()
            invariant
                self.wf(),
                0 <= i <= self.names().len(),
                forall|j: int| 0 <= j < i ==> self.names()[j] != name@,
            decreases self.names().len() - i,
        {
            if same_name(self.names[i].as_str(), name) {
                return Some(i);
            }
            i = i + 1;
        }
        None
    }

    /// Declares `name`. The first declaration of a name creates its point
    /// around the backend that `make` builds; a later one leaves the registry
    /// as it is and does not call `make`. Returns the position of the point.
    pub fn declare<F: FnOnce() -> B>(&mut self, name: &str, make: F) -> (idx: usize)
        requires
            old(self).wf(),
            make.requires(()),
        ensures
            final(self).wf(),
            idx < final(self).names().len(),
            final(self).names()[idx as int] == name@,
            old(self).names().contains(name@) ==> {
                &&& final(self).names() == old(self).names()
                &&& final(self).backends() == old(self).backends()
            },
            !old(self).names().contains(name@) ==> {
                &&& idx == old(self).names().len()
                &&& final(self).names() == old(self).names().push(name@)
                &&& final(self).backends().drop_last() == old(self).backends()
                &&& make.ensures((), final(self).backends()[idx as int])
            },
    {
        match self.find(name) {
            Some(i) => i,
            None => {
                let backend = make();
                let ghost old_names = self.names();
                let ghost old_backends = self.backends();
                self.names.push(String::from_str(name));
                self.points.push(SyncPoint::new(backend));
                assert(self.names() =~= old_names.push(name@));
                assert(self.backends().drop_last() =~= old_backends);
                proof {
                    assert forall|a: int, b: int|
                        0 <= a < self.names().len() && 0 <= b < self.names().len() && a != b
                        implies self.names()[a] != self.names()[b] by {
                        if a < old_names.len() && b < old_names.len() {
                            assert(old_names[a] != old_names[b]);
                        } else if a < old_names.len() {
                            assert(old_names.contains(old_names[a]));
                        } else {
                            assert(old_names.contains(old_names[b]));
                        }
                    }
                }
                self.names.len() - 1
            },
        }
    }

    /// The point at position `idx`.
    pub fn point(&self, idx: usize) -> (r: &SyncPoint<B>)
        requires
            self.wf(),
            idx < self.names().len(),
        ensures
            r.backend() == self.backends()[idx as int],
    {
        &self.points[idx]
    }

    /// The name at position `idx`.
    pub fn name(&self, idx: usize) -> (r: &str)
        requires
            self.wf(),
            idx < self.names().len(),
        ensures
            r@ == self.names()[idx as int],
    {
        self.names[idx].as_str()
    }

    /// The point of `name`, if it was declared.
    pub fn get(&self, name: &str) -> (r: Option<&SyncPoint<B>>)
        requires
            self.wf(),
        ensures
            match r {
                Some(p) => exists|i: int|
                    0 <= i < self.names().len() && self.names()[i] == name@ && p.backend()
                        == self.backends()[i],
                None => !self.names().contains(name@),
            },
    {
        match self.find(name) {
            Some(i) => Some(&self.points[i]),
            None => None,
        }
    }

    /// Runs `f` on the payload of the point of `name` while holding that
    /// point, and returns what `f` returned; `None`, without calling `f`,
    /// when `name` was never declared.
    pub fn sync_by_name<'a, R, F: FnOnce(&mut <B as SyncPointBeh<'a>>::DerefLockType) -> R>(
        &'a self,
        name: &str,
        f: F,
    ) -> (r: Option<R>) where B: SyncPointLock<'a>
        requires
            self.wf(),
            forall|p: &mut <B as SyncPointBeh<'a>>::DerefLockType| f.requires((p,)),
        ensures
            r is None <==> !self.names().contains(name@),
            r is Some ==> exists|p: &mut <B as SyncPointBeh<'a>>::DerefLockType|
                f.ensures((p,), r->Some_0),
    {
        match self.get(name) {
            Some(point) => {
                let v = point.sync_mut(f);
                let ghost w = choose|p: &mut <B as SyncPointBeh<'a>>::DerefLockType|
                    f.ensures((p,), v);
                assert(f.ensures((w,), Some(v)->Some_0));
                Some(v)
            },
            None => None,
        }
    }
}

} // verus!
