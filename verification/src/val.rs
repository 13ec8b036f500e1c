//! Memoized derived nodes: lazily recomputed, cached against the version
//! clock, and only committing a new value when a dependency genuinely moved.

use vstd::prelude::*;
use crate::Commit;
use crate::System;
use crate::SystemId;
use crate::SystemNode;
use crate::SystemVersion;
use crate::Update;

verus! {

/// A derived node: a cached `(version, value)` pair (empty until first
/// recomputed) together with the version at which the cache was last
/// confirmed fresh. The node holds no recompute function itself: the caller
/// supplies one to [`Val::refresh`], which runs it exactly when the cache has
/// not been checked against the context's current version. Because `refresh`
/// borrows the node exclusively, a recompute function can never reach back
/// into the node it is recomputing: update recursion — a cycle in the
/// dependency graph — is ruled out before the program runs, instead of being
/// caught by a reentrancy guard while it runs.
#[derive(Debug)]
pub struct Val<T> {
    pub system_id: SystemId,
    pub check_version: Option<SystemVersion>,
    pub value: Option<(SystemVersion, T)>,
}

impl System {
    /// Create an empty derived node of this context.
    pub fn val<T>(&self) -> (r: Val<T>)
        ensures
            r.system_id == self.id,
            r.check_version is None,
            r.value is None,
    {
        Val::new(self)
    }

    /// Create an empty thread-safe derived node of this context.
    pub fn sync_val<T>(&self) -> (r: SyncVal<T>)
        ensures
            r.inner.system_id == self.id,
            r.inner.check_version is None,
            r.inner.value is None,
    {
        SyncVal::new(self)
    }
}

impl<T> Val<T> {
    /// A committed value exists exactly when a freshness check has run, and
    /// is never newer than that check.
    pub open spec fn wf(&self) -> bool {
        &&& (self.check_version is Some <==> self.value is Some)
        &&& (self.value is Some ==> (self.value->0).0.v <= self.check_version->0.v)
    }

    /// The cache has been confirmed valid as of context version `v`.
    pub open spec fn fresh(&self, v: SystemVersion) -> bool {
        self.check_version == Some(v)
    }

    /// The node's history does not run ahead of a clock reading `v`: any
    /// freshness check it performed was at or before `v`.
    pub open spec fn compatible(&self, v: SystemVersion) -> bool {
        self.check_version is Some ==> self.check_version->0.v <= v.v
    }

    /// A new node with no committed value and no freshness check yet.
    pub fn new(system: &System) -> (r: Val<T>)
        ensures
            r.system_id == system.id,
            r.check_version is None,
            r.value is None,
            r.wf(),
    {
        Val { system_id: system.id(), check_version: None, value: None }
    }

    /// Bring the cache up to date with the context's current version. When
    /// the node is already fresh nothing happens and `f` is never run;
    /// otherwise `f` receives a transaction holding the previously committed
    /// pair, and the pair it commits (under the early-cutoff rule applied by
    /// the transaction's own methods) becomes the node's committed state.
    /// Either way the node ends confirmed fresh, holding a committed value
    /// whose version does not exceed the clock and never went backwards.
    pub fn refresh<'s, F: FnOnce(Update<'s, T>) -> Commit<T>>(&mut self, system: &'s System, f: F)
        requires
            old(self).system_id == system.id,
            old(self).wf(),
            old(self).compatible(system.version),
            !old(self).fresh(system.version) ==> call_requires(
                f,
                (Update { system: system, current: old(self).value, update_version: None },),
            ),
            forall|u: Update<'s, T>, c: Commit<T>|
                (#[trigger] call_ensures(f, (u,), c)) && u.wf() ==> c.version.v
                    <= u.system.version.v && (u.current is Some ==> (u.current->0).0.v
                    <= c.version.v),
        ensures
            final(self).system_id == old(self).system_id,
            final(self).wf(),
            final(self).fresh(system.version),
            old(self).fresh(system.version) ==> *final(self) == *old(self),
            !old(self).fresh(system.version) ==> final(self).value is Some && call_ensures(
                f,
                (Update { system: system, current: old(self).value, update_version: None },),
                Commit {
                    version: (final(self).value->0).0,
                    value: (final(self).value->0).1,
                },
            ),
            final(self).value is Some ==> (final(self).value->0).0.v <= system.version.v,
            old(self).value is Some ==> final(self).value is Some && (old(self).value->0).0.v
                <= (final(self).value->0).0.v,
    {
        let stale = match &self.check_version {
            Some(cv) => cv.v != system.version().v,
            None => true,
        };
        if stale {
            let current = self.value.take();
            let u = Update { system, current, update_version: None };
            proof {
                assert(u.wf());
            }
            let c = f(u);
            self.value = Some((c.version, c.value));
            self.check_version = Some(system.version());
        }
    }
}

impl<T> SystemNode for Val<T> {
    type Value = T;

    open spec fn owner(&self) -> SystemId {
        self.system_id
    }

    /// A derived node may be read at version `v` only once its cache has
    /// been confirmed fresh as of `v` and holds a committed value.
    open spec fn readable(&self, v: SystemVersion) -> bool {
        &&& self.check_version == Some(v)
        &&& self.value is Some
        &&& (self.value->0).0.v <= v.v
    }

    open spec fn node_version(&self) -> SystemVersion {
        (self.value->0).0
    }

    open spec fn node_value(&self) -> T {
        (self.value->0).1
    }

    fn get_value<'s>(&'s self, system: &'s System) -> (r: (SystemVersion, &'s T)) {
        let p = self.value.as_ref().unwrap();
        (p.0, &p.1)
    }
}

/// The thread-safe memoized node: the same caching and commit contract as
/// [`Val`]. No atomically published check version and no recomputation lock
/// are needed here: exclusive `&mut` access to [`SyncVal::refresh`] already
/// serializes recomputation (at most one in flight per node), and shared
/// `&` reads of a type without interior mutability are safe across threads,
/// so the published state a reader sees is always a fully committed pair.
#[derive(Debug)]
pub struct SyncVal<T> {
    pub inner: Val<T>,
}

impl<T> SyncVal<T> {
    /// A new thread-safe node with no committed value yet.
    pub fn new(system: &System) -> (r: SyncVal<T>)
        ensures
            r.inner.system_id == system.id,
            r.inner.check_version is None,
            r.inner.value is None,
            r.inner.wf(),
    {
        SyncVal { inner: Val::new(system) }
    }

    /// Bring the cache up to date; the contract of [`Val::refresh`].
    pub fn refresh<'s, F: FnOnce(Update<'s, T>) -> Commit<T>>(&mut self, system: &'s System, f: F)
        requires
            old(self).inner.system_id == system.id,
            old(self).inner.wf(),
            old(self).inner.compatible(system.version),
            !old(self).inner.fresh(system.version) ==> call_requires(
                f,
                (Update { system: system, current: old(self).inner.value, update_version: None },),
            ),
            forall|u: Update<'s, T>, c: Commit<T>|
                (#[trigger] call_ensures(f, (u,), c)) && u.wf() ==> c.version.v
                    <= u.system.version.v && (u.current is Some ==> (u.current->0).0.v
                    <= c.version.v),
        ensures
            final(self).inner.system_id == old(self).inner.system_id,
            final(self).inner.wf(),
            final(self).inner.fresh(system.version),
            old(self).inner.fresh(system.version) ==> *final(self) == *old(self),
            !old(self).inner.fresh(system.version) ==> final(self).inner.value is Some
                && call_ensures(
                f,
                (Update { system: system, current: old(self).inner.value, update_version: None },),
                Commit {
                    version: (final(self).inner.value->0).0,
                    value: (final(self).inner.value->0).1,
                },
            ),
            final(self).inner.value is Some ==> (final(self).inner.value->0).0.v
                <= system.version.v,
            old(self).inner.value is Some ==> final(self).inner.value is Some && (old(
                self,
            ).inner.value->0).0.v <= (final(self).inner.value->0).0.v,
    {
        self.inner.refresh(system, f);
    }
}

impl<T> SystemNode for SyncVal<T> {
    type Value = T;

    open spec fn owner(&self) -> SystemId {
        self.inner.system_id
    }

    open spec fn readable(&self, v: SystemVersion) -> bool {
        self.inner.readable(v)
    }

    open spec fn node_version(&self) -> SystemVersion {
        self.inner.node_version()
    }

    open spec fn node_value(&self) -> T {
        self.inner.node_value()
    }

    fn get_value<'s>(&'s self, system: &'s System) -> (r: (SystemVersion, &'s T)) {
        self.inner.get_value(system)
    }
}

} // verus!
