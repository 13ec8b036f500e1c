//! A demand-driven, versioned incremental computation runtime.
//!
//! A [`System`] owns a strictly increasing version clock. Mutable leaf cells
//! ([`var::Var`]) carry a value stamped with the version at which it was last
//! written; writes are authorized by a [`SystemModify`] window, which advances
//! the clock exactly once when it is opened. Derived nodes ([`val::Val`] and
//! [`val::SyncVal`]) cache a committed `(version, value)` pair and recompute it
//! lazily, through an [`Update`] transaction that records the newest version
//! among the dependencies actually read and applies the early-cutoff rule: the
//! committed pair only changes when a dependency is genuinely newer than what
//! the node last committed.

use vstd::prelude::*;

pub mod val;
pub mod var;

verus! {

/// Identifier of one graph context. Every node and every mutation window
/// carries the identifier of the context it was created against, and every
/// operation demands that the identifiers agree. Distinct contexts must be
/// given distinct identifiers by whoever creates them.
#[derive(Debug, Clone, Copy, PartialEq, Eq, Hash, Structural)]
pub struct SystemId {
    pub id: u64,
}

impl SystemId {
    pub(crate) fn new(id: u64) -> (r: SystemId)
        ensures
            r.id == id,
    {
        SystemId { id }
    }

    /// True exactly when this identifier is the one of `system`.
    pub fn check_system(&self, system: &System) -> (r: bool)
        ensures
            r == (*self == system.id),
    {
        self.id == system.id.id
    }

    /// True exactly when this identifier is the one of the context that
    /// opened `modify`.
    pub fn check_modify(&self, modify: &SystemModify) -> (r: bool)
        ensures
            r == (*self == modify.id),
    {
        self.id == modify.id.id
    }
}

/// A point on a context's version clock: a positive logical timestamp,
/// totally ordered by its number. Staleness is decided by comparing versions.
#[derive(Debug, Clone, Copy, PartialEq, Eq, PartialOrd, Ord, Hash, Structural)]
pub struct SystemVersion {
    pub v: u64,
}

impl SystemVersion {
    pub(crate) fn new() -> (r: SystemVersion)
        ensures
            r.v == 1,
    {
        SystemVersion { v: 1 }
    }

    /// Advance by exactly one step. Overflow of the representable range is an
    /// unrecoverable usage error and is excluded by the precondition.
    pub(crate) fn inc(&mut self)
        requires
            old(self).v < u64::MAX,
        ensures
            final(self).v == old(self).v + 1,
    {
        self.v = self.v + 1;
    }
}

/// One graph context: the owner of a version clock and the anchor every node
/// created against it refers back to.
#[derive(Debug)]
pub struct System {
    pub id: SystemId,
    pub version: SystemVersion,
}

impl System {
    /// Create a context whose clock starts at version 1. The caller chooses
    /// the identifier; contexts meant to be distinct must get distinct ones.
    pub fn new(id: u64) -> (s: System)
        ensures
            s.id.id == id,
            s.version.v == 1,
    {
        System { id: SystemId::new(id), version: SystemVersion::new() }
    }

    pub fn id(&self) -> (r: SystemId)
        ensures
            r == self.id,
    {
        self.id
    }

    /// A read-only snapshot of the clock.
    pub fn version(&self) -> (r: SystemVersion)
        ensures
            r == self.version,
    {
        self.version
    }

    /// Open a mutation window: the clock advances by exactly one step, and
    /// the window carries the advanced version, which every write made
    /// through it stamps onto the written cell. Only one window per context
    /// may be treated as open at a time; that exclusivity is a caller
    /// contract, while the identifier check on every write is enforced.
    pub fn modify(&mut self) -> (m: SystemModify)
        requires
            old(self).version.v < u64::MAX,
        ensures
            final(self).id == old(self).id,
            final(self).version.v == old(self).version.v + 1,
            m.id == old(self).id,
            m.version == final(self).version,
    {
        self.version.inc();
        SystemModify { id: self.id, version: self.version }
    }
}

/// The uniform read contract of a value-graph node: given the owning context,
/// yield the committed version and a reference to the committed value. A node
/// may only be read when it is `readable` at the context's current version;
/// for a derived node that means its cache has been confirmed fresh first.
pub trait SystemNode {
    type Value;

    /// Identifier of the context this node was created against.
    spec fn owner(&self) -> SystemId;

    /// Whether the node can be read at context version `v`: it holds a
    /// committed pair whose version is at most `v`, and (for a derived node)
    /// its cache has been checked against `v`.
    spec fn readable(&self, v: SystemVersion) -> bool;

    /// The committed version.
    spec fn node_version(&self) -> SystemVersion;

    /// The committed value.
    spec fn node_value(&self) -> Self::Value;

    fn get_value<'s>(&'s self, system: &'s System) -> (r: (SystemVersion, &'s Self::Value))
        requires
            self.owner() == system.id,
            self.readable(system.version),
        ensures
            r.0 == self.node_version(),
            *r.1 == self.node_value(),
            r.0.v <= system.version.v,
    ;
}

impl System {
    /// Read a node through this context, dropping the version stamp.
    pub fn get<'s, N: SystemNode>(&'s self, node: &'s N) -> (value: &'s N::Value)
        requires
            node.owner() == self.id,
            node.readable(self.version),
        ensures
            *value == node.node_value(),
    {
        let (_version, value) = node.get_value(self);
        value
    }
}

/// An open mutation window: the capability to write input cells of the
/// context it was opened on. It carries the context identifier and the
/// version the clock was advanced to when the window was opened; that
/// version is what every write through the window stamps.
#[derive(Debug)]
pub struct SystemModify {
    pub id: SystemId,
    pub version: SystemVersion,
}

impl SystemModify {
    pub fn id(&self) -> (r: SystemId)
        ensures
            r == self.id,
    {
        self.id
    }

    /// The version stamped on every cell written through this window.
    pub fn version(&self) -> (r: SystemVersion)
        ensures
            r == self.version,
    {
        self.version
    }
}

/// The version a transaction commits at: the newest version among the
/// dependencies it read, or the context's current version when it read none.
pub open spec fn effective_version(
    update_version: Option<SystemVersion>,
    system_version: SystemVersion,
) -> SystemVersion {
    match update_version {
        Some(v) => v,
        None => system_version,
    }
}

/// The early-cutoff rule: a transaction keeps the previously committed pair
/// exactly when there is one and nothing it read is newer than that pair.
pub open spec fn cutoff(
    current_version: Option<SystemVersion>,
    update_version: Option<SystemVersion>,
    system_version: SystemVersion,
) -> bool {
    match current_version {
        Some(cv) => effective_version(update_version, system_version).v <= cv.v,
        None => false,
    }
}

/// Law: advancing the clock preserves every committed-version bound. A node
/// whose committed version was within the clock when it was stamped stays
/// within it after any number of mutation windows, since the clock only ever
/// grows. Together with the stamping contracts this keeps every node's
/// committed version at or below the context's current version.
pub proof fn lemma_version_bound_preserved(
    node_version: SystemVersion,
    sv0: SystemVersion,
    sv1: SystemVersion,
)
    requires
        node_version.v <= sv0.v,
        sv0.v <= sv1.v,
    ensures
        node_version.v <= sv1.v,
{
}

/// Law: a transaction whose dependency reads all stayed within the clock
/// commits at a version within the clock, so no commit can stamp a node
/// ahead of the context's current version.
pub proof fn lemma_effective_version_bounded(
    update_version: Option<SystemVersion>,
    system_version: SystemVersion,
)
    requires
        update_version is Some ==> update_version->0.v <= system_version.v,
    ensures
        effective_version(update_version, system_version).v <= system_version.v,
{
}

/// Law (early cutoff): when the newest version among the dependencies a
/// transaction read does not exceed the node's previously committed version,
/// the commit decision keeps the committed pair unchanged — the node's
/// version does not advance, whatever value a recomputation would have
/// produced.
pub proof fn lemma_early_cutoff(
    current_version: SystemVersion,
    update_version: SystemVersion,
    system_version: SystemVersion,
)
    requires
        update_version.v <= current_version.v,
    ensures
        cutoff(Some(current_version), Some(update_version), system_version),
{
}

/// Law (early cutoff, downstream): let one node keep its committed version
/// under the cutoff rule, and let a dependent node's previous commit have
/// been made at a version at least as new. When the dependent re-reads that
/// node as its only dependency, its own decision also keeps its committed
/// pair: re-verifying freshness does not ripple new values down the graph.
pub proof fn lemma_early_cutoff_downstream(
    kept_version: SystemVersion,
    kept_update_version: SystemVersion,
    kept_system_version: SystemVersion,
    dependent_version: SystemVersion,
    dependent_system_version: SystemVersion,
)
    requires
        kept_update_version.v <= kept_version.v,
        kept_version.v <= dependent_version.v,
    ensures
        cutoff(Some(kept_version), Some(kept_update_version), kept_system_version),
        cutoff(Some(dependent_version), Some(kept_version), dependent_system_version),
{
}

/// The committed `(version, value)` pair a recompute function hands back:
/// the final act of an [`Update`] transaction. Every recompute path produces
/// exactly one of these, so a node that has been recomputed always holds a
/// committed value.
pub struct Commit<T> {
    pub version: SystemVersion,
    pub value: T,
}

/// The transaction passed to a derived node's recompute function, scoped to
/// one recomputation: it carries the owning context, the node's previously
/// committed pair (if any), and the newest version among the dependencies
/// read through it so far. Its `update` methods apply the early-cutoff rule
/// and return the pair the node will store.
pub struct Update<'s, T> {
    pub system: &'s System,
    pub current: Option<(SystemVersion, T)>,
    pub update_version: Option<SystemVersion>,
}

impl<'s, T> Update<'s, T> {
    /// The transaction's dependency reads so far stay below the clock, as
    /// does the previously committed pair it took over.
    pub open spec fn wf(&self) -> bool {
        &&& (self.current is Some ==> (self.current->0).0.v <= self.system.version.v)
        &&& (self.update_version is Some ==> self.update_version->0.v <= self.system.version.v)
    }

    /// A transaction over `system` that has read nothing yet and took over
    /// `current` as the node's previously committed pair.
    pub fn new(system: &'s System, current: Option<(SystemVersion, T)>) -> (u: Update<'s, T>)
        ensures
            u.system == system,
            u.current == current,
            u.update_version is None,
    {
        Update { system, current, update_version: None }
    }

    /// The context snapshot this transaction reads through.
    pub fn system(&self) -> (r: &'s System)
        ensures
            r == self.system,
    {
        self.system
    }

    /// Read a dependency through the transaction: the node's committed value
    /// is returned and the transaction's accumulated maximum version takes
    /// the node's committed version into account. Every dependency read of a
    /// recompute function must go through this method.
    pub fn get<'r, N: SystemNode>(&'r mut self, node: &'r N) -> (value: &'r N::Value)
        requires
            node.owner() == old(self).system.id,
            node.readable(old(self).system.version),
        ensures
            final(self).system == old(self).system,
            final(self).current == old(self).current,
            *value == node.node_value(),
            final(self).update_version is Some,
            final(self).update_version->0 == (match old(self).update_version {
                Some(v) => if v.v < node.node_version().v { node.node_version() } else { v },
                None => node.node_version(),
            }),
            old(self).wf() ==> final(self).wf(),
    {
        let sys = self.system;
        let (version, value) = node.get_value(sys);
        match self.update_version {
            Some(v) => {
                if v.v < version.v {
                    self.update_version = Some(version);
                }
            },
            None => {
                self.update_version = Some(version);
            },
        }
        value
    }

    /// End the transaction: when the early-cutoff rule keeps the previous
    /// pair, it is returned unchanged and `f` is never run; otherwise `f`
    /// produces the value committed at the effective version.
    pub fn update<F: FnOnce() -> T>(self, f: F) -> (c: Commit<T>)
        requires
            !cutoff(
                match self.current {
                    Some(p) => Some(p.0),
                    None => None,
                },
                self.update_version,
                self.system.version,
            ) ==> call_requires(f, ()),
        ensures
            ({
                let keep = cutoff(
                    match self.current {
                        Some(p) => Some(p.0),
                        None => None,
                    },
                    self.update_version,
                    self.system.version,
                );
                if keep {
                    c.version == (self.current->0).0 && c.value == (self.current->0).1
                } else {
                    c.version == effective_version(self.update_version, self.system.version)
                        && call_ensures(f, (), c.value)
                }
            }),
    {
        let effective = match self.update_version {
            Some(v) => v,
            None => self.system.version(),
        };
        match self.current {
            Some((current_version, current_value)) => {
                if effective.v <= current_version.v {
                    Commit { version: current_version, value: current_value }
                } else {
                    Commit { version: effective, value: f() }
                }
            },
            None => Commit { version: effective, value: f() },
        }
    }

    /// Like [`Update::update`], but when a new value is committed, `f`
    /// receives the previously committed value (absent on the first
    /// computation) by ownership, enabling incremental recomputation.
    pub fn update_with_old<F: FnOnce(Option<T>) -> T>(self, f: F) -> (c: Commit<T>)
        requires
            ({
                let prev = match self.current {
                    Some(p) => Some(p.1),
                    None => None,
                };
                !cutoff(
                    match self.current {
                        Some(p) => Some(p.0),
                        None => None,
                    },
                    self.update_version,
                    self.system.version,
                ) ==> call_requires(f, (prev,))
            }),
        ensures
            ({
                let keep = cutoff(
                    match self.current {
                        Some(p) => Some(p.0),
                        None => None,
                    },
                    self.update_version,
                    self.system.version,
                );
                let prev = match self.current {
                    Some(p) => Some(p.1),
                    None => None,
                };
                if keep {
                    c.version == (self.current->0).0 && c.value == (self.current->0).1
                } else {
                    c.version == effective_version(self.update_version, self.system.version)
                        && call_ensures(f, (prev,), c.value)
                }
            }),
    {
        let effective = match self.update_version {
            Some(v) => v,
            None => self.system.version(),
        };
        match self.current {
            Some((current_version, current_value)) => {
                if effective.v <= current_version.v {
                    Commit { version: current_version, value: current_value }
                } else {
                    Commit { version: effective, value: f(Some(current_value)) }
                }
            },
            None => Commit { version: effective, value: f(None) },
        }
    }
}

} // verus!
