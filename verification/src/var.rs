//! Input cells: the mutable leaves of the value graph.

use vstd::prelude::*;
use crate::System;
use crate::SystemId;
use crate::SystemModify;
use crate::SystemNode;
use crate::SystemVersion;

verus! {

/// A mutable leaf node: a value stamped with the version at which it was last
/// written. It is created at the owning context's current version and may
/// only be rewritten through a mutation window of that same context, which
/// stamps the window's (already advanced) version onto it.
#[derive(Debug)]
pub struct Var<T> {
    pub system_id: SystemId,
    pub version: SystemVersion,
    pub value: T,
}

impl System {
    /// Create an input cell of this context holding `value`.
    pub fn var<T>(&self, value: T) -> (r: Var<T>)
        ensures
            r.system_id == self.id,
            r.version == self.version,
            r.value == value,
    {
        Var::new(self, value)
    }
}

impl<T> Var<T> {
    /// A new cell stamped at `system`'s current version.
    pub fn new(system: &System, value: T) -> (r: Var<T>)
        ensures
            r.system_id == system.id,
            r.version == system.version,
            r.value == value,
    {
        Var { system_id: system.id(), version: system.version(), value }
    }

    /// Overwrite the cell through an open mutation window of the owning
    /// context: the stored value becomes `value` and the committed version
    /// becomes the window's version, with immediate effect.
    pub fn modify(&mut self, modify: &SystemModify, value: T)
        requires
            old(self).system_id == modify.id,
        ensures
            final(self).system_id == old(self).system_id,
            final(self).version == modify.version,
            final(self).value == value,
    {
        self.version = modify.version();
        self.value = value;
    }
}

/// Law (read-your-writes): a cell in the state a write through a mutation
/// window leaves it in — stamped with the window's version and holding the
/// written value — reads back exactly that value at exactly that version,
/// through any state of the owning context whose clock is at or past the
/// window's version.
pub proof fn lemma_read_your_writes<T>(cell: Var<T>, window: SystemModify, written: T, s: System)
    requires
        cell.system_id == window.id,
        cell.version == window.version,
        cell.value == written,
        window.id == s.id,
        window.version.v <= s.version.v,
    ensures
        cell.owner() == s.id,
        cell.readable(s.version),
        cell.node_version() == window.version,
        cell.node_value() == written,
{
}

impl<T> SystemNode for Var<T> {
    type Value = T;

    open spec fn owner(&self) -> SystemId {
        self.system_id
    }

    open spec fn readable(&self, v: SystemVersion) -> bool {
        self.version.v <= v.v
    }

    open spec fn node_version(&self) -> SystemVersion {
        self.version
    }

    open spec fn node_value(&self) -> T {
        self.value
    }

    fn get_value<'s>(&'s self, system: &'s System) -> (r: (SystemVersion, &'s T)) {
        (self.version, &self.value)
    }
}

} // verus!
