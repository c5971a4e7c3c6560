//! Single-slot record of the running external audit process.
//!
//! The orchestrator writes the slot when it spawns the audit process and
//! clears it when that process terminates; the host's shutdown hook takes the
//! slot to signal a still-running child. The host guards the registry with a
//! lock so that the hook's read-and-clear and the orchestrator's clear
//! serialize; the registry itself is an explicitly constructed value, not an
//! implicit global.

use vstd::prelude::*;

verus! {

/// The single process-identifier slot.
#[derive(Debug)]
pub struct ProcessRegistry {
    pid: Option<u32>,
}

impl ProcessRegistry {
    /// The currently recorded process identifier, if any.
    pub closed spec fn slot(&self) -> Option<u32> {
        self.pid
    }

    /// Creates an empty registry.
    pub fn new() -> (r: ProcessRegistry)
        ensures
            r.slot() is None,
    {
        ProcessRegistry { pid: None }
    }

    /// Records the identifier of a just-spawned process, overwriting any
    /// stale value.
    pub fn record(&mut self, pid: u32)
        ensures
            final(self).slot() == Some(pid),
    {
        self.pid = Some(pid);
    }

    /// Clears the slot unconditionally.
    pub fn clear(&mut self)
        ensures
            final(self).slot() is None,
    {
        self.pid = None;
    }

    /// Reads and clears the slot in one step: a recorded identifier is
    /// observed exactly once.
    pub fn take(&mut self) -> (r: Option<u32>)
        ensures
            r == old(self).slot(),
            final(self).slot() is None,
    {
        let r = self.pid;
        self.pid = None;
        r
    }

    /// The currently recorded process identifier.
    pub fn current(&self) -> (r: Option<u32>)
        ensures
            r == self.slot(),
    {
        self.pid
    }
}

} // verus!
