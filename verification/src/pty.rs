//! Pseudo-terminal allocation, sequenced as a state machine.
//!
//! Allocation proceeds through fixed phases: open the master device, grant
//! slave access, unlock the slave, resolve the slave's device path, and open
//! the slave eagerly.  Opening the slave here, rather than handing a path to
//! the caller, avoids the race between resolving a path and opening it
//! later.  The machine decides each phase; the device calls themselves are
//! performed outside and their outcomes handed back in.  If any phase
//! fails, the whole allocation aborts and every descriptor already acquired
//! is handed back for release, so a failed allocation leaks nothing.

use vstd::prelude::*;

use crate::descriptor::OwnedDescriptor;
use crate::errors::PtyError;

verus! {

/// The phase a pseudo-terminal allocation is in.
#[derive(Clone, Copy, Debug, PartialEq, Eq, Structural)]
pub enum PtyPhase {
    /// Waiting for the master device to be opened.
    OpeningMaster,
    /// Waiting for slave access to be granted.
    Granting,
    /// Waiting for the slave device to be unlocked.
    Unlocking,
    /// Waiting for the slave device path to be resolved.
    Resolving,
    /// Waiting for the slave device to be opened.
    OpeningSlave,
    /// Both descriptors have been handed out.
    Complete,
    /// The allocation failed and was released.
    Aborted,
}

/// A completed allocation: the master retained by the allocating side and
/// the eagerly opened slave.  The two are independent resources from here
/// on; ownership of both moves to the caller.
#[derive(Debug)]
pub struct PtyPair {
    /// The master descriptor.
    pub master: OwnedDescriptor,
    /// The slave descriptor.
    pub slave: OwnedDescriptor,
}

/// What the allocation machine asks the surrounding code to do next.
#[derive(Debug)]
pub enum PtyStep {
    /// Grant slave access on this master descriptor.
    DoGrant { master_raw: i32 },
    /// Unlock the slave of this master descriptor.
    DoUnlock { master_raw: i32 },
    /// Resolve the slave device path of this master descriptor.
    DoResolve { master_raw: i32 },
    /// Open the slave device at this path.
    DoOpenSlave { slave_path: String },
    /// The allocation is complete; ownership of both descriptors moves out.
    Finished(PtyPair),
    /// The allocation failed in the named phase; the descriptor handed
    /// back, if any, must be closed by the caller.
    Abort { release: Option<OwnedDescriptor>, error: PtyError },
}

/// The state of one pseudo-terminal allocation.
pub struct PtyAllocation {
    phase: PtyPhase,
    master: Option<OwnedDescriptor>,
}

impl PtyAllocation {
    /// The phase the allocation is in.
    pub closed spec fn phase(&self) -> PtyPhase {
        self.phase
    }

    /// The master descriptor number currently held, if any.
    pub closed spec fn held_master(&self) -> Option<i32> {
        match self.master {
            Some(d) => Some(d.raw_id()),
            None => None,
        }
    }

    /// The machine holds the master exactly while a phase after the master
    /// open and before completion or abort is running: at every moment the
    /// descriptor has exactly one owner.
    pub open spec fn wf(&self) -> bool {
        self.held_master() is Some <==> (self.phase() == PtyPhase::Granting
            || self.phase() == PtyPhase::Unlocking
            || self.phase() == PtyPhase::Resolving
            || self.phase() == PtyPhase::OpeningSlave)
    }

    /// A fresh allocation, waiting for the master device to be opened.
    pub fn new() -> (a: PtyAllocation)
        ensures
            a.phase() == PtyPhase::OpeningMaster,
            a.wf(),
    {
        PtyAllocation { phase: PtyPhase::OpeningMaster, master: None }
    }

    /// Record the outcome of opening the master device: on success the
    /// master is taken into the machine and access granting is next; on
    /// failure the allocation aborts with nothing to release.
    pub fn on_master_opened(&mut self, r: Option<OwnedDescriptor>) -> (step: PtyStep)
        requires
            old(self).wf(),
            old(self).phase() == PtyPhase::OpeningMaster,
        ensures
            final(self).wf(),
            (match r {
                Some(d) => final(self).phase() == PtyPhase::Granting
                    && final(self).held_master() == Some(d.raw_id())
                    && step == PtyStep::DoGrant { master_raw: d.raw_id() },
                None => final(self).phase() == PtyPhase::Aborted
                    && step == PtyStep::Abort {
                        release: None,
                        error: PtyError::OpenMasterFailed,
                    },
            }),
    {
        match r {
            Some(d) => {
                let raw = d.raw();
                self.master = Some(d);
                self.phase = PtyPhase::Granting;
                PtyStep::DoGrant { master_raw: raw }
            }
            None => {
                self.phase = PtyPhase::Aborted;
                PtyStep::Abort { release: None, error: PtyError::OpenMasterFailed }
            }
        }
    }

    /// Record the outcome of granting slave access: on success unlocking is
    /// next; on failure the allocation aborts and the master is handed back
    /// for release.
    pub fn on_granted(&mut self, ok: bool) -> (step: PtyStep)
        requires
            old(self).wf(),
            old(self).phase() == PtyPhase::Granting,
        ensures
            final(self).wf(),
            ok ==> (final(self).phase() == PtyPhase::Unlocking
                && final(self).held_master() == old(self).held_master()
                && step == (PtyStep::DoUnlock { master_raw: old(self).held_master()->Some_0 })),
            !ok ==> (final(self).phase() == PtyPhase::Aborted
                && (step matches PtyStep::Abort { release, error }
                    && release matches Some(d) && Some(d.raw_id()) == old(self).held_master()
                    && error == PtyError::GrantFailed)),
    {
        if ok {
            let raw = match &self.master {
                Some(d) => d.raw(),
                None => vstd::pervasive::unreached(),
            };
            self.phase = PtyPhase::Unlocking;
            PtyStep::DoUnlock { master_raw: raw }
        } else {
            let mut slot: Option<OwnedDescriptor> = None;
            core::mem::swap(&mut slot, &mut self.master);
            self.phase = PtyPhase::Aborted;
            PtyStep::Abort { release: slot, error: PtyError::GrantFailed }
        }
    }

    /// Record the outcome of unlocking the slave device: on success path
    /// resolution is next; on failure the allocation aborts and the master
    /// is handed back for release.
    pub fn on_unlocked(&mut self, ok: bool) -> (step: PtyStep)
        requires
            old(self).wf(),
            old(self).phase() == PtyPhase::Unlocking,
        ensures
            final(self).wf(),
            ok ==> (final(self).phase() == PtyPhase::Resolving
                && final(self).held_master() == old(self).held_master()
                && step == (PtyStep::DoResolve { master_raw: old(self).held_master()->Some_0 })),
            !ok ==> (final(self).phase() == PtyPhase::Aborted
                && (step matches PtyStep::Abort { release, error }
                    && release matches Some(d) && Some(d.raw_id()) == old(self).held_master()
                    && error == PtyError::UnlockFailed)),
    {
        if ok {
            let raw = match &self.master {
                Some(d) => d.raw(),
                None => vstd::pervasive::unreached(),
            };
            self.phase = PtyPhase::Resolving;
            PtyStep::DoResolve { master_raw: raw }
        } else {
            let mut slot: Option<OwnedDescriptor> = None;
            core::mem::swap(&mut slot, &mut self.master);
            self.phase = PtyPhase::Aborted;
            PtyStep::Abort { release: slot, error: PtyError::UnlockFailed }
        }
    }

    /// Record the outcome of resolving the slave device path: on success
    /// opening the slave is next; on failure the allocation aborts and the
    /// master is handed back for release.
    pub fn on_resolved(&mut self, r: Option<String>) -> (step: PtyStep)
        requires
            old(self).wf(),
            old(self).phase() == PtyPhase::Resolving,
        ensures
            final(self).wf(),
            (match r {
                Some(path) => final(self).phase() == PtyPhase::OpeningSlave
                    && final(self).held_master() == old(self).held_master()
                    && step == PtyStep::DoOpenSlave { slave_path: path },
                None => final(self).phase() == PtyPhase::Aborted
                    && (step matches PtyStep::Abort { release, error }
                        && release matches Some(d)
                        && Some(d.raw_id()) == old(self).held_master()
                        && error == PtyError::ResolveFailed),
            }),
    {
        match r {
            Some(path) => {
                self.phase = PtyPhase::OpeningSlave;
                PtyStep::DoOpenSlave { slave_path: path }
            }
            None => {
                let mut slot: Option<OwnedDescriptor> = None;
                core::mem::swap(&mut slot, &mut self.master);
                self.phase = PtyPhase::Aborted;
                PtyStep::Abort { release: slot, error: PtyError::ResolveFailed }
            }
        }
    }

    /// Record the outcome of opening the slave device: on success the
    /// allocation is complete and both descriptors move to the caller; on
    /// failure it aborts and the master is handed back for release.
    pub fn on_slave_opened(&mut self, r: Option<OwnedDescriptor>) -> (step: PtyStep)
        requires
            old(self).wf(),
            old(self).phase() == PtyPhase::OpeningSlave,
        ensures
            final(self).wf(),
            (match r {
                Some(s) => final(self).phase() == PtyPhase::Complete
                    && (step matches PtyStep::Finished(pair)
                        && Some(pair.master.raw_id()) == old(self).held_master()
                        && pair.slave.raw_id() == s.raw_id()),
                None => final(self).phase() == PtyPhase::Aborted
                    && (step matches PtyStep::Abort { release, error }
                        && release matches Some(d)
                        && Some(d.raw_id()) == old(self).held_master()
                        && error == PtyError::OpenSlaveFailed),
            }),
    {
        let mut slot: Option<OwnedDescriptor> = None;
        core::mem::swap(&mut slot, &mut self.master);
        let master = match slot {
            Some(d) => d,
            None => vstd::pervasive::unreached(),
        };
        match r {
            Some(s) => {
                self.phase = PtyPhase::Complete;
                PtyStep::Finished(PtyPair { master, slave: s })
            }
            None => {
                self.phase = PtyPhase::Aborted;
                PtyStep::Abort { release: Some(master), error: PtyError::OpenSlaveFailed }
            }
        }
    }
}

} // verus!
