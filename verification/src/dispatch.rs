//! The connection dispatcher's decisions.
//!
//! The dispatcher binds a listening socket at a caller-supplied path —
//! failing fast if the bind fails — and then accepts connections
//! indefinitely, starting exactly one independent handler per accepted
//! connection.  A failed accept is reported and the loop goes on; it is
//! never fatal.  The accept loop itself runs outside; this module decides
//! what each outcome means and accounts for the handlers started.

use vstd::prelude::*;

use crate::errors::BindError;

verus! {

/// What the accept loop should do with one accept outcome.
#[derive(Clone, Copy, Debug, PartialEq, Eq, Structural)]
pub enum AcceptAction {
    /// Start one independent handler for the accepted connection.
    SpawnHandler,
    /// Report the failed accept and keep accepting.
    ReportAndContinue,
}

/// Decide whether the process can start serving: a successful bind means
/// listening begins; a failed bind is fatal and reported as such.
pub fn bind_outcome(ok: bool) -> (r: Result<(), BindError>)
    ensures
        r is Ok <==> ok,
        !ok ==> r == Err::<(), BindError>(BindError::PathUnavailable),
{
    if ok {
        Ok(())
    } else {
        Err(BindError::PathUnavailable)
    }
}

/// The dispatcher's accounting: how many connections were accepted and how
/// many handlers were started.
pub struct Dispatcher {
    accepted: u64,
    started: u64,
}

impl Dispatcher {
    /// How many connections have been accepted.
    pub closed spec fn accepted_count(&self) -> u64 {
        self.accepted
    }

    /// How many handlers have been started.
    pub closed spec fn started_count(&self) -> u64 {
        self.started
    }

    /// Exactly one handler per accepted connection: never none, never two.
    pub open spec fn wf(&self) -> bool {
        self.started_count() == self.accepted_count()
    }

    /// A dispatcher that has not accepted anything yet.
    pub fn new() -> (d: Dispatcher)
        ensures
            d.accepted_count() == 0,
            d.started_count() == 0,
            d.wf(),
    {
        Dispatcher { accepted: 0, started: 0 }
    }

    /// How many handlers have been started.
    pub fn handlers_started(&self) -> (n: u64)
        ensures
            n == self.started_count(),
    {
        self.started
    }

    /// Decide what to do with one accept outcome.  A successful accept
    /// starts exactly one handler; a failed one is reported and changes
    /// nothing.
    pub fn on_accept(&mut self, accept_ok: bool) -> (a: AcceptAction)
        requires
            old(self).wf(),
            old(self).accepted_count() < u64::MAX,
        ensures
            final(self).wf(),
            accept_ok ==> (a == AcceptAction::SpawnHandler
                && final(self).accepted_count() == old(self).accepted_count() + 1
                && final(self).started_count() == old(self).started_count() + 1),
            !accept_ok ==> (a == AcceptAction::ReportAndContinue
                && *final(self) == *old(self)),
    {
        if accept_ok {
            self.accepted = self.accepted + 1;
            self.started = self.started + 1;
            AcceptAction::SpawnHandler
        } else {
            AcceptAction::ReportAndContinue
        }
    }
}

} // verus!
