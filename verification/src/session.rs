//! The per-connection handler, sequenced as a state machine.
//!
//! One accepted connection goes through fixed stages: receive the
//! transmitted descriptor, query the terminal attributes of the device it
//! refers to, apply the raw mode computed from them, and hand the
//! configured descriptor off to the relay.  The machine makes every
//! decision; the receive, the attribute calls and the wait on the queue
//! happen outside and their outcomes are handed back in.  Any failure is
//! caught here: the machine reports the error for this connection and hands
//! the descriptor back for release, so a failed connection never affects
//! another and never leaks the descriptor.
//!
//! Together with the queue's contract this mechanizes the ownership
//! invariant of a transmitted descriptor: it is held by the receive, then
//! by this machine while being configured, then by the handoff queue, then
//! by the relay — at every moment by exactly one of them.

use vstd::prelude::*;

use crate::ancillary::{extract_descriptor, spec_extract, ControlData};
use crate::descriptor::{raw_ids, OwnedDescriptor};
use crate::errors::{ChannelError, HandlerError};
use crate::handoff::HandoffQueue;
use crate::termmode::{classify_attr_errno, make_raw, spec_classify_attr_errno, spec_make_raw,
    TermMode};

verus! {

/// The stage a connection handler is in.
#[derive(Clone, Copy, Debug, PartialEq, Eq, Structural)]
pub enum SessionState {
    /// Waiting for the receive operation's control messages.
    Receiving,
    /// Holding the descriptor, waiting for its terminal attributes.
    Configuring,
    /// Holding the descriptor, waiting for the raw mode to be applied.
    Applying,
    /// The descriptor was handed off to the relay.
    Done,
    /// The connection failed and its descriptor, if any, was handed back.
    Failed,
}

/// What the session machine asks the surrounding handler to do next.
#[derive(Debug)]
pub enum SessionStep {
    /// Query the terminal attributes of this descriptor; the descriptors
    /// listed beyond the first of the rights message must each be closed.
    QueryAttrs { fd_raw: i32, close_extra: Vec<OwnedDescriptor> },
    /// Apply this already-raw mode to the descriptor, with apply-now
    /// semantics.
    ApplyAttrs { fd_raw: i32, mode: TermMode },
    /// The descriptor was appended to the handoff queue; the connection is
    /// handled.
    Handoff,
    /// The connection failed; report the error, and close the descriptor
    /// handed back, if any.
    Fail { error: HandlerError, release: Option<OwnedDescriptor> },
}

/// The state of one connection handler.
pub struct Session {
    state: SessionState,
    fd: Option<OwnedDescriptor>,
}

impl Session {
    /// The stage the handler is in.
    pub closed spec fn state(&self) -> SessionState {
        self.state
    }

    /// The descriptor number currently held, if any.
    pub closed spec fn held_fd(&self) -> Option<i32> {
        match self.fd {
            Some(d) => Some(d.raw_id()),
            None => None,
        }
    }

    /// The machine holds the descriptor exactly while it is being
    /// configured: before receipt there is nothing to hold, and after the
    /// handoff or a failure ownership has moved on.
    pub open spec fn wf(&self) -> bool {
        self.held_fd() is Some <==> (self.state() == SessionState::Configuring
            || self.state() == SessionState::Applying)
    }

    /// A fresh handler for one accepted connection.
    pub fn new() -> (s: Session)
        ensures
            s.state() == SessionState::Receiving,
            s.wf(),
    {
        Session { state: SessionState::Receiving, fd: None }
    }

    /// Decode the control messages of the receive operation.  On a
    /// well-formed receive the machine takes ownership of the transmitted
    /// descriptor and asks for its terminal attributes; on a malformed one
    /// the connection fails with the protocol error.
    pub fn on_receive(&mut self, msgs: Vec<ControlData>) -> (step: SessionStep)
        requires
            old(self).wf(),
            old(self).state() == SessionState::Receiving,
        ensures
            final(self).wf(),
            (match spec_extract(msgs@) {
                Ok(p) => final(self).state() == SessionState::Configuring
                    && final(self).held_fd() == Some(p.0)
                    && (step matches SessionStep::QueryAttrs { fd_raw, close_extra }
                        && fd_raw == p.0 && raw_ids(close_extra@) == p.1),
                Err(e) => final(self).state() == SessionState::Failed
                    && step == (SessionStep::Fail {
                        error: HandlerError::Protocol(e),
                        release: None,
                    }),
            }),
    {
        match extract_descriptor(msgs) {
            Ok(rec) => {
                let raw = rec.fd.raw();
                self.fd = Some(rec.fd);
                self.state = SessionState::Configuring;
                SessionStep::QueryAttrs { fd_raw: raw, close_extra: rec.extra }
            }
            Err(e) => {
                self.state = SessionState::Failed;
                SessionStep::Fail { error: HandlerError::Protocol(e), release: None }
            }
        }
    }

    /// Use the outcome of the attribute query.  On success the machine
    /// computes the raw mode and asks for it to be applied; on failure the
    /// connection fails with the classified terminal error and the
    /// descriptor is handed back for closing.
    pub fn on_attrs(&mut self, r: Result<TermMode, i32>) -> (step: SessionStep)
        requires
            old(self).wf(),
            old(self).state() == SessionState::Configuring,
        ensures
            final(self).wf(),
            (match r {
                Ok(m) => final(self).state() == SessionState::Applying
                    && final(self).held_fd() == old(self).held_fd()
                    && step == (SessionStep::ApplyAttrs {
                        fd_raw: old(self).held_fd()->Some_0,
                        mode: spec_make_raw(m),
                    }),
                Err(errno) => final(self).state() == SessionState::Failed
                    && (step matches SessionStep::Fail { error, release }
                        && error == HandlerError::Terminal(spec_classify_attr_errno(errno))
                        && (release matches Some(d)
                            && Some(d.raw_id()) == old(self).held_fd())),
            }),
    {
        match r {
            Ok(m) => {
                let raw = match &self.fd {
                    Some(d) => d.raw(),
                    None => vstd::pervasive::unreached(),
                };
                self.state = SessionState::Applying;
                SessionStep::ApplyAttrs { fd_raw: raw, mode: make_raw(m) }
            }
            Err(errno) => {
                let mut slot: Option<OwnedDescriptor> = None;
                core::mem::swap(&mut slot, &mut self.fd);
                self.state = SessionState::Failed;
                SessionStep::Fail {
                    error: HandlerError::Terminal(classify_attr_errno(errno)),
                    release: slot,
                }
            }
        }
    }

    /// Use the outcome of applying the raw mode, and on success hand the
    /// configured descriptor off.  If the apply failed, the connection
    /// fails with the classified terminal error.  If the relay side of the
    /// queue is gone, it fails with the channel error.  Either way the
    /// descriptor is handed back for closing; on success it is moved into
    /// the queue and the connection is done.
    pub fn on_applied(&mut self, ok: bool, errno: i32, q: &mut HandoffQueue) -> (step: SessionStep)
        requires
            old(self).wf(),
            old(self).state() == SessionState::Applying,
        ensures
            final(self).wf(),
            final(q).is_open() == old(q).is_open(),
            ok && old(q).is_open() ==> (final(self).state() == SessionState::Done
                && step == SessionStep::Handoff
                && final(q).pending()
                    == old(q).pending().push(old(self).held_fd()->Some_0)),
            ok && !old(q).is_open() ==> (final(self).state() == SessionState::Failed
                && *final(q) == *old(q)
                && (step matches SessionStep::Fail { error, release }
                    && error == HandlerError::Channel(ChannelError::Disconnected)
                    && (release matches Some(d)
                        && Some(d.raw_id()) == old(self).held_fd()))),
            !ok ==> (final(self).state() == SessionState::Failed
                && *final(q) == *old(q)
                && (step matches SessionStep::Fail { error, release }
                    && error == HandlerError::Terminal(spec_classify_attr_errno(errno))
                    && (release matches Some(d)
                        && Some(d.raw_id()) == old(self).held_fd()))),
    {
        let mut slot: Option<OwnedDescriptor> = None;
        core::mem::swap(&mut slot, &mut self.fd);
        let d = match slot {
            Some(d) => d,
            None => vstd::pervasive::unreached(),
        };
        if ok {
            match q.send(d) {
                Ok(()) => {
                    self.state = SessionState::Done;
                    SessionStep::Handoff
                }
                Err(back) => {
                    self.state = SessionState::Failed;
                    SessionStep::Fail {
                        error: HandlerError::Channel(ChannelError::Disconnected),
                        release: Some(back),
                    }
                }
            }
        } else {
            self.state = SessionState::Failed;
            SessionStep::Fail {
                error: HandlerError::Terminal(classify_attr_errno(errno)),
                release: Some(d),
            }
        }
    }
}

} // verus!
