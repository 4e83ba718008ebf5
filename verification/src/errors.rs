//! Error taxonomy of the handoff server.
//!
//! Each error carries exactly the information its recovery policy needs:
//! `BindError` is fatal at startup, `ProtocolError` and `TerminalError` are
//! per-connection and recoverable, `PtyError` names the allocation phase that
//! failed, and `ChannelError` signals that the relay side of the handoff
//! queue is gone.

use vstd::prelude::*;

verus! {

/// A malformed receive on a connection: the peer did not transmit exactly
/// one descriptor in an ancillary rights message.
#[derive(Clone, Copy, Debug, PartialEq, Eq, Structural)]
pub enum ProtocolError {
    /// No ancillary control message accompanied the received data.
    MissingAncillaryData,
    /// A control message was present but was empty or not a rights message.
    UnexpectedMessageKind,
}

impl ProtocolError {
    /// The description that `message` returns for this error.
    pub open spec fn message_spec(&self) -> Seq<char> {
        match self {
            ProtocolError::MissingAncillaryData => "no ancillary control message was received"@,
            ProtocolError::UnexpectedMessageKind => "control message was empty or not a rights message"@,
        }
    }

    /// A human-readable description of the failure.
    pub fn message(&self) -> (m: &'static str)
        ensures
            m@ == self.message_spec(),
    {
        match self {
            ProtocolError::MissingAncillaryData => "no ancillary control message was received",
            ProtocolError::UnexpectedMessageKind => "control message was empty or not a rights message",
        }
    }
}

/// A failure while reading or applying terminal attributes on a descriptor.
#[derive(Clone, Copy, Debug, PartialEq, Eq, Structural)]
pub enum TerminalError {
    /// The descriptor does not refer to a terminal device.
    NotATerminal,
    /// The attribute call failed for another reason.
    IoctlFailed,
}

impl TerminalError {
    /// The description that `message` returns for this error.
    pub open spec fn message_spec(&self) -> Seq<char> {
        match self {
            TerminalError::NotATerminal => "descriptor is not a terminal"@,
            TerminalError::IoctlFailed => "terminal attribute call failed"@,
        }
    }

    /// A human-readable description of the failure.
    pub fn message(&self) -> (m: &'static str)
        ensures
            m@ == self.message_spec(),
    {
        match self {
            TerminalError::NotATerminal => "descriptor is not a terminal",
            TerminalError::IoctlFailed => "terminal attribute call failed",
        }
    }
}

/// A failed pseudo-terminal allocation, naming the phase that failed.
#[derive(Clone, Copy, Debug, PartialEq, Eq, Structural)]
pub enum PtyError {
    /// Opening the master device failed.
    OpenMasterFailed,
    /// Granting slave access failed.
    GrantFailed,
    /// Unlocking the slave device failed.
    UnlockFailed,
    /// Resolving the slave device path failed.
    ResolveFailed,
    /// Opening the slave device failed.
    OpenSlaveFailed,
}

impl PtyError {
    /// The description that `message` returns for this error.
    pub open spec fn message_spec(&self) -> Seq<char> {
        match self {
            PtyError::OpenMasterFailed => "opening the pseudo-terminal master failed"@,
            PtyError::GrantFailed => "granting slave access failed"@,
            PtyError::UnlockFailed => "unlocking the slave device failed"@,
            PtyError::ResolveFailed => "resolving the slave device path failed"@,
            PtyError::OpenSlaveFailed => "opening the slave device failed"@,
        }
    }

    /// A human-readable description naming the failing phase.
    pub fn message(&self) -> (m: &'static str)
        ensures
            m@ == self.message_spec(),
    {
        match self {
            PtyError::OpenMasterFailed => "opening the pseudo-terminal master failed",
            PtyError::GrantFailed => "granting slave access failed",
            PtyError::UnlockFailed => "unlocking the slave device failed",
            PtyError::ResolveFailed => "resolving the slave device path failed",
            PtyError::OpenSlaveFailed => "opening the slave device failed",
        }
    }
}

/// The consumer side of the handoff queue has terminated.
#[derive(Clone, Copy, Debug, PartialEq, Eq, Structural)]
pub enum ChannelError {
    /// No receiver will ever take descriptors from the queue again.
    Disconnected,
}

impl ChannelError {
    /// The description that `message` returns for this error.
    pub open spec fn message_spec(&self) -> Seq<char> {
        "relay side of the handoff queue is disconnected"@
    }

    /// A human-readable description of the failure.
    pub fn message(&self) -> (m: &'static str)
        ensures
            m@ == self.message_spec(),
    {
        match self {
            ChannelError::Disconnected => "relay side of the handoff queue is disconnected",
        }
    }
}

/// Binding the listening socket failed; fatal at startup.
#[derive(Clone, Copy, Debug, PartialEq, Eq, Structural)]
pub enum BindError {
    /// The socket path could not be bound (for example, it already exists).
    PathUnavailable,
}

impl BindError {
    /// The description that `message` returns for this error.
    pub open spec fn message_spec(&self) -> Seq<char> {
        "could not bind the listening socket at the given path"@
    }

    /// A human-readable description of the failure.
    pub fn message(&self) -> (m: &'static str)
        ensures
            m@ == self.message_spec(),
    {
        match self {
            BindError::PathUnavailable => "could not bind the listening socket at the given path",
        }
    }
}

/// Any per-connection failure, caught at the handler boundary.
#[derive(Clone, Copy, Debug, PartialEq, Eq, Structural)]
pub enum HandlerError {
    /// The receive step was malformed.
    Protocol(ProtocolError),
    /// Terminal configuration failed on the received descriptor.
    Terminal(TerminalError),
    /// The handoff queue no longer has a consumer.
    Channel(ChannelError),
}

impl HandlerError {
    /// The description that `message` returns for this error.
    pub open spec fn message_spec(&self) -> Seq<char> {
        match self {
            HandlerError::Protocol(e) => e.message_spec(),
            HandlerError::Terminal(e) => e.message_spec(),
            HandlerError::Channel(e) => e.message_spec(),
        }
    }

    /// A human-readable description of the failing phase.
    pub fn message(&self) -> (m: &'static str)
        ensures
            m@ == self.message_spec(),
    {
        match self {
            HandlerError::Protocol(e) => e.message(),
            HandlerError::Terminal(e) => e.message(),
            HandlerError::Channel(e) => e.message(),
        }
    }
}

} // verus!
