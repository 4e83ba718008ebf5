//! A verified core for a pseudo-terminal handoff server.
//!
//! The server accepts connections on a Unix domain socket, receives an open
//! file descriptor transmitted by a peer through ancillary data, switches the
//! underlying terminal device into raw mode, and relays line-oriented output
//! from it to a consumer.  This crate holds the decision logic of that
//! pipeline: decoding the ancillary rights data, computing raw-mode terminal
//! flags, sequencing pseudo-terminal allocation, moving descriptor ownership
//! through a handoff queue, and splitting the relayed byte stream into lines.
//! The system calls themselves (socket receive, terminal attribute calls,
//! device opens) live outside this crate and hand plain values in and out.

pub mod ancillary;
pub mod descriptor;
pub mod dispatch;
pub mod errors;
pub mod handoff;
pub mod pty;
pub mod relay;
pub mod session;
pub mod termmode;
