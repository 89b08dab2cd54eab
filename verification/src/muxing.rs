//! The poll vocabulary shared by every component of the stack.
//!
//! All I/O in this library is non-blocking and progress is made by repeated
//! polling. A poll either reports that nothing happened yet, hands over a
//! value, announces an orderly end of the polled sequence, or fails. The
//! end-of-sequence outcome is deliberately distinct from failure: a peer
//! closing its connection is not an error.

use vstd::prelude::*;

use crate::addr::Multiaddr;

verus! {

/// Outcome of one non-blocking progress attempt on a multiplexer operation.
#[derive(Debug, Clone, PartialEq, Eq)]
pub enum MuxPoll<T> {
    /// No progress could be made; poll again later.
    Pending,
    /// The operation completed and produced a value.
    Ready(T),
    /// The polled sequence has ended in an orderly fashion and will never
    /// produce another value. This is not an error.
    End,
    /// The operation failed.
    Failed(MuxError),
}

/// Why a multiplexer operation failed.
#[derive(Debug, Clone, Copy, PartialEq, Eq)]
pub enum MuxError {
    /// The underlying connection failed with the given code. Once a
    /// multiplexer reports this, it reports it on every later poll.
    Connection(u64),
    /// The operation referenced a substream that was already destroyed or
    /// was never handed out by this multiplexer: a caller-side contract
    /// violation, reported as an explicit error rather than acted upon.
    Stale,
}

/// Outcome of one non-blocking progress attempt on a handler or behaviour.
#[derive(Debug, Clone, PartialEq, Eq)]
pub enum Async<T> {
    /// The poll produced a value.
    Ready(T),
    /// Nothing to report; poll again later.
    NotReady,
}

/// Which directions a shutdown request closes.
#[derive(Debug, Clone, Copy, PartialEq, Eq)]
pub enum Shutdown {
    /// Close the write half only; reading may continue.
    Write,
    /// Close both directions.
    Both,
}

/// One physical ordered byte-duplex link to a remote peer, as this library
/// sees it: the address the link leads to. The bytes themselves flow through
/// the external transport; a connection value is owned by exactly one
/// multiplexer once upgraded.
#[derive(Debug, Clone, PartialEq, Eq)]
pub struct Connection {
    /// The address of the remote end of this connection.
    pub remote_addr: Multiaddr,
}

} // verus!
