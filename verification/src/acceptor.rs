//! Decisions of the connection acceptor.
//!
//! The acceptor owns the listening socket. It binds once, then accepts
//! connections for as long as the listener works and hands each one over to
//! the session manager without waiting for the manager's answer. What it
//! does when something goes wrong is decided here; binding and accepting
//! themselves are done by the owner of the socket.

use vstd::prelude::*;
use crate::session::ConnectionId;

verus! {

/// Exit code of a server that was shut down in good order.
pub const EXIT_SHUTDOWN: i32 = 0;

/// Exit code of a server that could not bind its address.
pub const EXIT_BIND_FAILED: i32 = 1;

/// Exit code of a server whose listener broke while it was serving.
pub const EXIT_LISTENER_FAILED: i32 = 2;

/// Address that the server listens on when none is configured.
pub const DEFAULT_ADDRESS: &'static str = "127.0.0.1:27007";

/// Port of `DEFAULT_ADDRESS`.
pub const DEFAULT_PORT: u16 = 27007;

/// Why the listening socket could not be bound.
#[derive(PartialEq, Eq, Clone, Copy, Debug, Structural)]
pub enum BindError {
    /// Another socket is bound to the address.
    AddressInUse,
    /// The process may not bind the address.
    PermissionDenied,
    /// The address is malformed or not one of this machine.
    InvalidAddress,
    /// Any other cause.
    Other,
}

/// What the operating system said when the listening socket could not be
/// bound.
#[derive(PartialEq, Eq, Clone, Copy, Debug, Structural)]
pub enum BindErrorKind {
    /// The address is in use.
    AddrInUse,
    /// The address is not one of this machine.
    AddrNotAvailable,
    /// The address could not be read as an address.
    InvalidInput,
    /// The process lacks the right to bind the address.
    PermissionDenied,
    /// Anything else.
    Other,
}

/// What the operating system said when a connection could not be accepted.
#[derive(PartialEq, Eq, Clone, Copy, Debug, Structural)]
pub enum AcceptErrorKind {
    /// The incoming connection was aborted before it was accepted.
    ConnectionAborted,
    /// The incoming connection was reset by its peer.
    ConnectionReset,
    /// The incoming connection was refused.
    ConnectionRefused,
    /// The call was interrupted.
    Interrupted,
    /// The call ran out of time.
    TimedOut,
    /// No connection was waiting.
    WouldBlock,
    /// Anything else.
    Other,
}

/// How an attempt to accept the next connection ended.
#[derive(PartialEq, Eq, Clone, Copy, Debug, Structural)]
pub enum AcceptOutcome {
    /// A connection was accepted.
    Connected,
    /// This attempt failed; the listener itself still works.
    Failed,
    /// The listener is broken and will accept nothing any more.
    ListenerFailed,
}

/// What the owner of the listening socket has to do next.
#[derive(PartialEq, Eq, Clone, Copy, Debug, Structural)]
pub enum AcceptorAction {
    /// Wait for the next connection.
    Accept,
    /// Hand the new connection over to the session manager under this name,
    /// without waiting for the manager, and wait for the next connection.
    HandOff(ConnectionId),
    /// Report the failure and end the process with this exit code.
    Exit(i32),
}

/// The acceptor after an attempt to accept, with what is to be done.
pub struct Accepted {
    pub next_id: u64,
    pub action: AcceptorAction,
}

/// The number that follows `id`; after the largest one the count starts over.
pub open spec fn following_id(id: u64) -> u64 {
    if id == u64::MAX {
        0
    } else {
        (id + 1) as u64
    }
}

/// The acceptor's rule for the outcome of an attempt to accept, where
/// `next_id` is the number that the next connection is to get.
///
/// * A connection: it is handed off under `next_id`, which is then used up.
/// * A failed attempt: it is passed over, and accepting goes on.
/// * A broken listener: no session can start any more, so the process ends.
pub open spec fn accept_step(next_id: u64, outcome: AcceptOutcome) -> Accepted {
    match outcome {
        AcceptOutcome::Connected => Accepted {
            next_id: following_id(next_id),
            action: AcceptorAction::HandOff(ConnectionId(next_id)),
        },
        AcceptOutcome::Failed => Accepted { next_id, action: AcceptorAction::Accept },
        AcceptOutcome::ListenerFailed => Accepted {
            next_id,
            action: AcceptorAction::Exit(EXIT_LISTENER_FAILED),
        },
    }
}

/// The cause of a failure to bind that goes with what the operating system
/// said. An address that is not of this machine and one that cannot be read
/// are both invalid addresses.
pub open spec fn bind_error_cause(kind: BindErrorKind) -> BindError {
    match kind {
        BindErrorKind::AddrInUse => BindError::AddressInUse,
        BindErrorKind::AddrNotAvailable => BindError::InvalidAddress,
        BindErrorKind::InvalidInput => BindError::InvalidAddress,
        BindErrorKind::PermissionDenied => BindError::PermissionDenied,
        BindErrorKind::Other => BindError::Other,
    }
}

/// How a failed attempt to accept counts. An error that concerns the one
/// incoming connection or the one call leaves the listener in working
/// order; any other error means that the listener is broken.
pub open spec fn accept_error_outcome(kind: AcceptErrorKind) -> AcceptOutcome {
    match kind {
        AcceptErrorKind::Other => AcceptOutcome::ListenerFailed,
        _ => AcceptOutcome::Failed,
    }
}

/// The cause of a failure to bind, from what the operating system said.
pub fn classify_bind_error(kind: BindErrorKind) -> (error: BindError)
    ensures
        error == bind_error_cause(kind),
{
    match kind {
        BindErrorKind::AddrInUse => BindError::AddressInUse,
        BindErrorKind::AddrNotAvailable => BindError::InvalidAddress,
        BindErrorKind::InvalidInput => BindError::InvalidAddress,
        BindErrorKind::PermissionDenied => BindError::PermissionDenied,
        BindErrorKind::Other => BindError::Other,
    }
}

/// Tells the failures to accept that are passed over from those that end
/// the server.
pub fn classify_accept_error(kind: AcceptErrorKind) -> (outcome: AcceptOutcome)
    ensures
        outcome == accept_error_outcome(kind),
        outcome != AcceptOutcome::Connected,
{
    match kind {
        AcceptErrorKind::Other => AcceptOutcome::ListenerFailed,
        _ => AcceptOutcome::Failed,
    }
}

/// What to do once the attempt to bind the listening socket has ended. A
/// failure to bind, whatever its cause, is never tried again: the process
/// ends with `EXIT_BIND_FAILED` and accepts nothing.
pub fn after_bind(bound: Result<(), BindError>) -> (action: AcceptorAction)
    ensures
        bound is Ok ==> action == AcceptorAction::Accept,
        bound is Err ==> action == AcceptorAction::Exit(EXIT_BIND_FAILED),
{
    match bound {
        Ok(_) => AcceptorAction::Accept,
        Err(_) => AcceptorAction::Exit(EXIT_BIND_FAILED),
    }
}

/// Names the accepted connections and decides how accepting goes on.
pub struct Acceptor {
    next_id: u64,
}

impl Acceptor {
    /// The number that the next accepted connection gets.
    pub closed spec fn next_id(&self) -> u64 {
        self.next_id
    }

    /// An acceptor that has accepted nothing yet; its first connection gets
    /// the number 0.
    pub fn new() -> (acceptor: Acceptor)
        ensures
            acceptor.next_id() == 0,
    {
        Acceptor { next_id: 0 }
    }

    /// Takes in how the last attempt to accept ended and says what to do,
    /// by `accept_step`.
    pub fn on_accept(&mut self, outcome: AcceptOutcome) -> (action: AcceptorAction)
        ensures
            action == accept_step(old(self).next_id(), outcome).action,
            final(self).next_id() == accept_step(old(self).next_id(), outcome).next_id,
    {
        match outcome {
            AcceptOutcome::Connected => {
                let id = self.next_id;
                self.next_id = if id == u64::MAX {
                    0
                } else {
                    id + 1
                };
                AcceptorAction::HandOff(ConnectionId(id))
            },
            AcceptOutcome::Failed => AcceptorAction::Accept,
            AcceptOutcome::ListenerFailed => AcceptorAction::Exit(EXIT_LISTENER_FAILED),
        }
    }
}

/// Only a broken listener ends the acceptor: after a connection or a failed
/// attempt it goes on accepting, and a failed attempt uses up no name.
pub proof fn lemma_acceptor_goes_on(next_id: u64, outcome: AcceptOutcome)
    ensures
        accept_step(next_id, outcome).action is Exit <==> outcome == AcceptOutcome::ListenerFailed,
        outcome == AcceptOutcome::Failed ==> accept_step(next_id, outcome).next_id == next_id,
{
}

/// Two connections accepted one after the other get different names.
pub proof fn lemma_consecutive_names_differ(next_id: u64)
    ensures
        accept_step(next_id, AcceptOutcome::Connected).action == AcceptorAction::HandOff(
            ConnectionId(next_id),
        ),
        accept_step(
            accept_step(next_id, AcceptOutcome::Connected).next_id,
            AcceptOutcome::Connected,
        ).action != AcceptorAction::HandOff(ConnectionId(next_id)),
{
}

/// A server that could not bind ends with a failure code, never with the
/// code of an orderly shutdown.
pub proof fn lemma_failure_codes_are_nonzero()
    ensures
        EXIT_SHUTDOWN == 0,
        EXIT_BIND_FAILED != 0,
        EXIT_LISTENER_FAILED != 0,
{
}

} // verus!
