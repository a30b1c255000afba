//! The serve loop's decisions.
//!
//! The loop that drives a listener is plain I/O: it awaits the next accepted
//! connection or the shutdown signal, whichever comes first. What it does
//! with each event is decided here: a connection is spawned onto its own
//! task, the end of the listener stream ends the loop successfully, a fatal
//! accept error ends it with that error, and shutdown — which wins a tie
//! against a pending accept — ends it successfully without waiting for
//! outstanding tasks; those drain under the drain coordinator's rules.

use vstd::prelude::*;
use crate::addr::AcceptAddrs;

verus! {

/// One event observed by the serve loop.
#[derive(Clone, Copy, Debug, PartialEq, Eq, Structural)]
pub enum ServeEvent {
    /// The listener accepted a connection with these addresses.
    Conn(AcceptAddrs),
    /// The listener stream yielded a fatal accept error.
    AcceptFailed,
    /// The listener stream ended.
    Ended,
    /// The shutdown signal fired.
    Shutdown,
}

/// What the serve loop does next.
#[derive(Clone, Copy, Debug, PartialEq, Eq, Structural)]
pub enum ServeAction {
    /// Spawn an independent task handling this connection, then poll again.
    Spawn(AcceptAddrs),
    /// Leave the loop successfully.
    ExitOk,
    /// Leave the loop with the accept error.
    ExitErr,
}

/// How the whole process ended.
#[derive(Clone, Copy, Debug, PartialEq, Eq, Structural)]
pub enum ProcessEnd {
    /// Shutdown was signalled and the drain completed.
    GracefulDrain,
    /// A listener could not bind at startup.
    BindFailure,
    /// The identity credentials could not be loaded at startup.
    IdentityLoadFailure,
}

/// The process exit code for each ending: zero for a graceful drain, a
/// distinct non-zero code for each startup failure.
pub fn exit_code(end: &ProcessEnd) -> (c: u8)
    ensures
        *end is GracefulDrain ==> c == 0,
        *end is BindFailure ==> c == 2,
        *end is IdentityLoadFailure ==> c == 3,
{
    match end {
        ProcessEnd::GracefulDrain => 0,
        ProcessEnd::BindFailure => 2,
        ProcessEnd::IdentityLoadFailure => 3,
    }
}

/// Decides the loop's next action for one event.
pub fn serve_step(event: &ServeEvent) -> (a: ServeAction)
    ensures
        event matches ServeEvent::Conn(addrs) ==> a == ServeAction::Spawn(*addrs),
        event is Ended ==> a == ServeAction::ExitOk,
        event is Shutdown ==> a == ServeAction::ExitOk,
        event is AcceptFailed ==> a == ServeAction::ExitErr,
{
    match event {
        ServeEvent::Conn(addrs) => ServeAction::Spawn(*addrs),
        ServeEvent::AcceptFailed => ServeAction::ExitErr,
        ServeEvent::Ended => ServeAction::ExitOk,
        ServeEvent::Shutdown => ServeAction::ExitOk,
    }
}

} // verus!
