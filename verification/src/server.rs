use crate::limiter::{Admission, ConnectionLimiter};
use tokio::sync::OwnedSemaphorePermit;
use vstd::prelude::*;

verus! {

/// What the accept loop of the proxy can be woken by.
#[derive(Debug, Clone, Copy, PartialEq, Eq, Structural)]
pub enum ServerEvent {
    /// Accepting a new connection failed.
    AcceptFailed,
    /// A new client connection was accepted.
    ConnectionAccepted,
    /// A connection task ended normally.
    TaskCompleted,
    /// A connection task panicked or was cancelled.
    TaskFailed,
    /// Asked for an ended connection task, there was none.
    NoTaskEnded,
    /// The shutdown signal arrived (`listened` is `true`), or listening for it
    /// failed (`listened` is `false`).
    ShutdownSignal { listened: bool },
}

/// What the accept loop does in answer to an event.
pub enum ServerAction {
    /// Report the failed accept and go on accepting.
    ReportAcceptError,
    /// Serve the new connection in a task of its own, which holds the permit
    /// until the connection ends.
    Serve(OwnedSemaphorePermit),
    /// Drop the new connection: the limit of concurrent connections is reached.
    RejectAtLimit,
    /// Nothing to do: go on accepting.
    KeepAccepting,
    /// Report the failed connection task and go on accepting.
    ReportTaskFailure,
    /// Stop accepting connections and wait for the open ones to end;
    /// `signal_failed` tells whether listening for the signal failed.
    StopAccepting { signal_failed: bool },
}

/// The answer of the accept loop to a new connection, given the limiter's answer.
pub fn action_for_admission(admission: Admission) -> (a: ServerAction)
    ensures
        match admission {
            Admission::Admitted(permit) => a == ServerAction::Serve(permit),
            Admission::Rejected => a is RejectAtLimit,
        },
{
    match admission {
        Admission::Admitted(permit) => ServerAction::Serve(permit),
        Admission::Rejected => ServerAction::RejectAtLimit,
    }
}

/// The answer of the accept loop to `event`. A new connection is served only
/// with a permit of `limiter`; only the shutdown signal, or a failure to listen
/// for it, stops accepting.
pub fn on_event(limiter: &ConnectionLimiter, event: ServerEvent) -> (a: ServerAction)
    ensures
        match event {
            ServerEvent::AcceptFailed => a is ReportAcceptError,
            ServerEvent::ConnectionAccepted => a is Serve || a is RejectAtLimit,
            ServerEvent::TaskCompleted => a is KeepAccepting,
            ServerEvent::TaskFailed => a is ReportTaskFailure,
            ServerEvent::NoTaskEnded => a is KeepAccepting,
            ServerEvent::ShutdownSignal { listened } => a == ServerAction::StopAccepting {
                signal_failed: !listened,
            },
        },
        a matches ServerAction::Serve(p) ==> crate::limiter::permit_semaphore(p) == limiter.spec_semaphore(),
        (a is StopAccepting) <==> (event is ShutdownSignal),
        (a is Serve || a is RejectAtLimit) <==> (event is ConnectionAccepted),
{
    match event {
        ServerEvent::AcceptFailed => ServerAction::ReportAcceptError,
        ServerEvent::ConnectionAccepted => action_for_admission(limiter.try_admit()),
        ServerEvent::TaskCompleted => ServerAction::KeepAccepting,
        ServerEvent::TaskFailed => ServerAction::ReportTaskFailure,
        ServerEvent::NoTaskEnded => ServerAction::KeepAccepting,
        ServerEvent::ShutdownSignal { listened } => ServerAction::StopAccepting {
            signal_failed: !listened,
        },
    }
}

} // verus!
