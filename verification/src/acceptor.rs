//! What the acceptor does after each attempt to accept a client.

use vstd::prelude::*;

verus! {

/// How long the acceptor waits after a failed accept, in milliseconds.
pub const ACCEPT_BACKOFF_MS: u64 = 10;

/// How an attempt to accept a client ended.
#[derive(Clone, Copy, Debug, PartialEq, Eq, Structural)]
pub enum AcceptOutcome {
    /// A client connected.
    Connected,
    /// The poll returned without a client.
    Nothing,
    /// The poll failed.
    Failed,
}

/// What the acceptor does next.
#[derive(Clone, Copy, Debug, PartialEq, Eq, Structural)]
pub enum AcceptAction {
    /// Register the client for dispatch, then poll again.
    Register,
    /// Poll again at once.
    PollAgain,
    /// Wait for `millis` milliseconds, then poll again.
    BackOff { millis: u64 },
}

/// The acceptor's next step: a client is registered, an empty poll is
/// repeated, and a failure is followed by a short wait, never by an end.
pub open spec fn accept_action(outcome: AcceptOutcome) -> AcceptAction {
    match outcome {
        AcceptOutcome::Connected => AcceptAction::Register,
        AcceptOutcome::Nothing => AcceptAction::PollAgain,
        AcceptOutcome::Failed => AcceptAction::BackOff { millis: ACCEPT_BACKOFF_MS },
    }
}

/// Decides the acceptor's next step.
pub fn after_accept(outcome: AcceptOutcome) -> (action: AcceptAction)
    ensures
        action == accept_action(outcome),
{
    match outcome {
        AcceptOutcome::Connected => AcceptAction::Register,
        AcceptOutcome::Nothing => AcceptAction::PollAgain,
        AcceptOutcome::Failed => AcceptAction::BackOff { millis: ACCEPT_BACKOFF_MS },
    }
}

} // verus!
