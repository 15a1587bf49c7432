//! The main correlation loop as a state machine.
//!
//! Each tick waits on the event channel with a bounded timeout and
//! decides what the loop around it must do: deliver an event (after
//! invalidating the status cache when git integration is on, since any
//! filesystem change invalidates status), emit a periodic heartbeat in
//! the summary display mode, or shut down.  Shutdown is reached on a
//! cancellation signal or when the producer side closes, and is
//! terminal: no further event is processed.

use vstd::prelude::*;
use crate::events::WatchEvent;

verus! {

/// Where the loop stands: waiting, handing an event to the output
/// collaborator, or stopped for good.
#[derive(Clone, Copy, Debug, PartialEq, Eq, Structural)]
pub enum LoopState {
    Idle,
    Draining,
    Shutdown,
}

/// What one bounded wait on the event channel produced.
pub enum RecvOutcome {
    Received(WatchEvent),
    TimedOut,
    Disconnected,
}

/// What the loop must do after a tick.
pub enum TickAction {
    /// Hand the event to the output collaborator; when `invalidate` is
    /// set, invalidate the status cache first and resolve the event
    /// path's status.
    Deliver { event: WatchEvent, invalidate: bool },
    /// Re-read the cached status without invalidating, for the periodic
    /// summary heartbeat.
    Heartbeat,
    /// Nothing this tick.
    Sleep,
    /// Stop the loop; no further events are processed.
    Halt,
}

/// One tick of the correlation loop.  A cancelled or disconnected loop
/// shuts down; an event moves the loop into the draining state and is
/// delivered, with the cache invalidated exactly when git integration is
/// enabled and the event carries a path; a timeout heartbeats only in
/// the summary mode.  Shutdown is terminal.
pub fn tick(
    state: LoopState,
    cancelled: bool,
    outcome: RecvOutcome,
    git_enabled: bool,
    summary_mode: bool,
) -> (r: (LoopState, TickAction))
    ensures
        state is Shutdown ==> r.0 is Shutdown && r.1 is Halt,
        (!(state is Shutdown) && cancelled) ==> r.0 is Shutdown && r.1 is Halt,
        (!(state is Shutdown) && !cancelled) ==> match outcome {
            RecvOutcome::Received(_) => r.0 is Draining,
            RecvOutcome::TimedOut => r.0 is Idle && (r.1 is Heartbeat <==> summary_mode) && (
            summary_mode ==> r.1 is Heartbeat) && (!summary_mode ==> r.1 is Sleep),
            RecvOutcome::Disconnected => r.0 is Shutdown && r.1 is Halt,
        },
        outcome matches RecvOutcome::Received(ev) ==> ((!(state is Shutdown) && !cancelled) ==> (
        r.1 matches TickAction::Deliver { event, invalidate } && event == ev && invalidate == (
        git_enabled && ev@.spec_path() is Some))),
{
    if matches!(state, LoopState::Shutdown) {
        return (LoopState::Shutdown, TickAction::Halt);
    }
    if cancelled {
        return (LoopState::Shutdown, TickAction::Halt);
    }
    match outcome {
        RecvOutcome::Received(event) => {
            let has_path = event.path().is_some();
            let invalidate = git_enabled && has_path;
            (LoopState::Draining, TickAction::Deliver { event, invalidate })
        },
        RecvOutcome::TimedOut => {
            if summary_mode {
                (LoopState::Idle, TickAction::Heartbeat)
            } else {
                (LoopState::Idle, TickAction::Sleep)
            }
        },
        RecvOutcome::Disconnected => (LoopState::Shutdown, TickAction::Halt),
    }
}

/// The transition back to waiting once a delivered event has been handed
/// to the output collaborator.
pub fn delivered(state: LoopState) -> (r: LoopState)
    ensures
        state is Draining ==> r is Idle,
        !(state is Draining) ==> r == state,
{
    match state {
        LoopState::Draining => LoopState::Idle,
        _ => state,
    }
}

} // verus!
