//! The scheduler as a state machine: a fixed-interval driver fires capture
//! cycles, never overlapping them, until a cancellation signal is observed.
//! A capture already in progress is allowed to run to completion and its
//! output is still delivered.
//!
//! The machine decides; the loop around it performs the actions (awaiting
//! the timer, running a capture, delivering a batch) and hands back the
//! resulting events.

use vstd::prelude::*;

verus! {

/// Where the scheduler stands.
#[derive(Clone, Copy, Debug, PartialEq, Eq, Structural)]
pub enum SchedulerState {
    /// Not started yet.
    Idle,
    /// Waiting for the next tick or for cancellation.
    Waiting,
    /// A capture cycle is in flight; cancellation may already have been
    /// observed, in which case the cycle still runs to completion.
    Capturing { cancel_requested: bool },
    /// Cancellation observed and no capture in flight: terminal.
    Stopped,
}

/// What the loop observed.
#[derive(Clone, Copy, Debug, PartialEq, Eq, Structural)]
pub enum SchedulerEvent {
    /// The loop is set up and ready to wait.
    Start,
    /// The interval timer fired.
    Tick,
    /// The in-flight capture finished and its batch is ready.
    CaptureDone,
    /// The cancellation signal was observed.
    Cancel,
}

/// What the loop must do next.
#[derive(Clone, Copy, Debug, PartialEq, Eq, Structural)]
pub enum SchedulerAction {
    /// Wait for the next tick or for cancellation.
    AwaitTick,
    /// Run one capture cycle.
    RunCapture,
    /// Hand the finished capture's batch to the output boundary.
    Deliver,
    /// Stop the loop.
    Shutdown,
    /// Nothing to do.
    Ignore,
}

/// The whole transition table: next state and required action for every
/// state and event.
pub open spec fn spec_scheduler_step(state: SchedulerState, event: SchedulerEvent) -> (
    SchedulerState,
    SchedulerAction,
) {
    match (state, event) {
        (SchedulerState::Idle, SchedulerEvent::Start) => (
            SchedulerState::Waiting,
            SchedulerAction::AwaitTick,
        ),
        (SchedulerState::Idle, SchedulerEvent::Cancel) => (
            SchedulerState::Stopped,
            SchedulerAction::Shutdown,
        ),
        (SchedulerState::Idle, _) => (SchedulerState::Idle, SchedulerAction::Ignore),
        (SchedulerState::Waiting, SchedulerEvent::Tick) => (
            SchedulerState::Capturing { cancel_requested: false },
            SchedulerAction::RunCapture,
        ),
        (SchedulerState::Waiting, SchedulerEvent::Cancel) => (
            SchedulerState::Stopped,
            SchedulerAction::Shutdown,
        ),
        (SchedulerState::Waiting, _) => (SchedulerState::Waiting, SchedulerAction::Ignore),
        (SchedulerState::Capturing { cancel_requested }, SchedulerEvent::Cancel) => (
            SchedulerState::Capturing { cancel_requested: true },
            SchedulerAction::Ignore,
        ),
        (SchedulerState::Capturing { cancel_requested }, SchedulerEvent::CaptureDone) => if cancel_requested {
            (SchedulerState::Stopped, SchedulerAction::Deliver)
        } else {
            (SchedulerState::Waiting, SchedulerAction::Deliver)
        },
        (SchedulerState::Capturing { cancel_requested }, _) => (
            SchedulerState::Capturing { cancel_requested },
            SchedulerAction::Ignore,
        ),
        (SchedulerState::Stopped, _) => (SchedulerState::Stopped, SchedulerAction::Ignore),
    }
}

/// One step of the scheduler: exactly the transition table.
pub fn scheduler_step(state: SchedulerState, event: SchedulerEvent) -> (r: (
    SchedulerState,
    SchedulerAction,
))
    ensures
        r == spec_scheduler_step(state, event),
{
    match (state, event) {
        (SchedulerState::Idle, SchedulerEvent::Start) => (
            SchedulerState::Waiting,
            SchedulerAction::AwaitTick,
        ),
        (SchedulerState::Idle, SchedulerEvent::Cancel) => (
            SchedulerState::Stopped,
            SchedulerAction::Shutdown,
        ),
        (SchedulerState::Idle, _) => (SchedulerState::Idle, SchedulerAction::Ignore),
        (SchedulerState::Waiting, SchedulerEvent::Tick) => (
            SchedulerState::Capturing { cancel_requested: false },
            SchedulerAction::RunCapture,
        ),
        (SchedulerState::Waiting, SchedulerEvent::Cancel) => (
            SchedulerState::Stopped,
            SchedulerAction::Shutdown,
        ),
        (SchedulerState::Waiting, _) => (SchedulerState::Waiting, SchedulerAction::Ignore),
        (SchedulerState::Capturing { cancel_requested: _ }, SchedulerEvent::Cancel) => (
            SchedulerState::Capturing { cancel_requested: true },
            SchedulerAction::Ignore,
        ),
        (SchedulerState::Capturing { cancel_requested }, SchedulerEvent::CaptureDone) => if cancel_requested {
            (SchedulerState::Stopped, SchedulerAction::Deliver)
        } else {
            (SchedulerState::Waiting, SchedulerAction::Deliver)
        },
        (SchedulerState::Capturing { cancel_requested }, _) => (
            SchedulerState::Capturing { cancel_requested },
            SchedulerAction::Ignore,
        ),
        (SchedulerState::Stopped, _) => (SchedulerState::Stopped, SchedulerAction::Ignore),
    }
}

/// The terminal state is terminal: once stopped, no event moves the
/// scheduler anywhere else, and nothing more is done.
pub proof fn lemma_stopped_is_terminal(event: SchedulerEvent)
    ensures
        spec_scheduler_step(SchedulerState::Stopped, event) == (
            SchedulerState::Stopped,
            SchedulerAction::Ignore,
        ),
{
}

/// Cancellation never aborts a capture in flight: the machine stays
/// capturing, and when the capture completes its batch is still delivered,
/// after which the machine stops.
pub proof fn lemma_cancel_lets_capture_finish(cancel_requested: bool)
    ensures
        spec_scheduler_step(
            SchedulerState::Capturing { cancel_requested },
            SchedulerEvent::Cancel,
        ) == (SchedulerState::Capturing { cancel_requested: true }, SchedulerAction::Ignore),
        spec_scheduler_step(
            SchedulerState::Capturing { cancel_requested: true },
            SchedulerEvent::CaptureDone,
        ) == (SchedulerState::Stopped, SchedulerAction::Deliver),
{
}

/// Capture cycles never overlap: while one is in flight, no event starts
/// another; a new capture starts only on a tick while waiting.
pub proof fn lemma_captures_never_overlap(state: SchedulerState, event: SchedulerEvent)
    ensures
        spec_scheduler_step(state, event).1 == SchedulerAction::RunCapture <==> (state
            == SchedulerState::Waiting && event == SchedulerEvent::Tick),
{
}

} // verus!
