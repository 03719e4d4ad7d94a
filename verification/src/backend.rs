//! The decisions of the backend's event loop: what to do with each thing that
//! the loop waits for.

use vstd::prelude::*;

verus! {

/// What woke the backend's event loop.
#[derive(Debug, Clone, Copy, PartialEq, Eq, Structural)]
pub enum BackendEvent {
    /// A `Suspend` command arrived.
    SuspendCommand,
    /// The model the backend watches changed.
    ModelChanged,
    /// The terminal produced an event (or an error reading one).
    TerminalEvent,
    /// The terminal's event stream ended.
    TerminalClosed,
    /// The process received `SIGTSTP`.
    StopSignal,
    /// The process received `SIGCONT`.
    ContinueSignal,
    /// Every source the loop waits on is closed.
    AllClosed,
}

/// What the loop does next.
#[derive(Debug, Clone, Copy, PartialEq, Eq, Structural)]
pub enum BackendAction {
    /// Stop the process group, then answer the command once it runs again.
    SuspendProcess,
    /// Nothing to do.
    Ignore,
    /// Hand the terminal event to the application.
    ForwardEvent,
    /// Tell the application that the process is being suspended.
    SendSuspend,
    /// Tell the application that the process has resumed.
    SendResume,
    /// Leave the loop.
    Stop,
}

pub open spec fn backend_action(event: BackendEvent) -> BackendAction {
    match event {
        BackendEvent::SuspendCommand => BackendAction::SuspendProcess,
        BackendEvent::ModelChanged => BackendAction::Ignore,
        BackendEvent::TerminalEvent => BackendAction::ForwardEvent,
        BackendEvent::TerminalClosed => BackendAction::Stop,
        BackendEvent::StopSignal => BackendAction::SendSuspend,
        BackendEvent::ContinueSignal => BackendAction::SendResume,
        BackendEvent::AllClosed => BackendAction::Stop,
    }
}

/// What the backend's loop does when `event` wakes it.
pub fn next_action(event: BackendEvent) -> (r: BackendAction)
    ensures
        r == backend_action(event),
{
    match event {
        BackendEvent::SuspendCommand => BackendAction::SuspendProcess,
        BackendEvent::ModelChanged => BackendAction::Ignore,
        BackendEvent::TerminalEvent => BackendAction::ForwardEvent,
        BackendEvent::TerminalClosed => BackendAction::Stop,
        BackendEvent::StopSignal => BackendAction::SendSuspend,
        BackendEvent::ContinueSignal => BackendAction::SendResume,
        BackendEvent::AllClosed => BackendAction::Stop,
    }
}

/// How the backend answers each event: a `Suspend` command suspends the
/// process; `SIGTSTP` and `SIGCONT` are passed on as suspend and resume;
/// terminal events are forwarded; a closed terminal stream or the closing of
/// every source ends the loop; a change of the model is ignored.
pub proof fn lemma_backend_answers()
    ensures
        backend_action(BackendEvent::SuspendCommand) == BackendAction::SuspendProcess,
        backend_action(BackendEvent::ModelChanged) == BackendAction::Ignore,
        backend_action(BackendEvent::TerminalEvent) == BackendAction::ForwardEvent,
        backend_action(BackendEvent::TerminalClosed) == BackendAction::Stop,
        backend_action(BackendEvent::StopSignal) == BackendAction::SendSuspend,
        backend_action(BackendEvent::ContinueSignal) == BackendAction::SendResume,
        backend_action(BackendEvent::AllClosed) == BackendAction::Stop,
{
}

} // verus!
