use tano::backend::{next_action, BackendAction, BackendEvent};

#[test]
fn backend_decisions() {
    assert_eq!(next_action(BackendEvent::SuspendCommand), BackendAction::SuspendProcess);
    assert_eq!(next_action(BackendEvent::ModelChanged), BackendAction::Ignore);
    assert_eq!(next_action(BackendEvent::TerminalEvent), BackendAction::ForwardEvent);
    assert_eq!(next_action(BackendEvent::TerminalClosed), BackendAction::Stop);
    assert_eq!(next_action(BackendEvent::StopSignal), BackendAction::SendSuspend);
    assert_eq!(next_action(BackendEvent::ContinueSignal), BackendAction::SendResume);
    assert_eq!(next_action(BackendEvent::AllClosed), BackendAction::Stop);
}
