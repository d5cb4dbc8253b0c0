use host_metrics::scheduler::{scheduler_step, SchedulerAction, SchedulerEvent, SchedulerState};

#[test]
fn runs_captures_on_ticks_until_cancelled() {
    let (state, action) = scheduler_step(SchedulerState::Idle, SchedulerEvent::Start);
    assert_eq!(state, SchedulerState::Waiting);
    assert_eq!(action, SchedulerAction::AwaitTick);

    let (state, action) = scheduler_step(state, SchedulerEvent::Tick);
    assert_eq!(state, SchedulerState::Capturing { cancel_requested: false });
    assert_eq!(action, SchedulerAction::RunCapture);

    let (state, action) = scheduler_step(state, SchedulerEvent::CaptureDone);
    assert_eq!(state, SchedulerState::Waiting);
    assert_eq!(action, SchedulerAction::Deliver);

    let (state, action) = scheduler_step(state, SchedulerEvent::Cancel);
    assert_eq!(state, SchedulerState::Stopped);
    assert_eq!(action, SchedulerAction::Shutdown);
}

#[test]
fn cancellation_lets_an_inflight_capture_finish() {
    let capturing = SchedulerState::Capturing { cancel_requested: false };
    let (state, action) = scheduler_step(capturing, SchedulerEvent::Cancel);
    assert_eq!(state, SchedulerState::Capturing { cancel_requested: true });
    assert_eq!(action, SchedulerAction::Ignore);

    let (state, action) = scheduler_step(state, SchedulerEvent::CaptureDone);
    assert_eq!(state, SchedulerState::Stopped);
    assert_eq!(action, SchedulerAction::Deliver);
}

#[test]
fn stopped_is_terminal() {
    for event in [
        SchedulerEvent::Start,
        SchedulerEvent::Tick,
        SchedulerEvent::CaptureDone,
        SchedulerEvent::Cancel,
    ] {
        let (state, action) = scheduler_step(SchedulerState::Stopped, event);
        assert_eq!(state, SchedulerState::Stopped);
        assert_eq!(action, SchedulerAction::Ignore);
    }
}

#[test]
fn no_capture_starts_while_one_is_in_flight() {
    for cancel_requested in [false, true] {
        let capturing = SchedulerState::Capturing { cancel_requested };
        for event in [SchedulerEvent::Start, SchedulerEvent::Tick] {
            let (state, action) = scheduler_step(capturing, event);
            assert_eq!(state, capturing);
            assert_eq!(action, SchedulerAction::Ignore);
        }
    }
}

#[test]
fn stray_events_are_ignored() {
    let (state, action) = scheduler_step(SchedulerState::Idle, SchedulerEvent::Tick);
    assert_eq!(state, SchedulerState::Idle);
    assert_eq!(action, SchedulerAction::Ignore);

    let (state, action) = scheduler_step(SchedulerState::Waiting, SchedulerEvent::CaptureDone);
    assert_eq!(state, SchedulerState::Waiting);
    assert_eq!(action, SchedulerAction::Ignore);
}
