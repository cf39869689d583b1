use sample_rust_service_core::control::{
    translate_control_event, CancellationSignal, ControlEvent, ControlHandlerResult,
};
use sample_rust_service_core::error::{InstallerError, ServiceError};
use sample_rust_service_core::reporter::StatusReporter;
use sample_rust_service_core::state::{controls_for, ServiceState, SUCCESS_EXIT_CODE};

#[test]
fn service_error_new_keeps_message() {
    let e = ServiceError::new("boom");
    assert_eq!(e.message, "boom");
}

#[test]
fn service_error_with_wraps_detail() {
    let e = ServiceError::with("Os { code: 5 }", "Fail to register windows service. ");
    assert_eq!(e.message, "Fail to register windows service.  -> Os { code: 5 }");
}

#[test]
fn installer_error_new_and_with() {
    assert_eq!(InstallerError::new("Invalid service name.").message, "Invalid service name.");
    let e = InstallerError::with("Timeout", "Stop service failed. ");
    assert_eq!(e.message, "Stop service failed.  -> Timeout");
}

#[test]
fn only_stop_raises_the_signal() {
    let others = [
        ControlEvent::Interrogate,
        ControlEvent::Pause,
        ControlEvent::Continue,
        ControlEvent::Other(0x80),
    ];
    for event in others {
        let mut signal = CancellationSignal::new();
        signal.handle_control_event(event);
        assert!(!signal.is_set(), "{:?} raised the signal", event);
    }
    let mut signal = CancellationSignal::new();
    assert_eq!(signal.handle_control_event(ControlEvent::Stop), ControlHandlerResult::NoError);
    assert!(signal.is_set());
}

#[test]
fn control_answers() {
    let mut signal = CancellationSignal::new();
    assert_eq!(signal.handle_control_event(ControlEvent::Interrogate), ControlHandlerResult::NoError);
    assert_eq!(signal.handle_control_event(ControlEvent::Pause), ControlHandlerResult::NotImplemented);
    assert_eq!(signal.handle_control_event(ControlEvent::Continue), ControlHandlerResult::NotImplemented);
    assert_eq!(signal.handle_control_event(ControlEvent::Other(7)), ControlHandlerResult::NotImplemented);
    assert!(!signal.is_set());
}

#[test]
fn repeated_stop_is_harmless() {
    let mut signal = CancellationSignal::new();
    assert_eq!(signal.handle_control_event(ControlEvent::Stop), ControlHandlerResult::NoError);
    assert_eq!(signal.handle_control_event(ControlEvent::Stop), ControlHandlerResult::NoError);
    assert_eq!(signal.handle_control_event(ControlEvent::Interrogate), ControlHandlerResult::NoError);
    assert!(signal.is_set());
}

#[test]
fn translate_matches_handler() {
    assert_eq!(translate_control_event(ControlEvent::Stop), (ControlHandlerResult::NoError, true));
    assert_eq!(
        translate_control_event(ControlEvent::Interrogate),
        (ControlHandlerResult::NoError, false)
    );
    assert_eq!(
        translate_control_event(ControlEvent::Pause),
        (ControlHandlerResult::NotImplemented, false)
    );
    assert_eq!(
        translate_control_event(ControlEvent::Other(200)),
        (ControlHandlerResult::NotImplemented, false)
    );
}

#[test]
fn normal_run_checkpoints() {
    let mut r = StatusReporter::new();
    let seq = [
        (ServiceState::StartPending, 1u32),
        (ServiceState::Running, 0),
        (ServiceState::StopPending, 1),
        (ServiceState::Stopped, 0),
    ];
    for (state, checkpoint) in seq {
        let rec = r.next_status(state);
        assert_eq!(rec.state, state);
        assert_eq!(rec.checkpoint, checkpoint);
        assert_eq!(rec.exit_code, SUCCESS_EXIT_CODE);
        assert_eq!(rec.process_id, None);
    }
}

#[test]
fn checkpoints_increase_within_a_transition_and_reset() {
    let mut r = StatusReporter::new();
    assert_eq!(r.next_status(ServiceState::StartPending).checkpoint, 1);
    assert_eq!(r.next_status(ServiceState::StartPending).checkpoint, 2);
    assert_eq!(r.next_status(ServiceState::StartPending).checkpoint, 3);
    assert_eq!(r.next_status(ServiceState::Running).checkpoint, 0);
    assert_eq!(r.next_status(ServiceState::Running).checkpoint, 0);
    assert_eq!(r.next_status(ServiceState::StopPending).checkpoint, 1);
    assert_eq!(r.next_status(ServiceState::StopPending).checkpoint, 2);
    assert_eq!(r.next_status(ServiceState::Stopped).checkpoint, 0);
}

#[test]
fn checkpoint_saturates_at_largest_value() {
    let mut r = StatusReporter { last: Some(ServiceState::StopPending), checkpoint: u32::MAX };
    assert_eq!(r.next_status(ServiceState::StopPending).checkpoint, u32::MAX);
}

#[test]
fn controls_only_while_running_or_paused() {
    let mut r = StatusReporter::new();
    let running = r.next_status(ServiceState::Running);
    assert!(running.controls_accepted.stop && running.controls_accepted.pause_continue);
    for s in [
        ServiceState::StartPending,
        ServiceState::StopPending,
        ServiceState::Stopped,
        ServiceState::PausePending,
        ServiceState::ContinuePending,
    ] {
        let c = controls_for(s);
        assert!(!c.stop && !c.pause_continue, "{:?} accepts controls", s);
    }
    let paused = controls_for(ServiceState::Paused);
    assert!(paused.stop && paused.pause_continue);
}

#[test]
fn pending_states() {
    assert!(ServiceState::StartPending.pending());
    assert!(ServiceState::ContinuePending.pending());
    assert!(!ServiceState::Running.pending());
    assert!(!ServiceState::Stopped.pending());
}
