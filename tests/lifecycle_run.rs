use sample_rust_service_core::control::{CancellationSignal, ControlEvent};
use sample_rust_service_core::lifecycle::{LifecycleAction, LifecycleExit, ServiceLifecycle};
use sample_rust_service_core::state::{ServiceState, ServiceStatusRecord};
use sample_rust_service_core::worker::{
    poll_until_stopped, PollingWorker, WorkerApplicationOne, WorkerApplicationTwo,
    WorkerOutcome, WorkerStep, WorkerSupervisor, WORKER_POLL_SECS,
};

/// Runs workers in lock step: each round, every worker still running polls
/// the signal once. `stop_after` rounds in, a `Stop` event arrives. Returns
/// the number of rounds after the stop that the workers took to return.
fn run_workers(
    workers: &[Box<dyn PollingWorker>],
    signal: &mut CancellationSignal,
    stop_after: usize,
) -> usize {
    let mut running: Vec<bool> = vec![true; workers.len()];
    let mut round = 0usize;
    let mut rounds_after_stop = 0usize;
    while running.iter().any(|r| *r) {
        if round == stop_after {
            signal.handle_control_event(ControlEvent::Stop);
        }
        if signal.is_set() {
            rounds_after_stop += 1;
        }
        for (i, w) in workers.iter().enumerate() {
            if running[i] && w.poll(signal.is_set()) == WorkerStep::Return {
                running[i] = false;
            }
        }
        round += 1;
        assert!(round < 1000);
    }
    rounds_after_stop
}

#[test]
fn end_to_end_stop_mid_run() {
    let mut lifecycle = ServiceLifecycle::new();
    let mut signal = CancellationSignal::new();
    let mut reports: Vec<ServiceStatusRecord> = Vec::new();
    let mut action = lifecycle.first_action();
    let exit = loop {
        let succeeded = match action {
            LifecycleAction::Register => true,
            LifecycleAction::Report(rec) => {
                reports.push(rec);
                true
            }
            LifecycleAction::SuperviseWorkers => {
                let workers: Vec<Box<dyn PollingWorker>> =
                    vec![Box::new(WorkerApplicationOne {}), Box::new(WorkerApplicationTwo {})];
                let rounds = run_workers(&workers, &mut signal, 3);
                assert_eq!(rounds, 1, "workers did not return within one polling interval");
                let mut sup = WorkerSupervisor::new(workers.len());
                for _ in 0..workers.len() {
                    sup.record_join(WorkerOutcome::Returned);
                }
                assert!(sup.is_complete());
                true
            }
            LifecycleAction::Exit(exit) => break exit,
        };
        action = lifecycle.step(succeeded);
    };
    let phases: Vec<(ServiceState, u32)> = reports.iter().map(|r| (r.state, r.checkpoint)).collect();
    assert_eq!(
        phases,
        vec![
            (ServiceState::StartPending, 1),
            (ServiceState::Running, 0),
            (ServiceState::StopPending, 1),
            (ServiceState::Stopped, 0),
        ]
    );
    assert!(reports.iter().all(|r| r.exit_code == 0));
    assert!(reports[1].controls_accepted.stop && reports[1].controls_accepted.pause_continue);
    assert_eq!(exit, LifecycleExit::Completed { failed_reports: 0 });
    assert!(lifecycle.is_finished());
}

#[test]
fn failed_reports_do_not_stop_the_lifecycle() {
    let mut l = ServiceLifecycle::new();
    assert_eq!(l.first_action(), LifecycleAction::Register);
    let a = l.step(true);
    assert!(matches!(a, LifecycleAction::Report(r) if r.state == ServiceState::StartPending));
    let a = l.step(false);
    assert!(matches!(a, LifecycleAction::Report(r) if r.state == ServiceState::Running));
    assert_eq!(l.step(false), LifecycleAction::SuperviseWorkers);
    let a = l.step(false);
    assert!(matches!(a, LifecycleAction::Report(r) if r.state == ServiceState::StopPending));
    let a = l.step(true);
    assert!(matches!(a, LifecycleAction::Report(r) if r.state == ServiceState::Stopped));
    assert_eq!(l.step(false), LifecycleAction::Exit(LifecycleExit::Completed { failed_reports: 3 }));
}

#[test]
fn registration_failure_is_fatal() {
    let mut l = ServiceLifecycle::new();
    assert_eq!(l.step(false), LifecycleAction::Exit(LifecycleExit::RegistrationFailed));
    assert!(l.is_finished());
}

#[test]
fn join_completes_whatever_the_outcomes() {
    for n in 0..4usize {
        let mut sup = WorkerSupervisor::new(n);
        let outcomes = [WorkerOutcome::Panicked, WorkerOutcome::Returned, WorkerOutcome::Failed];
        for i in 0..n {
            assert!(!sup.is_complete());
            sup.record_join(outcomes[i % 3]);
        }
        assert!(sup.is_complete());
        let expected_failures = (0..n).filter(|i| i % 3 != 1).count();
        assert_eq!(sup.failures, expected_failures);
    }
}

#[test]
fn workers_return_once_signalled() {
    let one = WorkerApplicationOne {};
    let two = WorkerApplicationTwo {};
    assert_eq!(one.poll(false), WorkerStep::Continue);
    assert_eq!(one.poll(true), WorkerStep::Return);
    assert_eq!(two.poll(false), WorkerStep::Continue);
    assert_eq!(two.poll(true), WorkerStep::Return);
    assert_eq!(one.label(), "Worker 1");
    assert_eq!(two.label(), "Worker 2");
    assert_eq!(one.poll_interval_secs(), WORKER_POLL_SECS);
    assert_eq!(poll_until_stopped(true), WorkerStep::Return);
}
