use vstd::prelude::*;
use crate::reporter::{status_record_spec, StatusReporter};
use crate::state::{ServiceState, ServiceStatusRecord};

verus! {

/// The step of the in-process lifecycle whose result is awaited.
#[derive(Clone, Copy, Debug, PartialEq, Eq, Structural)]
pub enum LifecycleStage {
    Registering,
    ReportingStartPending,
    ReportingRunning,
    Supervising,
    ReportingStopPending,
    ReportingStopped,
    Finished,
}

/// How the lifecycle ended.
#[derive(Clone, Copy, Debug, PartialEq, Eq, Structural)]
pub enum LifecycleExit {
    /// Registration with the control manager failed: nothing else was done.
    RegistrationFailed,
    /// The service ran and stopped; `failed_reports` status pushes failed on
    /// the way, none of which interrupted the lifecycle.
    Completed { failed_reports: u32 },
}

/// What the lifecycle driver does next.
#[derive(Clone, Copy, Debug, PartialEq, Eq, Structural)]
pub enum LifecycleAction {
    /// Register the control callback with the control manager.
    Register,
    /// Push this status record.
    Report(ServiceStatusRecord),
    /// Spawn one worker per factory and join them all.
    SuperviseWorkers,
    Exit(LifecycleExit),
}

/// Number of status pushes made before the lifecycle waits at `stage`.
pub open spec fn reports_before(stage: LifecycleStage) -> nat {
    match stage {
        LifecycleStage::Registering => 0,
        LifecycleStage::ReportingStartPending => 0,
        LifecycleStage::ReportingRunning => 1,
        LifecycleStage::Supervising => 2,
        LifecycleStage::ReportingStopPending => 2,
        LifecycleStage::ReportingStopped => 3,
        LifecycleStage::Finished => 4,
    }
}

/// The in-process side: registration, the four status pushes around the
/// workers' run, then exit. A failed push is counted and the lifecycle goes
/// on towards `Stopped`.
#[derive(Clone, Copy, Debug, PartialEq, Eq, Structural)]
pub struct ServiceLifecycle {
    pub stage: LifecycleStage,
    pub reporter: StatusReporter,
    pub failed_reports: u32,
}

impl ServiceLifecycle {
    pub open spec fn well_formed(self) -> bool {
        self.failed_reports <= reports_before(self.stage)
    }

    /// The lifecycle and the action that follow once the action awaited at
    /// the current stage has ended, successfully or not.
    pub open spec fn step_spec(self, succeeded: bool) -> (ServiceLifecycle, LifecycleAction) {
        let failed = if succeeded {
            self.failed_reports
        } else {
            (self.failed_reports + 1) as u32
        };
        match self.stage {
            LifecycleStage::Registering => if succeeded {
                let r = self.reporter.after(ServiceState::StartPending);
                (
                    ServiceLifecycle {
                        stage: LifecycleStage::ReportingStartPending,
                        reporter: r,
                        ..self
                    },
                    LifecycleAction::Report(
                        status_record_spec(ServiceState::StartPending, r.checkpoint),
                    ),
                )
            } else {
                (
                    ServiceLifecycle { stage: LifecycleStage::Finished, ..self },
                    LifecycleAction::Exit(LifecycleExit::RegistrationFailed),
                )
            },
            LifecycleStage::ReportingStartPending => {
                let r = self.reporter.after(ServiceState::Running);
                (
                    ServiceLifecycle {
                        stage: LifecycleStage::ReportingRunning,
                        reporter: r,
                        failed_reports: failed,
                    },
                    LifecycleAction::Report(status_record_spec(ServiceState::Running, r.checkpoint)),
                )
            },
            LifecycleStage::ReportingRunning => (
                ServiceLifecycle {
                    stage: LifecycleStage::Supervising,
                    failed_reports: failed,
                    ..self
                },
                LifecycleAction::SuperviseWorkers,
            ),
            LifecycleStage::Supervising => {
                let r = self.reporter.after(ServiceState::StopPending);
                (
                    ServiceLifecycle {
                        stage: LifecycleStage::ReportingStopPending,
                        reporter: r,
                        ..self
                    },
                    LifecycleAction::Report(
                        status_record_spec(ServiceState::StopPending, r.checkpoint),
                    ),
                )
            },
            LifecycleStage::ReportingStopPending => {
                let r = self.reporter.after(ServiceState::Stopped);
                (
                    ServiceLifecycle {
                        stage: LifecycleStage::ReportingStopped,
                        reporter: r,
                        failed_reports: failed,
                    },
                    LifecycleAction::Report(status_record_spec(ServiceState::Stopped, r.checkpoint)),
                )
            },
            LifecycleStage::ReportingStopped | LifecycleStage::Finished => (
                ServiceLifecycle {
                    stage: LifecycleStage::Finished,
                    failed_reports: failed,
                    ..self
                },
                LifecycleAction::Exit(LifecycleExit::Completed { failed_reports: failed }),
            ),
        }
    }

    pub open spec fn new_spec() -> ServiceLifecycle {
        ServiceLifecycle {
            stage: LifecycleStage::Registering,
            reporter: StatusReporter::new_spec(),
            failed_reports: 0,
        }
    }

    pub fn new() -> (r: ServiceLifecycle)
        ensures
            r == ServiceLifecycle::new_spec(),
            r.well_formed(),
    {
        ServiceLifecycle {
            stage: LifecycleStage::Registering,
            reporter: StatusReporter::new(),
            failed_reports: 0,
        }
    }

    /// The first action: registration.
    pub fn first_action(&self) -> (r: LifecycleAction)
        ensures
            r == LifecycleAction::Register,
    {
        LifecycleAction::Register
    }

    pub fn is_finished(&self) -> (r: bool)
        ensures
            r == (self.stage == LifecycleStage::Finished),
    {
        self.stage == LifecycleStage::Finished
    }

    /// Takes whether the awaited action succeeded and returns the next one.
    /// The workers' run always counts as ended, whatever became of them.
    pub fn step(&mut self, succeeded: bool) -> (r: LifecycleAction)
        requires
            old(self).well_formed(),
            old(self).stage != LifecycleStage::Finished,
        ensures
            (*final(self), r) == old(self).step_spec(succeeded),
            final(self).well_formed(),
    {
        let failed: u32 = if succeeded {
            self.failed_reports
        } else {
            self.failed_reports + 1
        };
        match self.stage {
            LifecycleStage::Registering => {
                if succeeded {
                    let rec = self.reporter.next_status(ServiceState::StartPending);
                    self.stage = LifecycleStage::ReportingStartPending;
                    LifecycleAction::Report(rec)
                } else {
                    self.stage = LifecycleStage::Finished;
                    LifecycleAction::Exit(LifecycleExit::RegistrationFailed)
                }
            },
            LifecycleStage::ReportingStartPending => {
                let rec = self.reporter.next_status(ServiceState::Running);
                self.stage = LifecycleStage::ReportingRunning;
                self.failed_reports = failed;
                LifecycleAction::Report(rec)
            },
            LifecycleStage::ReportingRunning => {
                self.stage = LifecycleStage::Supervising;
                self.failed_reports = failed;
                LifecycleAction::SuperviseWorkers
            },
            LifecycleStage::Supervising => {
                let rec = self.reporter.next_status(ServiceState::StopPending);
                self.stage = LifecycleStage::ReportingStopPending;
                LifecycleAction::Report(rec)
            },
            LifecycleStage::ReportingStopPending => {
                let rec = self.reporter.next_status(ServiceState::Stopped);
                self.stage = LifecycleStage::ReportingStopped;
                self.failed_reports = failed;
                LifecycleAction::Report(rec)
            },
            _ => {
                self.stage = LifecycleStage::Finished;
                self.failed_reports = failed;
                LifecycleAction::Exit(LifecycleExit::Completed { failed_reports: failed })
            },
        }
    }
}

/// Once registered, a service pushes exactly four status records, in the order
/// `StartPending` (checkpoint 1), `Running` (checkpoint 0, accepting stop and
/// pause/continue), `StopPending` (checkpoint 1), `Stopped` (checkpoint 0), with
/// the workers' run between the second and the third, and then exits as
/// completed with success code: whichever pushes fail, and whatever becomes of
/// the workers.
pub proof fn lemma_registered_run(outcomes: Seq<bool>)
    requires
        outcomes.len() == 6,
        outcomes[0],
    ensures
        ({
            let (l1, a1) = ServiceLifecycle::new_spec().step_spec(outcomes[0]);
            let (l2, a2) = l1.step_spec(outcomes[1]);
            let (l3, a3) = l2.step_spec(outcomes[2]);
            let (l4, a4) = l3.step_spec(outcomes[3]);
            let (l5, a5) = l4.step_spec(outcomes[4]);
            let (l6, a6) = l5.step_spec(outcomes[5]);
            &&& a1 == LifecycleAction::Report(status_record_spec(ServiceState::StartPending, 1))
            &&& a2 == LifecycleAction::Report(status_record_spec(ServiceState::Running, 0))
            &&& a3 == LifecycleAction::SuperviseWorkers
            &&& a4 == LifecycleAction::Report(status_record_spec(ServiceState::StopPending, 1))
            &&& a5 == LifecycleAction::Report(status_record_spec(ServiceState::Stopped, 0))
            &&& a6 is Exit && a6->Exit_0 is Completed
            &&& l6.stage == LifecycleStage::Finished
            &&& (outcomes[1] && outcomes[2] && outcomes[4] && outcomes[5]) ==> a6
                == LifecycleAction::Exit(LifecycleExit::Completed { failed_reports: 0 })
        }),
{
}

} // verus!
