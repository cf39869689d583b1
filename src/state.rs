use vstd::prelude::*;

verus! {

/// The phase a service instance is in. Exactly one holds at any instant.
#[derive(Clone, Copy, Debug, PartialEq, Eq, Structural)]
pub enum ServiceState {
    StartPending,
    Running,
    StopPending,
    Stopped,
    PausePending,
    Paused,
    ContinuePending,
}

impl ServiceState {
    /// A transition is under way: the service is between two steady phases.
    pub open spec fn is_pending(self) -> bool {
        match self {
            ServiceState::StartPending
            | ServiceState::StopPending
            | ServiceState::PausePending
            | ServiceState::ContinuePending => true,
            _ => false,
        }
    }

    /// Phases in which the service takes control requests.
    pub open spec fn takes_controls(self) -> bool {
        self == ServiceState::Running || self == ServiceState::Paused
    }

    pub fn pending(&self) -> (r: bool)
        ensures
            r == self.is_pending(),
    {
        match self {
            ServiceState::StartPending
            | ServiceState::StopPending
            | ServiceState::PausePending
            | ServiceState::ContinuePending => true,
            _ => false,
        }
    }
}

/// The control requests a service declares that it accepts.
#[derive(Clone, Copy, Debug, PartialEq, Eq, Structural)]
pub struct ControlsAccepted {
    pub stop: bool,
    pub pause_continue: bool,
}

impl ControlsAccepted {
    pub open spec fn is_empty(self) -> bool {
        !self.stop && !self.pause_continue
    }

    pub fn none() -> (r: ControlsAccepted)
        ensures
            r.is_empty(),
    {
        ControlsAccepted { stop: false, pause_continue: false }
    }

    pub fn stop_and_pause_continue() -> (r: ControlsAccepted)
        ensures
            r.stop && r.pause_continue,
    {
        ControlsAccepted { stop: true, pause_continue: true }
    }
}

/// The controls a service accepts in a given phase: none while a transition
/// is under way or once stopped, stop and pause/continue while running or
/// paused.
pub open spec fn controls_for_spec(state: ServiceState) -> ControlsAccepted {
    ControlsAccepted { stop: state.takes_controls(), pause_continue: state.takes_controls() }
}

pub fn controls_for(state: ServiceState) -> (r: ControlsAccepted)
    ensures
        r == controls_for_spec(state),
{
    let takes = match state {
        ServiceState::Running | ServiceState::Paused => true,
        _ => false,
    };
    ControlsAccepted { stop: takes, pause_continue: takes }
}

/// Exit code reported by a service that ends normally.
pub const SUCCESS_EXIT_CODE: u32 = 0;

/// One status record pushed to the service-control manager.
#[derive(Clone, Copy, Debug, PartialEq, Eq, Structural)]
pub struct ServiceStatusRecord {
    pub state: ServiceState,
    pub controls_accepted: ControlsAccepted,
    pub exit_code: u32,
    pub checkpoint: u32,
    pub wait_hint_ms: u64,
    pub process_id: Option<u32>,
}

impl ServiceStatusRecord {
    /// No controls during a transition, and controls only while running or
    /// paused.
    pub open spec fn well_formed(self) -> bool {
        &&& self.state.is_pending() ==> self.controls_accepted.is_empty()
        &&& !self.controls_accepted.is_empty() ==> self.state.takes_controls()
    }
}

} // verus!
