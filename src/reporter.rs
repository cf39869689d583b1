use vstd::prelude::*;
use crate::state::{
    controls_for, controls_for_spec, ServiceState, ServiceStatusRecord, SUCCESS_EXIT_CODE,
};

verus! {

/// The checkpoint a phase starts from: 1 for a transition under way, 0 for a
/// steady phase.
pub open spec fn baseline_checkpoint(state: ServiceState) -> u32 {
    if state.is_pending() {
        1
    } else {
        0
    }
}

/// The checkpoint of the next record for `state`, after a record for `last`
/// with checkpoint `checkpoint`: one more while the same transition goes on
/// (it stays at the largest value once there), the baseline for a new phase.
pub open spec fn next_checkpoint(
    last: Option<ServiceState>,
    checkpoint: u32,
    state: ServiceState,
) -> u32 {
    if last == Some(state) && state.is_pending() {
        if checkpoint < u32::MAX {
            (checkpoint + 1) as u32
        } else {
            checkpoint
        }
    } else {
        baseline_checkpoint(state)
    }
}

/// The record pushed for `state` with checkpoint `checkpoint`.
pub open spec fn status_record_spec(state: ServiceState, checkpoint: u32) -> ServiceStatusRecord {
    ServiceStatusRecord {
        state,
        controls_accepted: controls_for_spec(state),
        exit_code: SUCCESS_EXIT_CODE,
        checkpoint,
        wait_hint_ms: 0,
        process_id: None,
    }
}

/// Turns lifecycle phases into status records, keeping the checkpoint of the
/// phase that was reported last.
#[derive(Clone, Copy, Debug, PartialEq, Eq, Structural)]
pub struct StatusReporter {
    pub last: Option<ServiceState>,
    pub checkpoint: u32,
}

impl StatusReporter {
    pub open spec fn new_spec() -> StatusReporter {
        StatusReporter { last: None, checkpoint: 0 }
    }

    pub fn new() -> (r: StatusReporter)
        ensures
            r == StatusReporter::new_spec(),
    {
        StatusReporter { last: None, checkpoint: 0 }
    }

    /// The record to push for `state`, and the reporter after pushing it.
    pub open spec fn after(self, state: ServiceState) -> StatusReporter {
        StatusReporter {
            last: Some(state),
            checkpoint: next_checkpoint(self.last, self.checkpoint, state),
        }
    }

    pub fn next_status(&mut self, state: ServiceState) -> (r: ServiceStatusRecord)
        ensures
            *final(self) == old(self).after(state),
            r == status_record_spec(state, final(self).checkpoint),
            r.well_formed(),
    {
        let same_transition = match self.last {
            Some(prev) => prev == state && state.pending(),
            None => false,
        };
        let checkpoint: u32 = if same_transition {
            if self.checkpoint < u32::MAX {
                self.checkpoint + 1
            } else {
                self.checkpoint
            }
        } else if state.pending() {
            1
        } else {
            0
        };
        self.last = Some(state);
        self.checkpoint = checkpoint;
        ServiceStatusRecord {
            state,
            controls_accepted: controls_for(state),
            exit_code: SUCCESS_EXIT_CODE,
            checkpoint,
            wait_hint_ms: 0,
            process_id: None,
        }
    }
}

/// Checkpoints strictly increase while one transition is reported again and
/// again, and fall back to the phase's baseline whenever the phase changes.
pub proof fn lemma_checkpoint_progress(r: StatusReporter, state: ServiceState)
    ensures
        (r.last == Some(state) && state.is_pending() && r.checkpoint < u32::MAX) ==> r.after(
            state,
        ).checkpoint > r.checkpoint,
        r.last != Some(state) ==> r.after(state).checkpoint == baseline_checkpoint(state),
{
}

/// The normal run `StartPending`, `Running`, `StopPending`, `Stopped`, from a
/// fresh reporter, reports checkpoints 1, 0, 1, 0, and every record is well
/// formed.
pub proof fn lemma_normal_run_checkpoints()
    ensures
        ({
            let r0 = StatusReporter { last: None, checkpoint: 0 };
            let r1 = r0.after(ServiceState::StartPending);
            let r2 = r1.after(ServiceState::Running);
            let r3 = r2.after(ServiceState::StopPending);
            let r4 = r3.after(ServiceState::Stopped);
            &&& r1.checkpoint == 1
            &&& r2.checkpoint == 0
            &&& r3.checkpoint == 1
            &&& r4.checkpoint == 0
        }),
{
}

} // verus!
