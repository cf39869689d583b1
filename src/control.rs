use vstd::prelude::*;

verus! {

/// A control request delivered asynchronously by the service-control manager.
#[derive(Clone, Copy, Debug, PartialEq, Eq, Structural)]
pub enum ControlEvent {
    Interrogate,
    Stop,
    Pause,
    Continue,
    /// Any other control code, by its raw value.
    Other(u32),
}

/// What the control callback answers to the service-control manager.
#[derive(Clone, Copy, Debug, PartialEq, Eq, Structural)]
pub enum ControlHandlerResult {
    NoError,
    NotImplemented,
}

/// The answer owed to each control event: interrogate and stop are
/// acknowledged, everything else is reported as not implemented.
pub open spec fn control_answer(event: ControlEvent) -> ControlHandlerResult {
    match event {
        ControlEvent::Interrogate | ControlEvent::Stop => ControlHandlerResult::NoError,
        _ => ControlHandlerResult::NotImplemented,
    }
}

/// Whether a control event asks the workers to stop.
pub open spec fn requests_cancellation(event: ControlEvent) -> bool {
    event == ControlEvent::Stop
}

/// The cooperative cancellation flag that workers poll. Once raised it is
/// never lowered.
#[derive(Clone, Copy, Debug, PartialEq, Eq, Structural)]
pub struct CancellationSignal {
    pub raised: bool,
}

impl CancellationSignal {
    pub fn new() -> (r: CancellationSignal)
        ensures
            !r.raised,
    {
        CancellationSignal { raised: false }
    }

    pub fn is_set(&self) -> (r: bool)
        ensures
            r == self.raised,
    {
        self.raised
    }

    pub fn set(&mut self)
        ensures
            final(self).raised,
    {
        self.raised = true;
    }

    /// The control callback: answers the event, and raises the signal on
    /// `Stop` only. Repeated stops leave it raised.
    pub fn handle_control_event(&mut self, event: ControlEvent) -> (r: ControlHandlerResult)
        ensures
            r == control_answer(event),
            final(self).raised == (old(self).raised || requests_cancellation(event)),
    {
        match event {
            ControlEvent::Interrogate => ControlHandlerResult::NoError,
            ControlEvent::Stop => {
                self.set();
                ControlHandlerResult::NoError
            },
            _ => ControlHandlerResult::NotImplemented,
        }
    }
}

/// What the control callback must do for one event, for a callback that holds
/// a shared flag of its own: the answer, and whether to raise the flag.
pub fn translate_control_event(event: ControlEvent) -> (r: (ControlHandlerResult, bool))
    ensures
        r.0 == control_answer(event),
        r.1 == requests_cancellation(event),
{
    match event {
        ControlEvent::Interrogate => (ControlHandlerResult::NoError, false),
        ControlEvent::Stop => (ControlHandlerResult::NoError, true),
        _ => (ControlHandlerResult::NotImplemented, false),
    }
}

/// The state of the signal after a run of control events, starting from
/// `raised`.
pub open spec fn signal_after(raised: bool, events: Seq<ControlEvent>) -> bool
    decreases events.len(),
{
    if events.len() == 0 {
        raised
    } else {
        signal_after(raised || requests_cancellation(events[0]), events.drop_first())
    }
}

/// Only `Stop` raises the signal: a run of events leaves a lowered signal
/// lowered exactly when none of them is `Stop`, and a raised signal is never
/// lowered by any run.
pub proof fn lemma_only_stop_raises(raised: bool, events: Seq<ControlEvent>)
    ensures
        signal_after(raised, events) == (raised || exists|i: int|
            0 <= i < events.len() && #[trigger] events[i] == ControlEvent::Stop),
    decreases events.len(),
{
    if events.len() > 0 {
        let rest = events.drop_first();
        lemma_only_stop_raises(raised || requests_cancellation(events[0]), rest);
        if exists|i: int| 0 <= i < rest.len() && #[trigger] rest[i] == ControlEvent::Stop {
            let i = choose|i: int| 0 <= i < rest.len() && #[trigger] rest[i] == ControlEvent::Stop;
            assert(events[i + 1] == ControlEvent::Stop);
        }
        if exists|i: int| 0 <= i < events.len() && #[trigger] events[i] == ControlEvent::Stop {
            let i = choose|i: int| 0 <= i < events.len() && #[trigger] events[i] == ControlEvent::Stop;
            if i > 0 {
                assert(rest[i - 1] == ControlEvent::Stop);
            }
        }
    }
}

} // verus!
