use vstd::prelude::*;
use crate::error::AdminErrorKind;
use crate::state::ServiceState;

verus! {

/// Number of one-second ticks an administrative wait allows before it gives up.
pub const DEFAULT_TIMEOUT: u32 = 20;

/// One operation the administrative client performs against an installed
/// service.
#[derive(Clone, Copy, Debug, PartialEq, Eq, Structural)]
pub enum AdminStep {
    Start,
    Stop,
    /// Poll until the service reports this state, or time out.
    WaitFor(ServiceState),
    Delete,
}

/// What must happen before a service found in `state` can be deleted safely,
/// or `None` where no safe sequence is defined.
pub open spec fn uninstall_preparation(state: ServiceState) -> Option<Seq<AdminStep>> {
    match state {
        ServiceState::Stopped => Some(seq![]),
        ServiceState::StartPending | ServiceState::ContinuePending => Some(
            seq![
                AdminStep::WaitFor(ServiceState::Running),
                AdminStep::Stop,
                AdminStep::WaitFor(ServiceState::Stopped),
            ],
        ),
        ServiceState::StopPending => Some(seq![AdminStep::WaitFor(ServiceState::Stopped)]),
        ServiceState::Running => Some(
            seq![AdminStep::Stop, AdminStep::WaitFor(ServiceState::Stopped)],
        ),
        ServiceState::PausePending => Some(seq![AdminStep::WaitFor(ServiceState::Paused)]),
        ServiceState::Paused => None,
    }
}

/// The transition policy applied before a delete: the steps that bring a
/// service found in `state` to a phase where deleting it does not race a
/// transition. A paused service has no such sequence and is refused.
pub fn uninstall_plan(state: ServiceState) -> (r: Result<Vec<AdminStep>, AdminErrorKind>)
    ensures
        match uninstall_preparation(state) {
            Some(p) => r is Ok && r->Ok_0@ == p,
            None => r == Err::<Vec<AdminStep>, AdminErrorKind>(AdminErrorKind::UnsupportedState),
        },
{
    match state {
        ServiceState::Stopped => Ok(Vec::new()),
        ServiceState::StartPending | ServiceState::ContinuePending => Ok(
            vec![
                AdminStep::WaitFor(ServiceState::Running),
                AdminStep::Stop,
                AdminStep::WaitFor(ServiceState::Stopped),
            ],
        ),
        ServiceState::StopPending => Ok(vec![AdminStep::WaitFor(ServiceState::Stopped)]),
        ServiceState::Running => Ok(vec![AdminStep::Stop, AdminStep::WaitFor(ServiceState::Stopped)]),
        ServiceState::PausePending => Ok(vec![AdminStep::WaitFor(ServiceState::Paused)]),
        ServiceState::Paused => Err(AdminErrorKind::UnsupportedState),
    }
}

/// What the client does next in a session.
#[derive(Clone, Copy, Debug)]
pub enum AdminAction {
    Perform(AdminStep),
    Finish(Result<(), AdminErrorKind>),
}

/// A sequence of administrative steps run in order, stopping at the first
/// failure, whose error is the session's result.
pub struct AdminSession {
    pub steps: Vec<AdminStep>,
    pub completed: usize,
    pub outcome: Option<Result<(), AdminErrorKind>>,
}

/// The model of a session: its steps, how many have succeeded, and its result
/// once it has one.
pub struct SessionView {
    pub steps: Seq<AdminStep>,
    pub completed: nat,
    pub outcome: Option<Result<(), AdminErrorKind>>,
}

impl SessionView {
    pub open spec fn well_formed(self) -> bool {
        &&& self.completed <= self.steps.len()
        &&& self.outcome.is_none() ==> self.completed < self.steps.len()
        &&& self.outcome == Some(Ok::<(), AdminErrorKind>(())) ==> self.completed
            == self.steps.len()
        &&& (self.outcome is Some && self.outcome->Some_0 is Err) ==> self.completed
            < self.steps.len()
    }

    /// The session once the step under way has returned `result`.
    pub open spec fn record_spec(self, result: Result<(), AdminErrorKind>) -> SessionView {
        match result {
            Err(e) => SessionView { outcome: Some(Err(e)), ..self },
            Ok(()) => SessionView {
                completed: self.completed + 1,
                outcome: if self.completed + 1 == self.steps.len() {
                    Some(Ok(()))
                } else {
                    None
                },
                ..self
            },
        }
    }

    /// How many steps were handed out: the successful ones, and the failed
    /// one if any.
    pub open spec fn attempted(self) -> nat {
        match self.outcome {
            Some(Err(_)) => self.completed + 1,
            _ => self.completed,
        }
    }
}

/// A fresh session over `steps`.
pub open spec fn session_start(steps: Seq<AdminStep>) -> SessionView {
    SessionView {
        steps,
        completed: 0,
        outcome: if steps.len() == 0 {
            Some(Ok(()))
        } else {
            None
        },
    }
}

impl View for AdminSession {
    type V = SessionView;

    open spec fn view(&self) -> SessionView {
        SessionView { steps: self.steps@, completed: self.completed as nat, outcome: self.outcome }
    }
}

impl AdminSession {
    pub fn new(steps: Vec<AdminStep>) -> (r: AdminSession)
        ensures
            r@ == session_start(steps@),
            r@.well_formed(),
    {
        let outcome = if steps.len() == 0 {
            Some(Ok(()))
        } else {
            None
        };
        AdminSession { steps, completed: 0, outcome }
    }

    /// Start the service, then wait for it to run.
    pub fn start_and_wait() -> (r: AdminSession)
        ensures
            r@ == session_start(seq![AdminStep::Start, AdminStep::WaitFor(ServiceState::Running)]),
            r@.well_formed(),
    {
        AdminSession::new(vec![AdminStep::Start, AdminStep::WaitFor(ServiceState::Running)])
    }

    /// Stop the service, then wait for it to stop.
    pub fn stop_and_wait() -> (r: AdminSession)
        ensures
            r@ == session_start(seq![AdminStep::Stop, AdminStep::WaitFor(ServiceState::Stopped)]),
            r@.well_formed(),
    {
        AdminSession::new(vec![AdminStep::Stop, AdminStep::WaitFor(ServiceState::Stopped)])
    }

    /// Removal of a service found in `discovered`: the policy's steps, then
    /// the delete. Refused where the policy defines no steps.
    pub fn uninstall(discovered: ServiceState) -> (r: Result<AdminSession, AdminErrorKind>)
        ensures
            match uninstall_preparation(discovered) {
                Some(p) => r is Ok && r->Ok_0@ == session_start(p.push(AdminStep::Delete))
                    && r->Ok_0@.well_formed(),
                None => r is Err && r->Err_0 == AdminErrorKind::UnsupportedState,
            },
    {
        match uninstall_plan(discovered) {
            Ok(plan) => {
                let mut steps = plan;
                steps.push(AdminStep::Delete);
                Ok(AdminSession::new(steps))
            },
            Err(e) => Err(e),
        }
    }

    /// The step to perform now, or the result once the session is over.
    pub fn next_action(&self) -> (r: AdminAction)
        requires
            self@.well_formed(),
        ensures
            match self.outcome {
                Some(o) => r == AdminAction::Finish(o),
                None => r == AdminAction::Perform(self@.steps[self.completed as int]),
            },
    {
        match self.outcome {
            Some(o) => AdminAction::Finish(o),
            None => AdminAction::Perform(self.steps[self.completed]),
        }
    }

    pub fn is_finished(&self) -> (r: bool)
        ensures
            r == self.outcome.is_some(),
    {
        self.outcome.is_some()
    }

    /// Takes the result of the step that `next_action` handed out.
    pub fn record(&mut self, result: Result<(), AdminErrorKind>)
        requires
            old(self)@.well_formed(),
            old(self).outcome.is_none(),
        ensures
            final(self)@ == old(self)@.record_spec(result),
            final(self)@.well_formed(),
    {
        match result {
            Err(e) => {
                self.outcome = Some(Err(e));
            },
            Ok(()) => {
                let n = self.steps.len();
                self.completed = self.completed + 1;
                if self.completed == n {
                    self.outcome = Some(Ok(()));
                }
            },
        }
    }
}

/// The session after its steps return `results` in turn, until it is over or
/// the results run out.
pub open spec fn run_session(s: SessionView, results: Seq<Result<(), AdminErrorKind>>) -> SessionView
    decreases results.len(),
{
    if s.outcome is Some || results.len() == 0 {
        s
    } else {
        run_session(s.record_spec(results[0]), results.drop_first())
    }
}

proof fn lemma_session_fails_at(
    s: SessionView,
    results: Seq<Result<(), AdminErrorKind>>,
    k: int,
)
    requires
        s.well_formed(),
        s.outcome.is_none(),
        0 <= k < s.steps.len() - s.completed,
        k < results.len(),
        results[k] is Err,
        forall|j: int| 0 <= j < k ==> results[j] is Ok,
    ensures
        run_session(s, results).outcome == Some(results[k]),
        run_session(s, results).completed == s.completed + k,
        run_session(s, results).steps == s.steps,
    decreases k,
{
    let s1 = s.record_spec(results[0]);
    let rest = results.drop_first();
    assert(run_session(s, results) == run_session(s1, rest));
    if k == 0 {
        assert(run_session(s1, rest) == s1);
    } else {
        assert(results[0] is Ok);
        assert forall|j: int| 0 <= j < k - 1 implies rest[j] is Ok by {
            assert(results[j + 1] is Ok);
        }
        lemma_session_fails_at(s1, rest, k - 1);
    }
}

proof fn lemma_session_succeeds(s: SessionView, results: Seq<Result<(), AdminErrorKind>>)
    requires
        s.well_formed(),
        s.outcome.is_none(),
        results.len() >= s.steps.len() - s.completed,
        forall|j: int| 0 <= j < s.steps.len() - s.completed ==> results[j] is Ok,
    ensures
        run_session(s, results).outcome == Some(Ok::<(), AdminErrorKind>(())),
        run_session(s, results).completed == s.steps.len(),
    decreases results.len(),
{
    let s1 = s.record_spec(results[0]);
    let rest = results.drop_first();
    assert(results[0] is Ok);
    assert(run_session(s, results) == run_session(s1, rest));
    if s1.outcome is Some {
        assert(run_session(s1, rest) == s1);
    } else {
        assert forall|j: int| 0 <= j < s1.steps.len() - s1.completed implies rest[j] is Ok by {
            assert(results[j + 1] is Ok);
        }
        lemma_session_succeeds(s1, rest);
    }
}

/// Steps run in order and the first failure ends the session: when step
/// `k` is the first to fail, exactly `k + 1` steps were attempted and its
/// error is the result; when none fails, every step was attempted and the
/// session succeeds.
pub proof fn lemma_session_stops_at_first_failure(
    steps: Seq<AdminStep>,
    results: Seq<Result<(), AdminErrorKind>>,
)
    requires
        results.len() >= steps.len(),
    ensures
        forall|k: int|
            0 <= k < steps.len() && #[trigger] results[k] is Err && (forall|j: int|
                0 <= j < k ==> results[j] is Ok) ==> ({
                let f = run_session(session_start(steps), results);
                f.outcome == Some(results[k]) && f.attempted() == k + 1
            }),
        (forall|j: int| 0 <= j < steps.len() ==> results[j] is Ok) ==> ({
            let f = run_session(session_start(steps), results);
            f.outcome == Some(Ok::<(), AdminErrorKind>(())) && f.attempted() == steps.len()
        }),
{
    let s0 = session_start(steps);
    assert forall|k: int|
        0 <= k < steps.len() && #[trigger] results[k] is Err && (forall|j: int|
            0 <= j < k ==> results[j] is Ok) implies ({
        let f = run_session(s0, results);
        f.outcome == Some(results[k]) && f.attempted() == k + 1
    }) by {
        lemma_session_fails_at(s0, results, k);
    }
    if steps.len() > 0 && forall|j: int| 0 <= j < steps.len() ==> results[j] is Ok {
        lemma_session_succeeds(s0, results);
    }
}

/// Removing a service found in `StartPending`: the wait for `Running` comes
/// first, so when it times out the session ends with `Timeout` after that one
/// step and the delete is never attempted.
pub proof fn lemma_uninstall_start_pending_timeout(results: Seq<Result<(), AdminErrorKind>>)
    requires
        results.len() >= 1,
        results[0] == Err::<(), AdminErrorKind>(AdminErrorKind::Timeout),
    ensures
        ({
            let steps = uninstall_preparation(ServiceState::StartPending)->Some_0.push(
                AdminStep::Delete,
            );
            let f = run_session(session_start(steps), results);
            &&& steps[0] == AdminStep::WaitFor(ServiceState::Running)
            &&& steps[3] == AdminStep::Delete
            &&& f.outcome == Some(Err::<(), AdminErrorKind>(AdminErrorKind::Timeout))
            &&& f.attempted() == 1
        }),
{
    let steps = uninstall_preparation(ServiceState::StartPending)->Some_0.push(AdminStep::Delete);
    let s0 = session_start(steps);
    let s1 = s0.record_spec(results[0]);
    assert(run_session(s0, results) == run_session(s1, results.drop_first()));
    assert(run_session(s1, results.drop_first()) == s1);
}

} // verus!
