use vstd::prelude::*;
use crate::error::AdminErrorKind;
use crate::state::ServiceState;

verus! {

/// Where a wait for a target state stands.
#[derive(Clone, Copy, Debug, PartialEq, Eq, Structural)]
pub enum WaitStatus {
    Waiting,
    Reached,
    TimedOut,
}

/// What to do after one observation of the service's state.
#[derive(Clone, Copy, Debug, PartialEq, Eq, Structural)]
pub enum WaitStep {
    /// The target state was observed.
    Reached,
    /// Not there yet: sleep one time unit. Then tick and query again while
    /// the waiter is still waiting; once every allowed query has been made, the
    /// wait has timed out.
    Retry,
}

/// Fixed-interval polling for a target state: at most `timeout_ticks`
/// queries, one per tick.
#[derive(Clone, Copy, Debug, PartialEq, Eq, Structural)]
pub struct StatusWaiter {
    pub desired: ServiceState,
    pub timeout_ticks: u32,
    pub queries: u32,
    pub status: WaitStatus,
}

impl StatusWaiter {
    pub open spec fn well_formed(self) -> bool {
        &&& self.queries <= self.timeout_ticks
        &&& self.status == WaitStatus::Waiting ==> self.queries < self.timeout_ticks
        &&& self.status == WaitStatus::TimedOut ==> self.queries == self.timeout_ticks
        &&& self.status == WaitStatus::Reached ==> self.queries >= 1
    }

    pub open spec fn start_spec(desired: ServiceState, timeout_ticks: u32) -> StatusWaiter {
        StatusWaiter {
            desired,
            timeout_ticks,
            queries: 0,
            status: if timeout_ticks == 0 {
                WaitStatus::TimedOut
            } else {
                WaitStatus::Waiting
            },
        }
    }

    /// The waiter after one query has returned `current`.
    pub open spec fn observe_spec(self, current: ServiceState) -> StatusWaiter {
        let queries = (self.queries + 1) as u32;
        StatusWaiter {
            queries,
            status: if current == self.desired {
                WaitStatus::Reached
            } else if queries >= self.timeout_ticks {
                WaitStatus::TimedOut
            } else {
                WaitStatus::Waiting
            },
            ..self
        }
    }

    pub open spec fn outcome_spec(self) -> Result<(), AdminErrorKind> {
        if self.status == WaitStatus::Reached {
            Ok(())
        } else {
            Err(AdminErrorKind::Timeout)
        }
    }

    pub fn new(desired: ServiceState, timeout_ticks: u32) -> (r: StatusWaiter)
        ensures
            r == StatusWaiter::start_spec(desired, timeout_ticks),
            r.well_formed(),
    {
        let status = if timeout_ticks == 0 {
            WaitStatus::TimedOut
        } else {
            WaitStatus::Waiting
        };
        StatusWaiter { desired, timeout_ticks, queries: 0, status }
    }

    pub fn is_waiting(&self) -> (r: bool)
        ensures
            r == (self.status == WaitStatus::Waiting),
    {
        self.status == WaitStatus::Waiting
    }

    /// Takes the state returned by one query, made after one progress tick.
    pub fn observe(&mut self, current: ServiceState) -> (r: WaitStep)
        requires
            old(self).well_formed(),
            old(self).status == WaitStatus::Waiting,
        ensures
            *final(self) == old(self).observe_spec(current),
            final(self).well_formed(),
            r == (if current == old(self).desired {
                WaitStep::Reached
            } else {
                WaitStep::Retry
            }),
    {
        self.queries = self.queries + 1;
        if current == self.desired {
            self.status = WaitStatus::Reached;
            WaitStep::Reached
        } else {
            if self.queries >= self.timeout_ticks {
                self.status = WaitStatus::TimedOut;
            }
            WaitStep::Retry
        }
    }

    /// Success once the target state was seen, `Timeout` otherwise.
    pub fn outcome(&self) -> (r: Result<(), AdminErrorKind>)
        ensures
            r == self.outcome_spec(),
    {
        if self.status == WaitStatus::Reached {
            Ok(())
        } else {
            Err(AdminErrorKind::Timeout)
        }
    }
}

/// The waiter after the queries return `observed`, one per tick, until it
/// stops waiting or the observations run out.
pub open spec fn run_waiter(w: StatusWaiter, observed: Seq<ServiceState>) -> StatusWaiter
    decreases observed.len(),
{
    if w.status != WaitStatus::Waiting || observed.len() == 0 {
        w
    } else {
        run_waiter(w.observe_spec(observed[0]), observed.drop_first())
    }
}

proof fn lemma_reached_at(w: StatusWaiter, observed: Seq<ServiceState>, k: int)
    requires
        w.well_formed(),
        w.status == WaitStatus::Waiting,
        0 <= k < w.timeout_ticks - w.queries,
        k < observed.len(),
        observed[k] == w.desired,
        forall|j: int| 0 <= j < k ==> observed[j] != w.desired,
    ensures
        run_waiter(w, observed).status == WaitStatus::Reached,
        run_waiter(w, observed).queries == w.queries + k + 1,
    decreases k,
{
    let w1 = w.observe_spec(observed[0]);
    let rest = observed.drop_first();
    assert(run_waiter(w, observed) == run_waiter(w1, rest));
    if k == 0 {
        assert(run_waiter(w1, rest) == w1);
    } else {
        assert(observed[0] != w.desired);
        assert forall|j: int| 0 <= j < k - 1 implies rest[j] != w.desired by {
            assert(observed[j + 1] != w.desired);
        }
        lemma_reached_at(w1, rest, k - 1);
    }
}

proof fn lemma_never_reached(w: StatusWaiter, observed: Seq<ServiceState>)
    requires
        w.well_formed(),
        w.status == WaitStatus::Waiting,
        observed.len() >= w.timeout_ticks - w.queries,
        forall|j: int| 0 <= j < w.timeout_ticks - w.queries ==> observed[j] != w.desired,
    ensures
        run_waiter(w, observed).status == WaitStatus::TimedOut,
        run_waiter(w, observed).queries == w.timeout_ticks,
    decreases observed.len(),
{
    let w1 = w.observe_spec(observed[0]);
    let rest = observed.drop_first();
    assert(observed[0] != w.desired);
    assert(run_waiter(w, observed) == run_waiter(w1, rest));
    if w1.status != WaitStatus::Waiting {
        assert(run_waiter(w1, rest) == w1);
    } else {
        assert forall|j: int| 0 <= j < w1.timeout_ticks - w1.queries implies rest[j]
            != w1.desired by {
            assert(observed[j + 1] != w.desired);
        }
        lemma_never_reached(w1, rest);
    }
}

/// A wait with `timeout_ticks = T` whose queries return `observed` in turn:
/// if the target state is first returned by query number `i + 1 <= T`, it
/// succeeds after exactly `i + 1` queries; if none of the first `T` queries
/// returns it, it fails with `Timeout` after exactly `T` queries. Queries past
/// the first match, or past the `T`-th, are never made.
pub proof fn lemma_wait_query_count(
    desired: ServiceState,
    timeout_ticks: u32,
    observed: Seq<ServiceState>,
)
    ensures
        forall|i: int|
            0 <= i < timeout_ticks && i < observed.len() && #[trigger] observed[i] == desired
                && (forall|j: int| 0 <= j < i ==> observed[j] != desired) ==> ({
                let w = run_waiter(StatusWaiter::start_spec(desired, timeout_ticks), observed);
                w.queries == i + 1 && w.outcome_spec() == Ok::<(), AdminErrorKind>(())
            }),
        (observed.len() >= timeout_ticks && forall|j: int|
            0 <= j < timeout_ticks ==> observed[j] != desired) ==> ({
            let w = run_waiter(StatusWaiter::start_spec(desired, timeout_ticks), observed);
            w.queries == timeout_ticks && w.outcome_spec() == Err::<(), AdminErrorKind>(
                AdminErrorKind::Timeout,
            )
        }),
{
    let w0 = StatusWaiter::start_spec(desired, timeout_ticks);
    assert forall|i: int|
        0 <= i < timeout_ticks && i < observed.len() && #[trigger] observed[i] == desired && (
        forall|j: int| 0 <= j < i ==> observed[j] != desired) implies ({
        let w = run_waiter(w0, observed);
        w.queries == i + 1 && w.outcome_spec() == Ok::<(), AdminErrorKind>(())
    }) by {
        lemma_reached_at(w0, observed, i);
    }
    if timeout_ticks > 0 && observed.len() >= timeout_ticks && forall|j: int|
        0 <= j < timeout_ticks ==> observed[j] != desired {
        lemma_never_reached(w0, observed);
    }
}

} // verus!
