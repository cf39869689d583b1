use vstd::prelude::*;
use vstd::string::StringExecFns;

verus! {

/// What a worker does after one look at the cancellation signal.
#[derive(Clone, Copy, Debug, PartialEq, Eq, Structural)]
pub enum WorkerStep {
    /// Do one round of work, wait one polling interval, look again.
    Continue,
    /// Return from the run.
    Return,
}

/// The polling side of a worker that runs on its own thread until
/// cancellation is requested: its run loop asks `poll` at every look at the
/// signal, and returns at the first look that sees it raised.
pub trait PollingWorker {
    /// The name the worker logs under.
    fn label(&self) -> String;

    /// Seconds between two polls of the signal.
    fn poll_interval_secs(&self) -> (r: u64)
        ensures
            r > 0;

    /// The decision taken at one poll.
    fn poll(&self, stop_requested: bool) -> (r: WorkerStep)
        ensures
            stop_requested ==> r == WorkerStep::Return;
}

/// The polling decision shared by the bundled workers: keep working until the
/// signal is raised.
pub fn poll_until_stopped(stop_requested: bool) -> (r: WorkerStep)
    ensures
        r == (if stop_requested {
            WorkerStep::Return
        } else {
            WorkerStep::Continue
        }),
{
    if stop_requested {
        WorkerStep::Return
    } else {
        WorkerStep::Continue
    }
}

/// Seconds between two polls of the bundled workers.
pub const WORKER_POLL_SECS: u64 = 2;

pub struct WorkerApplicationOne {}

impl PollingWorker for WorkerApplicationOne {
    fn label(&self) -> String {
        String::from_str("Worker 1")
    }

    fn poll_interval_secs(&self) -> (r: u64) {
        WORKER_POLL_SECS
    }

    fn poll(&self, stop_requested: bool) -> (r: WorkerStep) {
        poll_until_stopped(stop_requested)
    }
}

pub struct WorkerApplicationTwo {}

impl PollingWorker for WorkerApplicationTwo {
    fn label(&self) -> String {
        String::from_str("Worker 2")
    }

    fn poll_interval_secs(&self) -> (r: u64) {
        WORKER_POLL_SECS
    }

    fn poll(&self, stop_requested: bool) -> (r: WorkerStep) {
        poll_until_stopped(stop_requested)
    }
}

/// How one worker's thread ended, as seen when it is joined.
#[derive(Clone, Copy, Debug, PartialEq, Eq, Structural)]
pub enum WorkerOutcome {
    /// `run` returned normally.
    Returned,
    /// `run` returned an error, which was handed to the worker's own error
    /// handler.
    Failed,
    /// The thread ended abnormally.
    Panicked,
}

pub open spec fn is_failure(outcome: WorkerOutcome) -> bool {
    outcome != WorkerOutcome::Returned
}

/// Number of failures among `outcomes`.
pub open spec fn failures_in(outcomes: Seq<WorkerOutcome>) -> nat
    decreases outcomes.len(),
{
    if outcomes.len() == 0 {
        0
    } else {
        failures_in(outcomes.drop_last()) + if is_failure(outcomes.last()) {
            1nat
        } else {
            0nat
        }
    }
}

/// Joins the workers in spawn order, with no timeout, and counts those that
/// failed. A failure never stops the joining of the others.
#[derive(Clone, Copy, Debug, PartialEq, Eq, Structural)]
pub struct WorkerSupervisor {
    pub workers: usize,
    pub joined: usize,
    pub failures: usize,
}

impl WorkerSupervisor {
    pub open spec fn well_formed(self) -> bool {
        self.failures <= self.joined <= self.workers
    }

    pub open spec fn new_spec(workers: usize) -> WorkerSupervisor {
        WorkerSupervisor { workers, joined: 0, failures: 0 }
    }

    pub open spec fn join_spec(self, outcome: WorkerOutcome) -> WorkerSupervisor {
        WorkerSupervisor {
            joined: (self.joined + 1) as usize,
            failures: if is_failure(outcome) {
                (self.failures + 1) as usize
            } else {
                self.failures
            },
            ..self
        }
    }

    pub open spec fn complete(self) -> bool {
        self.joined == self.workers
    }

    pub fn new(workers: usize) -> (r: WorkerSupervisor)
        ensures
            r == WorkerSupervisor::new_spec(workers),
            r.well_formed(),
    {
        WorkerSupervisor { workers, joined: 0, failures: 0 }
    }

    /// Records the end of the next worker in spawn order.
    pub fn record_join(&mut self, outcome: WorkerOutcome)
        requires
            old(self).well_formed(),
            !old(self).complete(),
        ensures
            *final(self) == old(self).join_spec(outcome),
            final(self).well_formed(),
    {
        self.joined = self.joined + 1;
        if outcome != WorkerOutcome::Returned {
            self.failures = self.failures + 1;
        }
    }

    pub fn is_complete(&self) -> (r: bool)
        ensures
            r == self.complete(),
    {
        self.joined == self.workers
    }
}

/// The supervisor after joining workers that ended as `outcomes`, in order.
pub open spec fn join_all(s: WorkerSupervisor, outcomes: Seq<WorkerOutcome>) -> WorkerSupervisor
    decreases outcomes.len(),
{
    if outcomes.len() == 0 {
        s
    } else {
        join_all(s, outcomes.drop_last()).join_spec(outcomes.last())
    }
}

/// For any number `workers` of workers, zero included, once every one of them
/// has ended (returned, failed or panicked), the supervisor's join is complete,
/// whatever each outcome was, and it has counted exactly the failures.
pub proof fn lemma_join_completes(workers: usize, outcomes: Seq<WorkerOutcome>)
    requires
        outcomes.len() == workers,
    ensures
        ({
            let s = join_all(WorkerSupervisor::new_spec(workers), outcomes);
            &&& s.complete()
            &&& s.well_formed()
            &&& s.failures == failures_in(outcomes)
        }),
{
    lemma_join_prefix(workers, outcomes);
}

proof fn lemma_join_prefix(workers: usize, outcomes: Seq<WorkerOutcome>)
    requires
        outcomes.len() <= workers,
    ensures
        ({
            let s = join_all(WorkerSupervisor::new_spec(workers), outcomes);
            &&& s.workers == workers
            &&& s.joined == outcomes.len()
            &&& s.failures == failures_in(outcomes)
            &&& s.well_formed()
        }),
    decreases outcomes.len(),
{
    if outcomes.len() > 0 {
        lemma_join_prefix(workers, outcomes.drop_last());
    }
}

} // verus!
