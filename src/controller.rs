//! Single-flight control of jobs: at most one job runs at a time, a
//! cancellation request is kept only while a job runs, and every way of
//! ending a job leaves the controller ready for the next one.

use vstd::prelude::*;
use crate::job::{JobError, JobResult};

verus! {

/// Where the controller stands. Only `Running` admits a cancellation request.
#[derive(Debug, Clone, Copy, PartialEq, Eq, Structural)]
pub enum JobState {
    Idle,
    Running { cancel_requested: bool },
    Completed,
    Failed,
    Cancelled,
    TimedOut,
}

impl JobState {
    pub open spec fn running(self) -> bool {
        self is Running
    }
}

/// The state after an attempt to start a job, and whether the attempt succeeded.
pub open spec fn start_step(s: JobState) -> (JobState, bool) {
    if s.running() {
        (s, false)
    } else {
        (JobState::Running { cancel_requested: false }, true)
    }
}

/// The state after a cancellation request.
pub open spec fn cancel_step(s: JobState) -> JobState {
    if s.running() {
        JobState::Running { cancel_requested: true }
    } else {
        s
    }
}

/// The state in which a job that ended with `outcome` leaves the controller.
pub open spec fn end_state(outcome: Result<JobResult, JobError>) -> JobState {
    match outcome {
        Ok(_) => JobState::Completed,
        Err(JobError::Cancelled) => JobState::Cancelled,
        Err(JobError::TimedOut) => JobState::TimedOut,
        Err(_) => JobState::Failed,
    }
}

/// The outcomes of `n` attempts to start a job in a row from `s`, with no job ending in between.
pub open spec fn start_attempts(s: JobState, n: nat) -> Seq<bool>
    decreases n,
{
    if n == 0 {
        Seq::empty()
    } else {
        seq![start_step(s).1] + start_attempts(start_step(s).0, (n - 1) as nat)
    }
}

/// Of any run of start attempts while no job ends, only the first can succeed,
/// and it does exactly when no job was running before it.
pub proof fn lemma_single_flight(s: JobState, n: nat)
    ensures
        start_attempts(s, n).len() == n,
        forall|i: int| 0 <= i < n ==> #[trigger] start_attempts(s, n)[i] == (i == 0 && !s.running()),
    decreases n,
{
    if n > 0 {
        let t = start_step(s).0;
        lemma_single_flight(t, (n - 1) as nat);
        assert(t.running());
        assert forall|i: int| 0 <= i < n implies #[trigger] start_attempts(s, n)[i] == (i == 0
            && !s.running()) by {
            if i > 0 {
                assert(start_attempts(s, n)[i] == start_attempts(t, (n - 1) as nat)[i - 1]);
            }
        }
    }
}

/// Whatever a started job ends with, the controller no longer reports a job
/// as running; a refused start leaves the running job untouched.
pub proof fn lemma_start_then_end(s: JobState, outcome: Result<JobResult, JobError>)
    ensures
        start_step(s).1 ==> !end_state(outcome).running(),
        !start_step(s).1 ==> start_step(s).0 == s && s.running(),
{
}

/// Owner of the job state of one process.
pub struct JobController {
    state: JobState,
}

impl JobController {
    pub closed spec fn view_state(&self) -> JobState {
        self.state
    }

    pub fn new() -> (r: Self)
        ensures
            r.view_state() == JobState::Idle,
    {
        JobController { state: JobState::Idle }
    }

    pub fn state(&self) -> (r: JobState)
        ensures
            r == self.view_state(),
    {
        self.state
    }

    /// Enters `Running` with no cancellation request, unless a job is already running.
    pub fn try_start(&mut self) -> (r: Result<(), JobError>)
        ensures
            (final(self).view_state(), r is Ok) == start_step(old(self).view_state()),
            r is Err ==> r == Err::<(), JobError>(JobError::AlreadyRunning),
    {
        match self.state {
            JobState::Running { .. } => Err(JobError::AlreadyRunning),
            _ => {
                self.state = JobState::Running { cancel_requested: false };
                Ok(())
            },
        }
    }

    /// Requests cancellation of the running job; does nothing when none runs.
    pub fn cancel(&mut self)
        ensures
            final(self).view_state() == cancel_step(old(self).view_state()),
    {
        if let JobState::Running { .. } = self.state {
            self.state = JobState::Running { cancel_requested: true };
        }
    }

    /// Whether a cancellation of the running job was requested.
    pub fn cancel_requested(&self) -> (r: bool)
        ensures
            r == (self.view_state() == JobState::Running { cancel_requested: true }),
    {
        match self.state {
            JobState::Running { cancel_requested } => cancel_requested,
            _ => false,
        }
    }

    /// Whether a job is running.
    pub fn status(&self) -> (r: bool)
        ensures
            r == self.view_state().running(),
    {
        match self.state {
            JobState::Running { .. } => true,
            _ => false,
        }
    }

    /// Ends the running job with `outcome`, which is handed back unchanged.
    pub fn conclude(&mut self, outcome: Result<JobResult, JobError>) -> (r: Result<JobResult, JobError>)
        ensures
            r == outcome,
            final(self).view_state() == end_state(outcome),
            !final(self).view_state().running(),
    {
        self.state = match &outcome {
            Ok(_) => JobState::Completed,
            Err(JobError::Cancelled) => JobState::Cancelled,
            Err(JobError::TimedOut) => JobState::TimedOut,
            Err(_) => JobState::Failed,
        };
        outcome
    }
}

} // verus!
