use vstd::prelude::*;

use crate::policy::RetryPolicy;

verus! {

/// Which report a run expects next.
#[derive(PartialEq, Eq, Structural, Clone, Copy, Debug)]
pub enum Phase {
    /// The operation is to be invoked; report it with `attempted`.
    Attempting,
    /// The retry predicate is to judge the latest result; report its verdict
    /// with `judged`.
    Judging,
    /// The latest result is the outcome of the run.
    Finished,
}

/// What the caller does next.
#[derive(PartialEq, Eq, Structural, Clone, Copy, Debug)]
pub enum Action {
    /// Return the latest result of the operation as the run's outcome.
    Return,
    /// Ask the retry predicate whether the latest result is worth another
    /// attempt.
    Consult,
    /// Pause for the backoff delay of attempt number `attempt`, the number
    /// of attempts made so far, then invoke the operation again.
    Pause { attempt: u8 },
}

/// The abstract state of a run.
pub ghost struct RunState {
    pub max_retries: nat,
    pub attempts: nat,
    pub phase: Phase,
}

/// The state of a run before its first attempt.
pub open spec fn initial(max_retries: nat) -> RunState {
    RunState { max_retries, attempts: 0, phase: Phase::Attempting }
}

/// The states that a run can reach.
pub open spec fn run_wf(s: RunState) -> bool {
    &&& 1 <= s.max_retries <= u8::MAX
    &&& s.attempts <= s.max_retries
    &&& s.phase == Phase::Attempting ==> s.attempts < s.max_retries
    &&& s.phase == Phase::Judging ==> 1 <= s.attempts < s.max_retries
    &&& s.phase == Phase::Finished ==> 1 <= s.attempts
}

/// An attempt was made. When it was the last one allowed, its result is
/// returned as it stands and the predicate is not asked.
pub open spec fn attempt_step(s: RunState) -> (RunState, Action) {
    let attempts = s.attempts + 1;
    if attempts == s.max_retries {
        (RunState { attempts, phase: Phase::Finished, ..s }, Action::Return)
    } else {
        (RunState { attempts, phase: Phase::Judging, ..s }, Action::Consult)
    }
}

/// The predicate judged the latest result: `retriable` asks for another
/// attempt after a pause, otherwise the result is returned.
pub open spec fn verdict_step(s: RunState, retriable: bool) -> (RunState, Action) {
    if retriable {
        (RunState { phase: Phase::Attempting, ..s }, Action::Pause { attempt: s.attempts as u8 })
    } else {
        (RunState { phase: Phase::Finished, ..s }, Action::Return)
    }
}

/// One run of the retry loop: it tracks how many attempts were made and
/// decides, report by report, what the caller does next.
pub struct RetryRun {
    max_retries: u8,
    attempts: u8,
    phase: Phase,
}

impl View for RetryRun {
    type V = RunState;

    closed spec fn view(&self) -> RunState {
        RunState {
            max_retries: self.max_retries as nat,
            attempts: self.attempts as nat,
            phase: self.phase,
        }
    }
}

impl RetryRun {
    /// A run under `policy`, before its first attempt: the caller invokes
    /// the operation and then reports with `attempted`.
    pub fn start(policy: &RetryPolicy) -> (r: RetryRun)
        requires
            policy.wf(),
        ensures
            r@ == initial(policy@),
            run_wf(r@),
    {
        RetryRun { max_retries: policy.max_retries(), attempts: 0, phase: Phase::Attempting }
    }

    /// Reports that the operation was invoked once more.
    pub fn attempted(&mut self) -> (a: Action)
        requires
            run_wf(old(self)@),
            old(self)@.phase == Phase::Attempting,
        ensures
            (final(self)@, a) == attempt_step(old(self)@),
            run_wf(final(self)@),
    {
        self.attempts = self.attempts + 1;
        if self.attempts == self.max_retries {
            self.phase = Phase::Finished;
            Action::Return
        } else {
            self.phase = Phase::Judging;
            Action::Consult
        }
    }

    /// Reports the retry predicate's verdict on the latest result.
    pub fn judged(&mut self, retriable: bool) -> (a: Action)
        requires
            run_wf(old(self)@),
            old(self)@.phase == Phase::Judging,
        ensures
            (final(self)@, a) == verdict_step(old(self)@, retriable),
            run_wf(final(self)@),
    {
        if retriable {
            self.phase = Phase::Attempting;
            Action::Pause { attempt: self.attempts }
        } else {
            self.phase = Phase::Finished;
            Action::Return
        }
    }

    /// The number of attempts made so far.
    pub fn attempts(&self) -> (r: u8)
        ensures
            r as nat == self@.attempts,
    {
        self.attempts
    }

    /// Which report the run expects next.
    pub fn phase(&self) -> (r: Phase)
        ensures
            r == self@.phase,
    {
        self.phase
    }
}

} // verus!
