//! Fixed-interval polling with a timeout budget: when a rollout or a task
//! has finished, and when waiting for it has run out of time.
use vstd::prelude::*;
use crate::errors::EcsHelperVarietyError;

verus! {

/// Seconds between two polls; each poll that finds the awaited condition
/// unmet takes this much from the budget.
pub const DEFAULT_STEP: u64 = 5;

/// The budget left after one more unsuccessful poll.
pub open spec fn after_miss(remaining: u64) -> u64 {
    if remaining > DEFAULT_STEP {
        (remaining - DEFAULT_STEP) as u64
    } else {
        0
    }
}

/// How many polls a budget allows when the awaited condition never holds.
pub open spec fn polls_allowed(remaining: u64) -> nat
    decreases remaining,
{
    if remaining == 0 {
        0
    } else {
        1 + polls_allowed(after_miss(remaining))
    }
}

/// A budget of `t` allows one poll per started interval: `t / 5` rounded up.
/// In particular a budget of exactly one interval allows exactly one poll.
pub proof fn lemma_polls_allowed(t: u64)
    ensures
        polls_allowed(t) == (t + 4) / 5,
        t == DEFAULT_STEP ==> polls_allowed(t) == 1,
    decreases t,
{
    assert(DEFAULT_STEP == 5);
    if t > 5 {
        lemma_polls_allowed((t - 5) as u64);
        assert(after_miss(t) == t - 5);
        assert(polls_allowed(t) == 1 + polls_allowed((t - 5) as u64));
        assert((t + 4) / 5 == 1 + (t - 1) / 5);
    } else if t > 0 {
        assert(after_miss(t) == 0);
        assert(polls_allowed(t) == 1 + polls_allowed(0));
        assert((t + 4) / 5 == 1);
    }
}

/// What to do after looking at the remote state.
#[derive(Debug, PartialEq, Eq)]
pub enum PollDecision {
    /// Wait one interval and poll again (or, before the first poll, poll now).
    Continue,
    /// The awaited state was reached.
    Finished,
    /// Waiting ended in failure.
    Failed(EcsHelperVarietyError),
}

/// The last known state of a one-off task.
#[derive(Debug, Clone, PartialEq, Eq)]
pub struct TaskStatus {
    pub last_status: Option<String>,
    /// The exit code of the task's first container, once it has one.
    pub exit_code: Option<i32>,
}

/// The status a task reports once it has stopped.
pub open spec fn is_stopped(status: Option<String>) -> bool {
    status matches Some(s) && s@ == "STOPPED"@
}

/// One unsuccessful poll took `before` to `after`, with decision `d`: an
/// interval left the budget, and the wait timed out if nothing is left.
pub open spec fn missed(before: Poller, after: Poller, d: PollDecision) -> bool {
    &&& after.timeout == before.timeout
    &&& after.remaining == after_miss(before.remaining)
    &&& after.remaining > 0 ==> d == PollDecision::Continue
    &&& after.remaining == 0 ==> d == PollDecision::Failed(
        EcsHelperVarietyError::WaitTaskTimeoutError(before.timeout),
    )
}

/// The timeout budget of one wait.
#[derive(Debug, Clone, PartialEq, Eq)]
pub struct Poller {
    /// The budget the wait started with.
    pub timeout: u64,
    /// What is left of it.
    pub remaining: u64,
}

impl Poller {
    /// A wait with the whole budget `timeout` before it.
    pub fn new(timeout: u64) -> (r: Self)
        ensures
            r.timeout == timeout,
            r.remaining == timeout,
    {
        Poller { timeout, remaining: timeout }
    }

    /// Whether the first poll may be made: it may unless the budget is empty.
    pub fn begin(&self) -> (d: PollDecision)
        ensures
            self.remaining > 0 ==> d == PollDecision::Continue,
            self.remaining == 0 ==> d == PollDecision::Failed(
                EcsHelperVarietyError::WaitTaskTimeoutError(self.timeout),
            ),
    {
        if self.remaining > 0 {
            PollDecision::Continue
        } else {
            PollDecision::Failed(EcsHelperVarietyError::WaitTaskTimeoutError(self.timeout))
        }
    }

    /// A poll found the condition unmet: one interval leaves the budget, and
    /// the wait times out when nothing is left.
    pub fn miss(&mut self) -> (d: PollDecision)
        ensures
            missed(*old(self), *final(self), d),
    {
        if self.remaining > DEFAULT_STEP {
            self.remaining = self.remaining - DEFAULT_STEP;
        } else {
            self.remaining = 0;
        }
        if self.remaining > 0 {
            PollDecision::Continue
        } else {
            PollDecision::Failed(EcsHelperVarietyError::WaitTaskTimeoutError(self.timeout))
        }
    }

    /// A rollout has finished when exactly one deployment of the service is
    /// left.
    pub fn observe_service(&mut self, deployments: usize) -> (d: PollDecision)
        ensures
            deployments == 1 ==> d == PollDecision::Finished && *final(self) == *old(self),
            deployments != 1 ==> missed(*old(self), *final(self), d),
    {
        if deployments == 1 {
            PollDecision::Finished
        } else {
            self.miss()
        }
    }

    /// A one-off task has finished once it reports the stopped status: it
    /// succeeded when its first container exited with 0, and failed with that
    /// code otherwise.
    pub fn observe_task(&mut self, task_arn: &String, task: &TaskStatus) -> (d: PollDecision)
        ensures
            is_stopped(task.last_status) ==> *final(self) == *old(self) && match task.exit_code {
                Some(code) => if code == 0 {
                    d == PollDecision::Finished
                } else {
                    d matches PollDecision::Failed(
                        EcsHelperVarietyError::TaskWasFailed { task_arn: a, code: c },
                    ) && a@ == task_arn@ && c == code
                },
                None => d matches PollDecision::Failed(EcsHelperVarietyError::MissingExitCode(a))
                    && a@ == task_arn@,
            },
            !is_stopped(task.last_status) ==> missed(*old(self), *final(self), d),
    {
        let stopped = match &task.last_status {
            Some(s) => *s == String::from_str("STOPPED"),
            None => false,
        };
        if !stopped {
            return self.miss();
        }
        match task.exit_code {
            Some(code) => {
                if code == 0 {
                    PollDecision::Finished
                } else {
                    PollDecision::Failed(
                        EcsHelperVarietyError::TaskWasFailed { task_arn: task_arn.clone(), code },
                    )
                }
            },
            None => PollDecision::Failed(EcsHelperVarietyError::MissingExitCode(task_arn.clone())),
        }
    }
}

} // verus!
