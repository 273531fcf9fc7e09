//! Retrying a task until it succeeds, its error is not to be retried, or the pauses run out.

use crate::backoff::{BackoffIter, BackoffState};
use crate::duration::Duration;
use crate::numeric::{Factor, FloatOps};
use crate::policy::{RetryPolicy, Settings};
use crate::step::Step;
use crate::task::{Always, Condition, Task};
use vstd::prelude::*;

verus! {

/// A task that is being retried.
///
/// The caller awaits the future that `call` gives, hands what came of it to `resume`, and goes
/// by the step that `resume` returns.
pub struct RetryRun<T, C> {
    task: T,
    condition: C,
    backoffs: BackoffIter,
}

impl<T, C> RetryRun<T, C> {
    /// The task.
    pub closed spec fn task(self) -> T {
        self.task
    }

    /// The condition that judges errors.
    pub closed spec fn condition(self) -> C {
        self.condition
    }

    /// The pauses that are left.
    pub closed spec fn backoffs(self) -> BackoffState {
        self.backoffs@
    }

    /// A run of `task` under `settings` before its first call.
    pub open spec fn starts(self, settings: Settings, task: T, condition: C) -> bool {
        &&& self.task() == task
        &&& self.condition() == condition
        &&& settings.starts(settings.backoff, self.backoffs())
    }
}

impl<T: Task, C: Condition<T::Error>> RetryRun<T, C> {
    /// Calling the task may give `fut` and leave `after`.
    pub open spec fn called(self, fut: T::Fut, after: Self) -> bool {
        &&& self.task().called(fut, &after.task())
        &&& after.condition() == self.condition()
        &&& after.backoffs() == self.backoffs()
    }

    /// `step` may follow when the task failed with `error`, found `retryable` or not: another
    /// call after the next pause where it is and a pause is left, and otherwise the error.
    pub open spec fn decided<M, S, J>(
        self,
        error: T::Error,
        retryable: bool,
        ops: &FloatOps<M, S, J>,
        step: Step<Self, T::Item, T::Error>,
    ) -> bool where
        M: Fn(Factor, Factor) -> Factor,
        S: Fn(Duration, Factor) -> Duration,
        J: Fn(Duration) -> u64,
     {
        if retryable && self.backoffs().left > 0 {
            &&& step matches Step::Retry { run, error: cause, delay }
            &&& cause == error
            &&& run.task() == self.task()
            &&& run.condition() == self.condition()
            &&& self.backoffs().pauses(ops, delay@, run.backoffs())
        } else {
            step == Step::<Self, T::Item, T::Error>::Finish(Err(error))
        }
    }

    /// The condition may find `error` to be `retryable` or not and leave `judged`.
    pub open spec fn judges(self, error: T::Error, retryable: bool, judged: Self) -> bool {
        &&& self.condition().judged(&error, retryable, &judged.condition())
        &&& judged.task() == self.task()
        &&& judged.backoffs() == self.backoffs()
    }

    /// `step` may follow when `outcome` came of the last call, given that the condition finds an
    /// error to be `retryable` or not: a success ends the run, and an error is decided on.
    pub open spec fn resumed_given<M, S, J>(
        self,
        outcome: Result<T::Item, T::Error>,
        retryable: bool,
        ops: &FloatOps<M, S, J>,
        step: Step<Self, T::Item, T::Error>,
    ) -> bool where
        M: Fn(Factor, Factor) -> Factor,
        S: Fn(Duration, Factor) -> Duration,
        J: Fn(Duration) -> u64,
     {
        match outcome {
            Ok(item) => step == Step::<Self, T::Item, T::Error>::Finish(Ok(item)),
            Err(error) => exists|judged: Self| #[trigger]
                self.judges(error, retryable, judged) && judged.decided(
                    error,
                    retryable,
                    ops,
                    step,
                ),
        }
    }

    /// `step` may follow when `outcome` came of the last call: a success ends the run, and an
    /// error is judged by the condition.
    pub open spec fn resumed<M, S, J>(
        self,
        outcome: Result<T::Item, T::Error>,
        ops: &FloatOps<M, S, J>,
        step: Step<Self, T::Item, T::Error>,
    ) -> bool where
        M: Fn(Factor, Factor) -> Factor,
        S: Fn(Duration, Factor) -> Duration,
        J: Fn(Duration) -> u64,
     {
        exists|retryable: bool| #[trigger] self.resumed_given(outcome, retryable, ops, step)
    }

    /// Starts the task once more.
    pub fn call(&mut self) -> (fut: T::Fut)
        requires
            old(self).task().can_call(),
        ensures
            old(self).called(fut, *final(self)),
    {
        self.task.call()
    }

    /// What to do about `error`, given that it is `retryable` or not.
    pub fn decide<M, S, J>(
        self,
        error: T::Error,
        retryable: bool,
        ops: &FloatOps<M, S, J>,
    ) -> (step: Step<Self, T::Item, T::Error>) where
        M: Fn(Factor, Factor) -> Factor,
        S: Fn(Duration, Factor) -> Duration,
        J: Fn(Duration) -> u64,

        requires
            retryable && self.backoffs().left > 0 ==> self.backoffs().computable(ops),
        ensures
            self.decided(error, retryable, ops, step),
    {
        let mut run = self;
        if retryable {
            if let Some(delay) = run.backoffs.next(ops) {
                return Step::Retry { run, error, delay };
            }
        }
        Step::Finish(Err(error))
    }

    /// What to do when `outcome` came of the last call.
    pub fn resume<M, S, J>(
        self,
        outcome: Result<T::Item, T::Error>,
        ops: &FloatOps<M, S, J>,
    ) -> (step: Step<Self, T::Item, T::Error>) where
        M: Fn(Factor, Factor) -> Factor,
        S: Fn(Duration, Factor) -> Duration,
        J: Fn(Duration) -> u64,

        requires
            outcome matches Err(error) ==> self.condition().can_judge(&error),
            outcome matches Err(error) ==> forall|judged: Self|
                #[trigger] self.judges(error, true, judged) && self.backoffs().left > 0
                    ==> self.backoffs().computable(ops),
        ensures
            self.resumed(outcome, ops, step),
    {
        match outcome {
            Ok(item) => {
                let step = Step::Finish(Ok(item));
                assert(self.resumed_given(outcome, false, ops, step));
                step
            },
            Err(error) => {
                let mut run = self;
                let retryable = run.condition.is_retryable(&error);
                assert(self.judges(error, retryable, run));
                let step = run.decide(error, retryable, ops);
                assert(self.resumed_given(outcome, retryable, ops, step));
                step
            },
        }
    }
}

/// Two runs with the same task, condition and pauses to come are the same.
pub proof fn run_is_its_parts<T, C>(a: RetryRun<T, C>, b: RetryRun<T, C>)
    requires
        a.task() == b.task(),
        a.condition() == b.condition(),
        a.backoffs() == b.backoffs(),
    ensures
        a == b,
{
    crate::backoff::iter_is_its_state(a.backoffs, b.backoffs);
}

impl RetryPolicy {
    /// Retries `task` on every error.
    pub fn retry<T: Task>(&self, task: T) -> (run: RetryRun<T, Always>)
        ensures
            run.starts(self@, task, Always),
    {
        self.retry_if(task, Always)
    }

    /// Retries `task` on the errors that `condition` finds retryable.
    pub fn retry_if<T: Task, C: Condition<T::Error>>(&self, task: T, condition: C) -> (run:
        RetryRun<T, C>)
        ensures
            run.starts(self@, task, condition),
    {
        RetryRun { task, condition, backoffs: self.backoffs() }
    }
}

/// Retries `task` on every error, under the default policy.
pub fn retry<T: Task>(task: T) -> (run: RetryRun<T, Always>)
    ensures
        exists|settings: Settings| #[trigger]
            settings.is_default() && run.starts(settings, task, Always),
{
    retry_if(task, Always)
}

/// Retries `task` on the errors that `condition` finds retryable, under the default policy.
pub fn retry_if<T: Task, C: Condition<T::Error>>(task: T, condition: C) -> (run: RetryRun<T, C>)
    ensures
        exists|settings: Settings| #[trigger]
            settings.is_default() && run.starts(settings, task, condition),
{
    let policy = RetryPolicy::default();
    policy.retry_if(task, condition)
}

} // verus!
