//! Collecting results as a collecting run does, and retrying a call that fails.

use crate::backoff::{BackoffIter, BackoffState};
use crate::duration::Duration;
use crate::numeric::{Factor, FloatOps};
use crate::policy::{RetryPolicy, Settings};
use crate::step::Step;
use crate::task::{Condition, SuccessCondition, TaskWithParameter};
use vstd::prelude::*;

verus! {

/// A collecting and retrying run that is due to call its task.
///
/// The caller awaits the future that `call` gives, hands what came of it to `resume`, and goes
/// by the step that `resume` returns.
pub struct CollectAndRetryRun<T: TaskWithParameter<S>, C, D, S> {
    task: T,
    success_condition: C,
    error_condition: D,
    success_backoffs: BackoffIter,
    error_backoffs: BackoffIter,
    results: Vec<T::Item>,
    last_input: S,
}

/// A collecting and retrying run that waits for what comes of a call.
pub struct CollectAndRetryCall<T: TaskWithParameter<S>, C, D, S> {
    task: T,
    success_condition: C,
    error_condition: D,
    success_backoffs: BackoffIter,
    error_backoffs: BackoffIter,
    results: Vec<T::Item>,
    last_input: S,
}

impl<T, C, D, S> CollectAndRetryRun<T, C, D, S> where
    T: TaskWithParameter<S>,
    C: SuccessCondition<T::Item, S>,
    D: Condition<T::Error>,
    S: Clone,
 {
    /// The task.
    pub closed spec fn task(self) -> T {
        self.task
    }

    /// The condition that judges results.
    pub closed spec fn success_condition(self) -> C {
        self.success_condition
    }

    /// The condition that judges errors.
    pub closed spec fn error_condition(self) -> D {
        self.error_condition
    }

    /// The pauses after a success that are left.
    pub closed spec fn success_backoffs(self) -> BackoffState {
        self.success_backoffs@
    }

    /// The pauses after a failure that are left.
    pub closed spec fn error_backoffs(self) -> BackoffState {
        self.error_backoffs@
    }

    /// The results so far, in the order in which they came.
    pub closed spec fn results(self) -> Seq<T::Item> {
        self.results@
    }

    /// The input that the last success asked for, or the first one before any success. The task
    /// is to be called with a clone of it.
    pub closed spec fn last_input(self) -> S {
        self.last_input
    }

    /// A run of `task` under `settings` before its first call, which is with a clone of
    /// `start_value`.
    pub open spec fn starts(
        self,
        settings: Settings,
        task: T,
        success_condition: C,
        error_condition: D,
        start_value: S,
    ) -> bool {
        &&& self.task() == task
        &&& self.success_condition() == success_condition
        &&& self.error_condition() == error_condition
        &&& settings.starts(settings.backoff, self.success_backoffs())
        &&& settings.starts(settings.backoff, self.error_backoffs())
        &&& self.results() == Seq::<T::Item>::empty()
        &&& self.last_input() == start_value
    }

    /// Calling the task with a clone of the last input may give `fut` and leave `after`.
    pub open spec fn called(self, fut: T::Fut, after: CollectAndRetryCall<T, C, D, S>) -> bool {
        &&& exists|input: S| #[trigger]
            vstd::pervasive::strictly_cloned(self.last_input(), input)
                && self.task().called_with(input, fut, &after.task())
        &&& after.success_condition() == self.success_condition()
        &&& after.error_condition() == self.error_condition()
        &&& after.success_backoffs() == self.success_backoffs()
        &&& after.error_backoffs() == self.error_backoffs()
        &&& after.results() == self.results()
        &&& after.last_input() == self.last_input()
    }

    /// Starts the task on a clone of the last input.
    pub fn call(self) -> (called: (T::Fut, CollectAndRetryCall<T, C, D, S>))
        requires
            forall|input: S| #[trigger]
                vstd::pervasive::strictly_cloned(self.last_input(), input)
                    ==> self.task().can_call_with(input),
        ensures
            self.called(called.0, called.1),
    {
        let mut task = self.task;
        let input = self.last_input.clone();
        assert(vstd::pervasive::strictly_cloned(self.last_input(), input));
        let fut = task.call(input);
        (
            fut,
            CollectAndRetryCall {
                task,
                success_condition: self.success_condition,
                error_condition: self.error_condition,
                success_backoffs: self.success_backoffs,
                error_backoffs: self.error_backoffs,
                results: self.results,
                last_input: self.last_input,
            },
        )
    }
}

impl<T, C, D, S> CollectAndRetryCall<T, C, D, S> where
    T: TaskWithParameter<S>,
    C: SuccessCondition<T::Item, S>,
    D: Condition<T::Error>,
    S: Clone,
 {
    /// The task.
    pub closed spec fn task(self) -> T {
        self.task
    }

    /// The condition that judges results.
    pub closed spec fn success_condition(self) -> C {
        self.success_condition
    }

    /// The condition that judges errors.
    pub closed spec fn error_condition(self) -> D {
        self.error_condition
    }

    /// The pauses after a success that are left.
    pub closed spec fn success_backoffs(self) -> BackoffState {
        self.success_backoffs@
    }

    /// The pauses after a failure that are left.
    pub closed spec fn error_backoffs(self) -> BackoffState {
        self.error_backoffs@
    }

    /// The results of the calls before this one, in the order in which they came.
    pub closed spec fn results(self) -> Seq<T::Item> {
        self.results@
    }

    /// The input that the last success asked for, or the first one before any success.
    pub closed spec fn last_input(self) -> S {
        self.last_input
    }

    /// `step` may follow when the task gave `item`, which asks for a call with `next` or for
    /// none: a call with a clone of it after the next pause for a success where there is one
    /// of each, and otherwise all results.
    pub open spec fn decided_success<M, F, J>(
        self,
        item: T::Item,
        next: Option<S>,
        ops: &FloatOps<M, F, J>,
        step: Step<CollectAndRetryRun<T, C, D, S>, Vec<T::Item>, T::Error>,
    ) -> bool where
        M: Fn(Factor, Factor) -> Factor,
        F: Fn(Duration, Factor) -> Duration,
        J: Fn(Duration) -> u64,
     {
        if next is Some && self.success_backoffs().left > 0 {
            &&& step matches Step::Again { run, delay }
            &&& run.task() == self.task()
            &&& run.success_condition() == self.success_condition()
            &&& run.error_condition() == self.error_condition()
            &&& self.success_backoffs().pauses(ops, delay@, run.success_backoffs())
            &&& run.error_backoffs() == self.error_backoffs()
            &&& run.results() == self.results().push(item)
            &&& run.last_input() == next->0
        } else {
            &&& step matches Step::Finish(Ok(results))
            &&& results@ == self.results().push(item)
        }
    }

    /// `step` may follow when the task failed with `error`, found `retryable` or not: a call
    /// with a clone of the last input after the next pause for a failure where it is and one is
    /// left, and otherwise the error.
    pub open spec fn decided_failure<M, F, J>(
        self,
        error: T::Error,
        retryable: bool,
        ops: &FloatOps<M, F, J>,
        step: Step<CollectAndRetryRun<T, C, D, S>, Vec<T::Item>, T::Error>,
    ) -> bool where
        M: Fn(Factor, Factor) -> Factor,
        F: Fn(Duration, Factor) -> Duration,
        J: Fn(Duration) -> u64,
     {
        if retryable && self.error_backoffs().left > 0 {
            &&& step matches Step::Retry { run, error: cause, delay }
            &&& cause == error
            &&& run.task() == self.task()
            &&& run.success_condition() == self.success_condition()
            &&& run.error_condition() == self.error_condition()
            &&& run.success_backoffs() == self.success_backoffs()
            &&& self.error_backoffs().pauses(ops, delay@, run.error_backoffs())
            &&& run.results() == self.results()
            &&& run.last_input() == self.last_input()
        } else {
            step == Step::<CollectAndRetryRun<T, C, D, S>, Vec<T::Item>, T::Error>::Finish(
                Err(error),
            )
        }
    }

    /// But for the two conditions, `judged` is `self`.
    pub open spec fn same_but_conditions(self, judged: Self) -> bool {
        &&& judged.task() == self.task()
        &&& judged.success_backoffs() == self.success_backoffs()
        &&& judged.error_backoffs() == self.error_backoffs()
        &&& judged.results() == self.results()
        &&& judged.last_input() == self.last_input()
    }

    /// The condition on results may find that `item` asks for a call with `next` or for none,
    /// and leave `judged`.
    pub open spec fn judges_success(self, item: T::Item, next: Option<S>, judged: Self) -> bool {
        &&& self.success_condition().judged_result(&item, next, &judged.success_condition())
        &&& judged.error_condition() == self.error_condition()
        &&& self.same_but_conditions(judged)
    }

    /// The condition on errors may find `error` to be `retryable` or not, and leave `judged`.
    pub open spec fn judges_failure(self, error: T::Error, retryable: bool, judged: Self) -> bool {
        &&& self.error_condition().judged(&error, retryable, &judged.error_condition())
        &&& judged.success_condition() == self.success_condition()
        &&& self.same_but_conditions(judged)
    }

    /// `step` may follow when `outcome` came of the call, given that the one condition finds that
    /// a result asks for a call with `next` or for none, and the other finds an error to be
    /// `retryable` or not.
    pub open spec fn resumed_given<M, F, J>(
        self,
        outcome: Result<T::Item, T::Error>,
        next: Option<S>,
        retryable: bool,
        ops: &FloatOps<M, F, J>,
        step: Step<CollectAndRetryRun<T, C, D, S>, Vec<T::Item>, T::Error>,
    ) -> bool where
        M: Fn(Factor, Factor) -> Factor,
        F: Fn(Duration, Factor) -> Duration,
        J: Fn(Duration) -> u64,
     {
        match outcome {
            Ok(item) => exists|judged: Self| #[trigger]
                self.judges_success(item, next, judged) && judged.decided_success(
                    item,
                    next,
                    ops,
                    step,
                ),
            Err(error) => exists|judged: Self| #[trigger]
                self.judges_failure(error, retryable, judged) && judged.decided_failure(
                    error,
                    retryable,
                    ops,
                    step,
                ),
        }
    }

    /// `step` may follow when `outcome` came of the call: a result is judged by the one
    /// condition, and an error by the other.
    pub open spec fn resumed<M, F, J>(
        self,
        outcome: Result<T::Item, T::Error>,
        ops: &FloatOps<M, F, J>,
        step: Step<CollectAndRetryRun<T, C, D, S>, Vec<T::Item>, T::Error>,
    ) -> bool where
        M: Fn(Factor, Factor) -> Factor,
        F: Fn(Duration, Factor) -> Duration,
        J: Fn(Duration) -> u64,
     {
        exists|next: Option<S>, retryable: bool| #[trigger]
            self.resumed_given(outcome, next, retryable, ops, step)
    }

    /// What to do about `item`, given that it asks for a call with `next` or for none.
    pub fn decide_success<M, F, J>(
        self,
        item: T::Item,
        next: Option<S>,
        ops: &FloatOps<M, F, J>,
    ) -> (step: Step<CollectAndRetryRun<T, C, D, S>, Vec<T::Item>, T::Error>) where
        M: Fn(Factor, Factor) -> Factor,
        F: Fn(Duration, Factor) -> Duration,
        J: Fn(Duration) -> u64,

        requires
            next is Some && self.success_backoffs().left > 0
                ==> self.success_backoffs().computable(ops),
        ensures
            self.decided_success(item, next, ops, step),
    {
        let mut success_backoffs = self.success_backoffs;
        let mut results = self.results;
        results.push(item);
        if let Some(new_input) = next {
            if let Some(delay) = success_backoffs.next(ops) {
                let run = CollectAndRetryRun {
                    task: self.task,
                    success_condition: self.success_condition,
                    error_condition: self.error_condition,
                    success_backoffs,
                    error_backoffs: self.error_backoffs,
                    results,
                    last_input: new_input,
                };
                return Step::Again { run, delay };
            }
        }
        Step::Finish(Ok(results))
    }

    /// What to do about `error`, given that it is `retryable` or not.
    pub fn decide_failure<M, F, J>(
        self,
        error: T::Error,
        retryable: bool,
        ops: &FloatOps<M, F, J>,
    ) -> (step: Step<CollectAndRetryRun<T, C, D, S>, Vec<T::Item>, T::Error>) where
        M: Fn(Factor, Factor) -> Factor,
        F: Fn(Duration, Factor) -> Duration,
        J: Fn(Duration) -> u64,

        requires
            retryable && self.error_backoffs().left > 0 ==> self.error_backoffs().computable(ops),
        ensures
            self.decided_failure(error, retryable, ops, step),
    {
        let mut error_backoffs = self.error_backoffs;
        if retryable {
            if let Some(delay) = error_backoffs.next(ops) {
                let run = CollectAndRetryRun {
                    task: self.task,
                    success_condition: self.success_condition,
                    error_condition: self.error_condition,
                    success_backoffs: self.success_backoffs,
                    error_backoffs,
                    results: self.results,
                    last_input: self.last_input,
                };
                return Step::Retry { run, error, delay };
            }
        }
        Step::Finish(Err(error))
    }

    /// What to do when `outcome` came of the call.
    pub fn resume<M, F, J>(
        self,
        outcome: Result<T::Item, T::Error>,
        ops: &FloatOps<M, F, J>,
    ) -> (step: Step<CollectAndRetryRun<T, C, D, S>, Vec<T::Item>, T::Error>) where
        M: Fn(Factor, Factor) -> Factor,
        F: Fn(Duration, Factor) -> Duration,
        J: Fn(Duration) -> u64,

        requires
            outcome matches Ok(item) ==> self.success_condition().can_judge_result(&item),
            outcome matches Ok(item) ==> forall|next: Option<S>, judged: Self|
                #[trigger] self.judges_success(item, next, judged) && next is Some
                    && self.success_backoffs().left > 0
                    ==> self.success_backoffs().computable(ops),
            outcome matches Err(error) ==> self.error_condition().can_judge(&error),
            outcome matches Err(error) ==> forall|judged: Self|
                #[trigger] self.judges_failure(error, true, judged)
                    && self.error_backoffs().left > 0
                    ==> self.error_backoffs().computable(ops),
        ensures
            self.resumed(outcome, ops, step),
    {
        let mut run = self;
        match outcome {
            Ok(item) => {
                let next = run.success_condition.retry_with(&item);
                assert(self.judges_success(item, next, run));
                let step = run.decide_success(item, next, ops);
                assert(self.resumed_given(outcome, next, false, ops, step));
                step
            },
            Err(error) => {
                let retryable = run.error_condition.is_retryable(&error);
                assert(self.judges_failure(error, retryable, run));
                let step = run.decide_failure(error, retryable, ops);
                assert(self.resumed_given(outcome, None, retryable, ops, step));
                step
            },
        }
    }
}

impl RetryPolicy {
    /// Collects the results of `task` as `collect` does, and calls it again with the same input
    /// on the errors that `error_condition` finds retryable. Successes and failures each have
    /// the pauses of this policy to themselves.
    pub fn collect_and_retry<T, C, D, S>(
        &self,
        task: T,
        success_condition: C,
        error_condition: D,
        start_value: S,
    ) -> (run: CollectAndRetryRun<T, C, D, S>) where
        T: TaskWithParameter<S>,
        C: SuccessCondition<T::Item, S>,
        D: Condition<T::Error>,
        S: Clone,

        ensures
            run.starts(self@, task, success_condition, error_condition, start_value),
    {
        CollectAndRetryRun {
            task,
            success_condition,
            error_condition,
            success_backoffs: self.backoffs(),
            error_backoffs: self.backoffs(),
            results: Vec::new(),
            last_input: start_value,
        }
    }
}

} // verus!
