//! Calling a task again and again while its results ask for it, and collecting the results.

use crate::backoff::{BackoffIter, BackoffState};
use crate::duration::Duration;
use crate::numeric::{Factor, FloatOps};
use crate::policy::{RetryPolicy, Settings};
use crate::step::Step;
use crate::task::{SuccessCondition, TaskWithParameter};
use vstd::prelude::*;

verus! {

/// A collecting run that is due to call its task.
///
/// The caller awaits the future that `call` gives, hands what came of it to `resume`, and goes
/// by the step that `resume` returns.
pub struct CollectRun<T: TaskWithParameter<S>, C, S> {
    task: T,
    condition: C,
    backoffs: BackoffIter,
    results: Vec<T::Item>,
    input: S,
}

/// A collecting run that waits for what comes of a call.
pub struct CollectCall<T: TaskWithParameter<S>, C, S> {
    task: T,
    condition: C,
    backoffs: BackoffIter,
    results: Vec<T::Item>,
}

impl<T: TaskWithParameter<S>, C: SuccessCondition<T::Item, S>, S> CollectRun<T, C, S> {
    /// The task.
    pub closed spec fn task(self) -> T {
        self.task
    }

    /// The condition that judges results.
    pub closed spec fn condition(self) -> C {
        self.condition
    }

    /// The pauses that are left.
    pub closed spec fn backoffs(self) -> BackoffState {
        self.backoffs@
    }

    /// The results so far, in the order in which they came.
    pub closed spec fn results(self) -> Seq<T::Item> {
        self.results@
    }

    /// What the task is to be called with.
    pub closed spec fn input(self) -> S {
        self.input
    }

    /// A run of `task` under `settings` before its first call, which is with `start_value`.
    pub open spec fn starts(
        self,
        settings: Settings,
        task: T,
        condition: C,
        start_value: S,
    ) -> bool {
        &&& self.task() == task
        &&& self.condition() == condition
        &&& settings.starts(settings.backoff, self.backoffs())
        &&& self.results() == Seq::<T::Item>::empty()
        &&& self.input() == start_value
    }

    /// Calling the task with the input may give `fut` and leave `after`.
    pub open spec fn called(self, fut: T::Fut, after: CollectCall<T, C, S>) -> bool {
        &&& self.task().called_with(self.input(), fut, &after.task())
        &&& after.condition() == self.condition()
        &&& after.backoffs() == self.backoffs()
        &&& after.results() == self.results()
    }

    /// Starts the task on the input.
    pub fn call(self) -> (called: (T::Fut, CollectCall<T, C, S>))
        requires
            self.task().can_call_with(self.input()),
        ensures
            self.called(called.0, called.1),
    {
        let mut task = self.task;
        let fut = task.call(self.input);
        (
            fut,
            CollectCall {
                task,
                condition: self.condition,
                backoffs: self.backoffs,
                results: self.results,
            },
        )
    }
}

impl<T: TaskWithParameter<S>, C: SuccessCondition<T::Item, S>, S> CollectCall<T, C, S> {
    /// The task.
    pub closed spec fn task(self) -> T {
        self.task
    }

    /// The condition that judges results.
    pub closed spec fn condition(self) -> C {
        self.condition
    }

    /// The pauses that are left.
    pub closed spec fn backoffs(self) -> BackoffState {
        self.backoffs@
    }

    /// The results of the calls before this one, in the order in which they came.
    pub closed spec fn results(self) -> Seq<T::Item> {
        self.results@
    }

    /// `step` may follow when the task gave `item`, which asks for a call with `next` or for
    /// none: that call after the next pause where there is one of each, and otherwise all
    /// results.
    pub open spec fn decided<M, F, J>(
        self,
        item: T::Item,
        next: Option<S>,
        ops: &FloatOps<M, F, J>,
        step: Step<CollectRun<T, C, S>, Vec<T::Item>, T::Error>,
    ) -> bool where
        M: Fn(Factor, Factor) -> Factor,
        F: Fn(Duration, Factor) -> Duration,
        J: Fn(Duration) -> u64,
     {
        if next is Some && self.backoffs().left > 0 {
            &&& step matches Step::Again { run, delay }
            &&& run.task() == self.task()
            &&& run.condition() == self.condition()
            &&& run.results() == self.results().push(item)
            &&& run.input() == next->0
            &&& self.backoffs().pauses(ops, delay@, run.backoffs())
        } else {
            &&& step matches Step::Finish(Ok(results))
            &&& results@ == self.results().push(item)
        }
    }

    /// The condition may find that `item` asks for a call with `next` or for none, and leave
    /// `judged`.
    pub open spec fn judges(self, item: T::Item, next: Option<S>, judged: Self) -> bool {
        &&& self.condition().judged_result(&item, next, &judged.condition())
        &&& judged.task() == self.task()
        &&& judged.backoffs() == self.backoffs()
        &&& judged.results() == self.results()
    }

    /// `step` may follow when `outcome` came of the call, given that the condition finds that a
    /// result asks for a call with `next` or for none: a result is decided on, and an error ends
    /// the run.
    pub open spec fn resumed_given<M, F, J>(
        self,
        outcome: Result<T::Item, T::Error>,
        next: Option<S>,
        ops: &FloatOps<M, F, J>,
        step: Step<CollectRun<T, C, S>, Vec<T::Item>, T::Error>,
    ) -> bool where
        M: Fn(Factor, Factor) -> Factor,
        F: Fn(Duration, Factor) -> Duration,
        J: Fn(Duration) -> u64,
     {
        match outcome {
            Ok(item) => exists|judged: Self| #[trigger]
                self.judges(item, next, judged) && judged.decided(item, next, ops, step),
            Err(error) => step == Step::<
                CollectRun<T, C, S>,
                Vec<T::Item>,
                T::Error,
            >::Finish(Err(error)),
        }
    }

    /// `step` may follow when `outcome` came of the call: a result is judged by the condition,
    /// and an error ends the run.
    pub open spec fn resumed<M, F, J>(
        self,
        outcome: Result<T::Item, T::Error>,
        ops: &FloatOps<M, F, J>,
        step: Step<CollectRun<T, C, S>, Vec<T::Item>, T::Error>,
    ) -> bool where
        M: Fn(Factor, Factor) -> Factor,
        F: Fn(Duration, Factor) -> Duration,
        J: Fn(Duration) -> u64,
     {
        exists|next: Option<S>| #[trigger] self.resumed_given(outcome, next, ops, step)
    }

    /// What to do about `item`, given that it asks for a call with `next` or for none.
    pub fn decide<M, F, J>(
        self,
        item: T::Item,
        next: Option<S>,
        ops: &FloatOps<M, F, J>,
    ) -> (step: Step<CollectRun<T, C, S>, Vec<T::Item>, T::Error>) where
        M: Fn(Factor, Factor) -> Factor,
        F: Fn(Duration, Factor) -> Duration,
        J: Fn(Duration) -> u64,

        requires
            next is Some && self.backoffs().left > 0 ==> self.backoffs().computable(ops),
        ensures
            self.decided(item, next, ops, step),
    {
        let mut backoffs = self.backoffs;
        let mut results = self.results;
        results.push(item);
        if let Some(input) = next {
            if let Some(delay) = backoffs.next(ops) {
                let run = CollectRun {
                    task: self.task,
                    condition: self.condition,
                    backoffs,
                    results,
                    input,
                };
                return Step::Again { run, delay };
            }
        }
        Step::Finish(Ok(results))
    }

    /// What to do when `outcome` came of the call.
    pub fn resume<M, F, J>(
        self,
        outcome: Result<T::Item, T::Error>,
        ops: &FloatOps<M, F, J>,
    ) -> (step: Step<CollectRun<T, C, S>, Vec<T::Item>, T::Error>) where
        M: Fn(Factor, Factor) -> Factor,
        F: Fn(Duration, Factor) -> Duration,
        J: Fn(Duration) -> u64,

        requires
            outcome matches Ok(item) ==> self.condition().can_judge_result(&item),
            outcome matches Ok(item) ==> forall|next: Option<S>, judged: Self|
                #[trigger] self.judges(item, next, judged) && next is Some
                    && self.backoffs().left > 0 ==> self.backoffs().computable(ops),
        ensures
            self.resumed(outcome, ops, step),
    {
        match outcome {
            Ok(item) => {
                let mut run = self;
                let next = run.condition.retry_with(&item);
                assert(self.judges(item, next, run));
                let step = run.decide(item, next, ops);
                assert(self.resumed_given(outcome, next, ops, step));
                step
            },
            Err(error) => {
                let step = Step::Finish(Err(error));
                assert(self.resumed_given(outcome, None, ops, step));
                step
            },
        }
    }
}

impl RetryPolicy {
    /// Calls `task`, first with `start_value`, as long as `condition` finds another input in the
    /// result and pauses are left, and collects the results.
    pub fn collect<T, C, S>(&self, task: T, condition: C, start_value: S) -> (run: CollectRun<
        T,
        C,
        S,
    >) where T: TaskWithParameter<S>, C: SuccessCondition<T::Item, S>
        ensures
            run.starts(self@, task, condition, start_value),
    {
        CollectRun {
            task,
            condition,
            backoffs: self.backoffs(),
            results: Vec::new(),
            input: start_value,
        }
    }
}

} // verus!
