//! When a collecting and retrying run is a collecting run, and when it is a retrying one.

use crate::collect_and_retry_run::CollectAndRetryRun;
use crate::collect_run::CollectRun;
use crate::duration::Duration;
use crate::numeric::{Factor, FloatOps};
use crate::policy::Settings;
use crate::retry_run::RetryRun;
use crate::task::{Condition, SuccessCondition, Task, TaskWithParameter};
use crate::{collect_and_retry_laws, collect_laws, retry_laws};
use vstd::prelude::*;

verus! {

/// The two runs are alike at their first `i` calls and the one after these, as far as the
/// collecting and retrying one had no failures.
proof fn collecting_runs_correspond<T, C, D, S, M, F, J>(
    settings: Settings,
    runs: Seq<CollectRun<T, C, S>>,
    items: Seq<T::Item>,
    delays: Seq<Duration>,
    outcome: Result<T::Item, T::Error>,
    next: Option<S>,
    retrying: Seq<CollectAndRetryRun<T, C, D, S>>,
    outcomes: Seq<Result<T::Item, T::Error>>,
    pauses: Seq<Duration>,
    last_outcome: Result<T::Item, T::Error>,
    last_next: Option<S>,
    behaves: spec_fn(Seq<S>) -> Result<T::Item, T::Error>,
    answers: spec_fn(Seq<T::Item>) -> Option<S>,
    ops: &FloatOps<M, F, J>,
    i: int,
) where
    T: TaskWithParameter<S>,
    C: SuccessCondition<T::Item, S>,
    D: Condition<T::Error>,
    S: Clone,
    M: Fn(Factor, Factor) -> Factor,
    F: Fn(Duration, Factor) -> Duration,
    J: Fn(Duration) -> u64,

    requires
        collect_laws::collect_trace(settings, runs, items, delays, ops),
        collect_laws::collect_behaves(runs, items, outcome, behaves),
        collect_laws::collect_asks(runs, items, outcome, next, answers),
        collect_and_retry_laws::collect_and_retry_trace(settings, retrying, outcomes, pauses, ops),
        collect_and_retry_laws::collect_and_retry_behaves(
            retrying,
            outcomes,
            last_outcome,
            behaves,
        ),
        collect_and_retry_laws::collect_and_retry_asks(
            retrying,
            outcomes,
            last_outcome,
            last_next,
            answers,
        ),
        runs[0].input() == retrying[0].last_input(),
        0 <= i <= items.len(),
        i <= outcomes.len(),
    ensures
        collect_laws::collect_inputs(runs, (i + 1) as nat)
            == collect_and_retry_laws::collect_and_retry_inputs(retrying, (i + 1) as nat),
        collect_and_retry_laws::successes(outcomes.take(i)) == items.take(i),
        runs[i].backoffs().left == settings.max_retries - i,
        retrying[i].success_backoffs().left == settings.max_retries - i,
    decreases i,
{
    collect_laws::collect_keeps_every_item(settings, runs, items, delays, ops, i);
    collect_and_retry_laws::collect_and_retry_keeps_every_item(
        settings,
        retrying,
        outcomes,
        pauses,
        ops,
        i,
    );
    let inputs = collect_laws::collect_inputs(runs, (i + 1) as nat);
    let cloned_inputs = collect_and_retry_laws::collect_and_retry_inputs(
        retrying,
        (i + 1) as nat,
    );
    if i > 0 {
        let k = i - 1;
        collecting_runs_correspond(
            settings,
            runs,
            items,
            delays,
            outcome,
            next,
            retrying,
            outcomes,
            pauses,
            last_outcome,
            last_next,
            behaves,
            answers,
            ops,
            k,
        );
        assert(outcomes[k] == Ok::<T::Item, T::Error>(items[k]));
        assert(items.take(k).push(items[k]) =~= items.take(i));
        assert(outcomes.take(i).drop_last() =~= outcomes.take(k));
        assert(inputs =~= collect_laws::collect_inputs(runs, i as nat).push(runs[i].input()));
        assert(cloned_inputs =~= collect_and_retry_laws::collect_and_retry_inputs(
            retrying,
            i as nat,
        ).push(retrying[i].last_input()));
    } else {
        assert(inputs =~= cloned_inputs);
        assert(items.take(i) =~= Seq::<T::Item>::empty());
    }
}

/// A collecting and retrying run whose condition refuses every error is the collecting run: under
/// the same settings, from the same input, with calls that come to the same on the same inputs
/// and conditions that find the same in the same items, the one calls with clones of the inputs
/// of the other, in the same order, and both end with the same result.
pub proof fn refusing_run_is_collecting_run<T, C, D, S, M, F, J>(
    settings: Settings,
    runs: Seq<CollectRun<T, C, S>>,
    items: Seq<T::Item>,
    delays: Seq<Duration>,
    outcome: Result<T::Item, T::Error>,
    next: Option<S>,
    result: Result<Vec<T::Item>, T::Error>,
    retrying: Seq<CollectAndRetryRun<T, C, D, S>>,
    outcomes: Seq<Result<T::Item, T::Error>>,
    pauses: Seq<Duration>,
    last_outcome: Result<T::Item, T::Error>,
    last_next: Option<S>,
    last_retryable: bool,
    last_result: Result<Vec<T::Item>, T::Error>,
    behaves: spec_fn(Seq<S>) -> Result<T::Item, T::Error>,
    answers: spec_fn(Seq<T::Item>) -> Option<S>,
    verdicts: spec_fn(Seq<T::Error>) -> bool,
    ops: &FloatOps<M, F, J>,
) where
    T: TaskWithParameter<S>,
    C: SuccessCondition<T::Item, S>,
    D: Condition<T::Error>,
    S: Clone,
    M: Fn(Factor, Factor) -> Factor,
    F: Fn(Duration, Factor) -> Duration,
    J: Fn(Duration) -> u64,

    requires
        collect_laws::collect_trace(settings, runs, items, delays, ops),
        collect_laws::collect_ends(runs.last(), outcome, next, result, ops),
        collect_laws::collect_behaves(runs, items, outcome, behaves),
        collect_laws::collect_asks(runs, items, outcome, next, answers),
        collect_and_retry_laws::collect_and_retry_trace(settings, retrying, outcomes, pauses, ops),
        collect_and_retry_laws::collect_and_retry_ends(
            retrying.last(),
            last_outcome,
            last_next,
            last_retryable,
            last_result,
            ops,
        ),
        collect_and_retry_laws::collect_and_retry_behaves(
            retrying,
            outcomes,
            last_outcome,
            behaves,
        ),
        collect_and_retry_laws::collect_and_retry_asks(
            retrying,
            outcomes,
            last_outcome,
            last_next,
            answers,
        ),
        collect_and_retry_laws::collect_and_retry_judges(
            outcomes,
            last_outcome,
            last_retryable,
            verdicts,
        ),
        runs[0].input() == retrying[0].last_input(),
        forall|errors: Seq<T::Error>| !#[trigger] verdicts(errors),
    ensures
        runs.len() == retrying.len(),
        collect_laws::collect_inputs(runs, runs.len())
            == collect_and_retry_laws::collect_and_retry_inputs(retrying, retrying.len()),
        match (result, last_result) {
            (Ok(a), Ok(b)) => a@ == b@,
            (Err(a), Err(b)) => a == b,
            _ => false,
        },
{
    let n = if items.len() <= outcomes.len() {
        items.len() as int
    } else {
        outcomes.len() as int
    };
    collecting_runs_correspond(
        settings,
        runs,
        items,
        delays,
        outcome,
        next,
        retrying,
        outcomes,
        pauses,
        last_outcome,
        last_next,
        behaves,
        answers,
        ops,
        n,
    );
    collect_laws::collect_gives_every_item(
        settings,
        runs,
        items,
        delays,
        outcome,
        next,
        result,
        ops,
    );
    collect_and_retry_laws::collect_and_retry_gives_every_item(
        settings,
        retrying,
        outcomes,
        pauses,
        last_outcome,
        last_next,
        last_retryable,
        last_result,
        ops,
    );
    assert(items.take(items.len() as int) =~= items);
    assert(outcomes.take(outcomes.len() as int) =~= outcomes);
    if items.len() < outcomes.len() {
        assert(outcomes[n] == outcome);
        collect_and_retry_laws::collect_and_retry_trace_round(
            settings,
            retrying,
            outcomes,
            pauses,
            ops,
            n,
        );
    } else if outcomes.len() < items.len() {
        assert(last_outcome == Ok::<T::Item, T::Error>(items[n]));
        collect_laws::collect_trace_round(settings, runs, items, delays, ops, n);
    } else {
        assert(outcome == last_outcome);
    }
}

/// The calls of a collecting and retrying run came to what `behaves` says of them, counted from
/// 0.
pub open spec fn outcomes_behave<I, E>(
    outcomes: Seq<Result<I, E>>,
    last_outcome: Result<I, E>,
    behaves: spec_fn(int) -> Result<I, E>,
) -> bool {
    &&& forall|i: int| 0 <= i < outcomes.len() ==> behaves(i) == #[trigger] outcomes[i]
    &&& behaves(outcomes.len() as int) == last_outcome
}

/// The two runs are alike at their first `i` calls.
proof fn retrying_runs_correspond<I, E>(
    errors: Seq<E>,
    outcome: Result<I, E>,
    outcomes: Seq<Result<I, E>>,
    last_outcome: Result<I, E>,
    behaves: spec_fn(int) -> Result<I, E>,
    i: int,
)
    requires
        retry_laws::retry_behaves(errors, outcome, behaves),
        outcomes_behave(outcomes, last_outcome, behaves),
        0 <= i <= errors.len(),
        i <= outcomes.len(),
    ensures
        forall|k: int| 0 <= k < i ==> #[trigger] outcomes[k] == Err::<I, E>(errors[k]),
        collect_and_retry_laws::failures(outcomes.take(i)) == errors.take(i),
        collect_and_retry_laws::successes(outcomes.take(i)) == Seq::<I>::empty(),
    decreases i,
{
    if i > 0 {
        let k = i - 1;
        retrying_runs_correspond(errors, outcome, outcomes, last_outcome, behaves, k);
        assert(behaves(k) == Err::<I, E>(errors[k]));
        assert(behaves(k) == outcomes[k]);
        assert(outcomes.take(i).drop_last() =~= outcomes.take(k));
        assert(errors.take(k).push(errors[k]) =~= errors.take(i));
    } else {
        assert(errors.take(i) =~= Seq::<E>::empty());
    }
}

/// A collecting and retrying run whose items never ask for another call is the retrying run:
/// under the same settings, with calls that come to the same and conditions that find the same of
/// the same errors, both make the same number of calls, show the same errors to their conditions
/// and end with the same error, or with the one item.
pub proof fn satisfied_run_is_retrying_run<U, T, C, D, S, I, E, M, F, J>(
    settings: Settings,
    runs: Seq<RetryRun<U, D>>,
    errors: Seq<E>,
    delays: Seq<Duration>,
    outcome: Result<I, E>,
    retryable: bool,
    result: Result<I, E>,
    retrying: Seq<CollectAndRetryRun<T, C, D, S>>,
    outcomes: Seq<Result<I, E>>,
    pauses: Seq<Duration>,
    last_outcome: Result<I, E>,
    last_next: Option<S>,
    last_retryable: bool,
    last_result: Result<Vec<I>, E>,
    behaves: spec_fn(int) -> Result<I, E>,
    answers: spec_fn(Seq<I>) -> Option<S>,
    verdicts: spec_fn(Seq<E>) -> bool,
    ops: &FloatOps<M, F, J>,
) where
    U: Task<Item = I, Error = E>,
    T: TaskWithParameter<S, Item = I, Error = E>,
    C: SuccessCondition<I, S>,
    D: Condition<E>,
    S: Clone,
    E: std::fmt::Debug,
    M: Fn(Factor, Factor) -> Factor,
    F: Fn(Duration, Factor) -> Duration,
    J: Fn(Duration) -> u64,

    requires
        retry_laws::retry_trace(settings, runs, errors, delays, ops),
        retry_laws::retry_ends(runs.last(), outcome, retryable, result, ops),
        retry_laws::retry_behaves(errors, outcome, behaves),
        retry_laws::retry_judges(errors, outcome, retryable, verdicts),
        collect_and_retry_laws::collect_and_retry_trace(settings, retrying, outcomes, pauses, ops),
        collect_and_retry_laws::collect_and_retry_ends(
            retrying.last(),
            last_outcome,
            last_next,
            last_retryable,
            last_result,
            ops,
        ),
        outcomes_behave(outcomes, last_outcome, behaves),
        collect_and_retry_laws::collect_and_retry_asks(
            retrying,
            outcomes,
            last_outcome,
            last_next,
            answers,
        ),
        collect_and_retry_laws::collect_and_retry_judges(
            outcomes,
            last_outcome,
            last_retryable,
            verdicts,
        ),
        forall|items: Seq<I>| #[trigger] answers(items) is None,
    ensures
        runs.len() == retrying.len(),
        forall|i: int|
            0 <= i < errors.len() ==> #[trigger] outcomes[i] == Err::<I, E>(errors[i]),
        last_outcome == outcome,
        match (result, last_result) {
            (Ok(item), Ok(items)) => items@ == seq![item],
            (Err(a), Err(b)) => a == b,
            _ => false,
        },
{
    let n = if errors.len() <= outcomes.len() {
        errors.len() as int
    } else {
        outcomes.len() as int
    };
    retrying_runs_correspond(errors, outcome, outcomes, last_outcome, behaves, n);
    retry_laws::retry_calls_are_bounded(settings, runs, errors, delays, ops, n);
    retry_laws::retry_gives_its_outcome(runs.last(), outcome, retryable, result, ops);
    collect_and_retry_laws::collect_and_retry_keeps_every_item(
        settings,
        retrying,
        outcomes,
        pauses,
        ops,
        n,
    );
    collect_and_retry_laws::collect_and_retry_gives_every_item(
        settings,
        retrying,
        outcomes,
        pauses,
        last_outcome,
        last_next,
        last_retryable,
        last_result,
        ops,
    );
    assert(errors.take(errors.len() as int) =~= errors);
    assert(outcomes.take(outcomes.len() as int) =~= outcomes);
    if errors.len() < outcomes.len() {
        assert(behaves(n) == outcomes[n]);
        collect_and_retry_laws::collect_and_retry_trace_round(
            settings,
            retrying,
            outcomes,
            pauses,
            ops,
            n,
        );
    } else if outcomes.len() < errors.len() {
        assert(behaves(n) == Err::<I, E>(errors[n]));
        retry_laws::retry_trace_round(settings, runs, errors, delays, ops, n);
    } else if let Ok(item) = outcome {
        assert(Seq::<I>::empty().push(item) =~= seq![item]);
    }
}

} // verus!
