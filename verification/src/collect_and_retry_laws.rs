//! What holds of a collecting and retrying run as a whole.

use crate::backoff::{Backoff, BackoffState};
use crate::collect_and_retry_run::{CollectAndRetryCall, CollectAndRetryRun};
use crate::duration::Duration;
use crate::numeric::{Factor, FloatOps};
use crate::policy::Settings;
use crate::step::Step;
use crate::task::{Condition, SuccessCondition, TaskWithParameter};
use vstd::prelude::*;

verus! {

/// One round: `run` called its task as `fut`, which left `called` and came to `outcome`, and
/// went on as `next` after `delay`.
pub open spec fn collect_and_retry_round<T, C, D, S, M, F, J>(
    run: CollectAndRetryRun<T, C, D, S>,
    fut: T::Fut,
    called: CollectAndRetryCall<T, C, D, S>,
    outcome: Result<T::Item, T::Error>,
    delay: Duration,
    next: CollectAndRetryRun<T, C, D, S>,
    ops: &FloatOps<M, F, J>,
) -> bool where
    T: TaskWithParameter<S>,
    C: SuccessCondition<T::Item, S>,
    D: Condition<T::Error>,
    S: Clone,
    M: Fn(Factor, Factor) -> Factor,
    F: Fn(Duration, Factor) -> Duration,
    J: Fn(Duration) -> u64,
 {
    &&& run.called(fut, called)
    &&& called.resumed(
        outcome,
        ops,
        match outcome {
            Ok(_) => Step::Again { run: next, delay },
            Err(error) => Step::Retry { run: next, error, delay },
        },
    )
}

/// A run with all that came of it before its last call: its states at its calls, the first of
/// them under `settings`, and for each call but the last the outcome and the pause after it.
pub open spec fn collect_and_retry_trace<T, C, D, S, M, F, J>(
    settings: Settings,
    runs: Seq<CollectAndRetryRun<T, C, D, S>>,
    outcomes: Seq<Result<T::Item, T::Error>>,
    delays: Seq<Duration>,
    ops: &FloatOps<M, F, J>,
) -> bool where
    T: TaskWithParameter<S>,
    C: SuccessCondition<T::Item, S>,
    D: Condition<T::Error>,
    S: Clone,
    M: Fn(Factor, Factor) -> Factor,
    F: Fn(Duration, Factor) -> Duration,
    J: Fn(Duration) -> u64,
 {
    &&& runs.len() == outcomes.len() + 1
    &&& delays.len() == outcomes.len()
    &&& runs[0].starts(
        settings,
        runs[0].task(),
        runs[0].success_condition(),
        runs[0].error_condition(),
        runs[0].last_input(),
    )
    &&& forall|i: int|
        0 <= i < outcomes.len() ==> exists|
            fut: T::Fut,
            called: CollectAndRetryCall<T, C, D, S>,
        | #[trigger]
            collect_and_retry_round(
                runs[i],
                fut,
                called,
                #[trigger] outcomes[i],
                delays[i],
                runs[i + 1],
                ops,
            )
}

/// The run of a trace made its last call, which came to `outcome`, and ended with `result`; an
/// item of that call asked for a call with `next` or for none, and an error was found `retryable`
/// or not.
pub open spec fn collect_and_retry_ends<T, C, D, S, M, F, J>(
    run: CollectAndRetryRun<T, C, D, S>,
    outcome: Result<T::Item, T::Error>,
    next: Option<S>,
    retryable: bool,
    result: Result<Vec<T::Item>, T::Error>,
    ops: &FloatOps<M, F, J>,
) -> bool where
    T: TaskWithParameter<S>,
    C: SuccessCondition<T::Item, S>,
    D: Condition<T::Error>,
    S: Clone,
    M: Fn(Factor, Factor) -> Factor,
    F: Fn(Duration, Factor) -> Duration,
    J: Fn(Duration) -> u64,
 {
    exists|fut: T::Fut, called: CollectAndRetryCall<T, C, D, S>| #[trigger]
        run.called(fut, called) && called.resumed_given(
            outcome,
            next,
            retryable,
            ops,
            Step::Finish(result),
        )
}

/// A run that finishes when `outcome` came of its call has ended, with an item that asked for a
/// call or for none, or an error found retryable or not.
pub proof fn collect_and_retry_finish_ends<T, C, D, S, M, F, J>(
    run: CollectAndRetryRun<T, C, D, S>,
    fut: T::Fut,
    called: CollectAndRetryCall<T, C, D, S>,
    outcome: Result<T::Item, T::Error>,
    result: Result<Vec<T::Item>, T::Error>,
    ops: &FloatOps<M, F, J>,
) -> (verdict: (Option<S>, bool)) where
    T: TaskWithParameter<S>,
    C: SuccessCondition<T::Item, S>,
    D: Condition<T::Error>,
    S: Clone,
    M: Fn(Factor, Factor) -> Factor,
    F: Fn(Duration, Factor) -> Duration,
    J: Fn(Duration) -> u64,

    requires
        run.called(fut, called),
        called.resumed(outcome, ops, Step::Finish(result)),
    ensures
        collect_and_retry_ends(run, outcome, verdict.0, verdict.1, result, ops),
{
    choose|next: Option<S>, retryable: bool| #[trigger]
        called.resumed_given(outcome, next, retryable, ops, Step::Finish(result))
}

/// The lengths of the pauses after the successes, or after the failures, among the first `n`
/// outcomes, in order.
pub open spec fn pauses_after<I, E>(
    success: bool,
    outcomes: Seq<Result<I, E>>,
    delays: Seq<Duration>,
    n: nat,
) -> Seq<nat>
    decreases n,
{
    if n == 0 {
        Seq::empty()
    } else {
        let before = pauses_after(success, outcomes, delays, (n - 1) as nat);
        if (outcomes[n - 1] is Ok) == success {
            before.push(delays[n - 1]@)
        } else {
            before
        }
    }
}

/// The pauses for successes, or for failures, that are left in a run.
pub open spec fn backoffs_for<T, C, D, S>(
    success: bool,
    run: CollectAndRetryRun<T, C, D, S>,
) -> BackoffState where
    T: TaskWithParameter<S>,
    C: SuccessCondition<T::Item, S>,
    D: Condition<T::Error>,
    S: Clone,
 {
    if success {
        run.success_backoffs()
    } else {
        run.error_backoffs()
    }
}

/// The pauses for successes, or for failures, that are left at first and after each of the
/// former, or the latter, among the first `n` outcomes.
pub open spec fn states_after<T, C, D, S>(
    success: bool,
    runs: Seq<CollectAndRetryRun<T, C, D, S>>,
    outcomes: Seq<Result<T::Item, T::Error>>,
    n: nat,
) -> Seq<BackoffState> where
    T: TaskWithParameter<S>,
    C: SuccessCondition<T::Item, S>,
    D: Condition<T::Error>,
    S: Clone,

    decreases n,
{
    if n == 0 {
        seq![backoffs_for(success, runs[0])]
    } else {
        let before = states_after(success, runs, outcomes, (n - 1) as nat);
        if (outcomes[n - 1] is Ok) == success {
            before.push(backoffs_for(success, runs[n as int]))
        } else {
            before
        }
    }
}

/// The items among `outcomes`, in order.
pub open spec fn successes<I, E>(outcomes: Seq<Result<I, E>>) -> Seq<I>
    decreases outcomes.len(),
{
    if outcomes.len() == 0 {
        Seq::empty()
    } else {
        match outcomes.last() {
            Ok(item) => successes(outcomes.drop_last()).push(item),
            Err(_) => successes(outcomes.drop_last()),
        }
    }
}

/// The errors among `outcomes`, in order.
pub open spec fn failures<I, E>(outcomes: Seq<Result<I, E>>) -> Seq<E>
    decreases outcomes.len(),
{
    if outcomes.len() == 0 {
        Seq::empty()
    } else {
        match outcomes.last() {
            Ok(_) => failures(outcomes.drop_last()),
            Err(error) => failures(outcomes.drop_last()).push(error),
        }
    }
}

/// A success takes the next pause for a success, adds its item to the results and goes on with
/// the input that the condition found in it; the pauses for a failure stay as they are.
pub proof fn success_round_goes_on<T, C, D, S, M, F, J>(
    run: CollectAndRetryRun<T, C, D, S>,
    fut: T::Fut,
    called: CollectAndRetryCall<T, C, D, S>,
    item: T::Item,
    delay: Duration,
    next: CollectAndRetryRun<T, C, D, S>,
    ops: &FloatOps<M, F, J>,
) where
    T: TaskWithParameter<S>,
    C: SuccessCondition<T::Item, S>,
    D: Condition<T::Error>,
    S: Clone,
    M: Fn(Factor, Factor) -> Factor,
    F: Fn(Duration, Factor) -> Duration,
    J: Fn(Duration) -> u64,

    requires
        collect_and_retry_round(run, fut, called, Ok(item), delay, next, ops),
    ensures
        exists|input: S| #[trigger]
            vstd::pervasive::strictly_cloned(run.last_input(), input)
                && run.task().called_with(input, fut, &next.task()),
        run.success_condition().judged_result(
            &item,
            Some(next.last_input()),
            &next.success_condition(),
        ),
        run.success_backoffs().pauses(ops, delay@, next.success_backoffs()),
        next.error_backoffs() == run.error_backoffs(),
        next.results() == run.results().push(item),
{
}

/// A failure takes the next pause for a failure and goes on with the same input; the results and
/// the pauses for a success stay as they are.
pub proof fn failure_round_goes_on<T, C, D, S, M, F, J>(
    run: CollectAndRetryRun<T, C, D, S>,
    fut: T::Fut,
    called: CollectAndRetryCall<T, C, D, S>,
    error: T::Error,
    delay: Duration,
    next: CollectAndRetryRun<T, C, D, S>,
    ops: &FloatOps<M, F, J>,
) where
    T: TaskWithParameter<S>,
    C: SuccessCondition<T::Item, S>,
    D: Condition<T::Error>,
    S: Clone,
    M: Fn(Factor, Factor) -> Factor,
    F: Fn(Duration, Factor) -> Duration,
    J: Fn(Duration) -> u64,

    requires
        collect_and_retry_round(run, fut, called, Err(error), delay, next, ops),
    ensures
        exists|input: S| #[trigger]
            vstd::pervasive::strictly_cloned(run.last_input(), input)
                && run.task().called_with(input, fut, &next.task()),
        run.error_condition().judged(&error, true, &next.error_condition()),
        next.last_input() == run.last_input(),
        run.error_backoffs().pauses(ops, delay@, next.error_backoffs()),
        next.success_backoffs() == run.success_backoffs(),
        next.results() == run.results(),
{
}

/// The round of a trace after its `i`-th call, counted from 0, and what it leads to.
pub proof fn collect_and_retry_trace_round<T, C, D, S, M, F, J>(
    settings: Settings,
    runs: Seq<CollectAndRetryRun<T, C, D, S>>,
    outcomes: Seq<Result<T::Item, T::Error>>,
    delays: Seq<Duration>,
    ops: &FloatOps<M, F, J>,
    i: int,
) -> (round: (T::Fut, CollectAndRetryCall<T, C, D, S>)) where
    T: TaskWithParameter<S>,
    C: SuccessCondition<T::Item, S>,
    D: Condition<T::Error>,
    S: Clone,
    M: Fn(Factor, Factor) -> Factor,
    F: Fn(Duration, Factor) -> Duration,
    J: Fn(Duration) -> u64,

    requires
        collect_and_retry_trace(settings, runs, outcomes, delays, ops),
        0 <= i < outcomes.len(),
    ensures
        collect_and_retry_round(
            runs[i],
            round.0,
            round.1,
            outcomes[i],
            delays[i],
            runs[i + 1],
            ops,
        ),
        match outcomes[i] {
            Ok(item) => {
                &&& runs[i].success_condition().judged_result(
                    &item,
                    Some(runs[i + 1].last_input()),
                    &runs[i + 1].success_condition(),
                )
                &&& runs[i].success_backoffs().pauses(
                    ops,
                    delays[i]@,
                    runs[i + 1].success_backoffs(),
                )
                &&& runs[i + 1].error_backoffs() == runs[i].error_backoffs()
                &&& runs[i + 1].results() == runs[i].results().push(item)
            },
            Err(error) => {
                &&& runs[i].error_condition().judged(
                    &error,
                    true,
                    &runs[i + 1].error_condition(),
                )
                &&& runs[i].error_backoffs().pauses(ops, delays[i]@, runs[i + 1].error_backoffs())
                &&& runs[i + 1].success_backoffs() == runs[i].success_backoffs()
                &&& runs[i + 1].results() == runs[i].results()
                &&& runs[i + 1].last_input() == runs[i].last_input()
            },
        },
{
    let (run, outcome, delay, next) = (runs[i], outcomes[i], delays[i], runs[i + 1]);
    let (fut, called) = choose|fut: T::Fut, called: CollectAndRetryCall<T, C, D, S>| #[trigger]
        collect_and_retry_round(run, fut, called, outcome, delay, next, ops);
    match outcome {
        Ok(item) => success_round_goes_on(run, fut, called, item, delay, next, ops),
        Err(error) => failure_round_goes_on(run, fut, called, error, delay, next, ops),
    }
    (fut, called)
}

/// A clone is the value that it is a clone of.
pub open spec fn clones_exactly<S: Clone>() -> bool {
    forall|a: S, b: S| #[trigger] vstd::pervasive::strictly_cloned(a, b) ==> a == b
}

/// Where clones are exact, each call is with the last input.
pub proof fn exact_clones_are_called_with<T, C, D, S>(
    run: CollectAndRetryRun<T, C, D, S>,
    fut: T::Fut,
    called: CollectAndRetryCall<T, C, D, S>,
) where
    T: TaskWithParameter<S>,
    C: SuccessCondition<T::Item, S>,
    D: Condition<T::Error>,
    S: Clone,

    requires
        run.called(fut, called),
        clones_exactly::<S>(),
    ensures
        run.task().called_with(run.last_input(), fut, &called.task()),
{
}

/// At each call, the run holds the items that came of the calls before, in order, and has one
/// pause less for each success and for each failure, of the same longest length.
pub proof fn collect_and_retry_keeps_every_item<T, C, D, S, M, F, J>(
    settings: Settings,
    runs: Seq<CollectAndRetryRun<T, C, D, S>>,
    outcomes: Seq<Result<T::Item, T::Error>>,
    delays: Seq<Duration>,
    ops: &FloatOps<M, F, J>,
    i: int,
) where
    T: TaskWithParameter<S>,
    C: SuccessCondition<T::Item, S>,
    D: Condition<T::Error>,
    S: Clone,
    M: Fn(Factor, Factor) -> Factor,
    F: Fn(Duration, Factor) -> Duration,
    J: Fn(Duration) -> u64,

    requires
        collect_and_retry_trace(settings, runs, outcomes, delays, ops),
        0 <= i <= outcomes.len(),
    ensures
        runs[i].results() == successes(outcomes.take(i)),
        runs[i].success_backoffs().left == settings.max_retries - runs[i].results().len(),
        runs[i].error_backoffs().left == settings.max_retries - (i - runs[i].results().len()),
        runs[i].success_backoffs().max_delay == settings.max_delay,
        runs[i].error_backoffs().max_delay == settings.max_delay,
    decreases i,
{
    if i > 0 {
        collect_and_retry_keeps_every_item(settings, runs, outcomes, delays, ops, i - 1);
        collect_and_retry_trace_round(settings, runs, outcomes, delays, ops, i - 1);
        let (run, delay, next) = (runs[i - 1], delays[i - 1], runs[i]);
        assert(outcomes.take(i).drop_last() =~= outcomes.take(i - 1));
        match outcomes[i - 1] {
            Ok(_) => crate::backoff_laws::pause_spends_one(
                run.success_backoffs(),
                ops,
                delay@,
                next.success_backoffs(),
            ),
            Err(_) => crate::backoff_laws::pause_spends_one(
                run.error_backoffs(),
                ops,
                delay@,
                next.error_backoffs(),
            ),
        }
    }
}

/// No pause of a run, after a success or a failure, is longer than the longest one allowed.
pub proof fn collect_and_retry_pauses_are_bounded<T, C, D, S, M, F, J>(
    settings: Settings,
    runs: Seq<CollectAndRetryRun<T, C, D, S>>,
    outcomes: Seq<Result<T::Item, T::Error>>,
    delays: Seq<Duration>,
    ops: &FloatOps<M, F, J>,
    i: int,
) where
    T: TaskWithParameter<S>,
    C: SuccessCondition<T::Item, S>,
    D: Condition<T::Error>,
    S: Clone,
    M: Fn(Factor, Factor) -> Factor,
    F: Fn(Duration, Factor) -> Duration,
    J: Fn(Duration) -> u64,

    requires
        collect_and_retry_trace(settings, runs, outcomes, delays, ops),
        0 <= i < delays.len(),
    ensures
        settings.max_delay matches Some(max) ==> delays[i]@ <= max@,
{
    collect_and_retry_keeps_every_item(settings, runs, outcomes, delays, ops, i);
    collect_and_retry_trace_round(settings, runs, outcomes, delays, ops, i);
}

/// The pauses after the successes of a run are one schedule of its policy, and the pauses after
/// its failures another: neither moves the other on.
pub proof fn collect_and_retry_pauses_are_scheduled<T, C, D, S, M, F, J>(
    settings: Settings,
    runs: Seq<CollectAndRetryRun<T, C, D, S>>,
    outcomes: Seq<Result<T::Item, T::Error>>,
    delays: Seq<Duration>,
    ops: &FloatOps<M, F, J>,
    success: bool,
    n: nat,
) where
    T: TaskWithParameter<S>,
    C: SuccessCondition<T::Item, S>,
    D: Condition<T::Error>,
    S: Clone,
    M: Fn(Factor, Factor) -> Factor,
    F: Fn(Duration, Factor) -> Duration,
    J: Fn(Duration) -> u64,

    requires
        collect_and_retry_trace(settings, runs, outcomes, delays, ops),
        n <= outcomes.len(),
    ensures
        crate::backoff_laws::is_schedule(
            states_after(success, runs, outcomes, n),
            pauses_after(success, outcomes, delays, n),
            ops,
        ),
        settings.starts(settings.backoff, states_after(success, runs, outcomes, n)[0]),
        states_after(success, runs, outcomes, n).last() == backoffs_for(success, runs[n as int]),
    decreases n,
{
    if n > 0 {
        let m = (n - 1) as nat;
        collect_and_retry_pauses_are_scheduled(
            settings,
            runs,
            outcomes,
            delays,
            ops,
            success,
            m,
        );
        collect_and_retry_trace_round(settings, runs, outcomes, delays, ops, m as int);
        let states = states_after(success, runs, outcomes, m);
        let lengths = pauses_after(success, outcomes, delays, m);
        if (outcomes[m as int] is Ok) == success {
            let more_states = states_after(success, runs, outcomes, n);
            let more_lengths = pauses_after(success, outcomes, delays, n);
            assert forall|i: int| 0 <= i < more_lengths.len() implies more_states[i].pauses(
                ops,
                #[trigger] more_lengths[i],
                more_states[i + 1],
            ) by {
                if i < lengths.len() {
                    assert(states[i].pauses(ops, lengths[i], states[i + 1]));
                }
            }
        }
    }
}

/// Without jitter, and where `multiply` and `scale` give one result for the same arguments, the
/// pauses after the successes of a run are the first ones of all the pauses of its policy, and
/// so are the pauses after its failures.
pub proof fn collect_and_retry_waits_are_the_pauses<T, C, D, S, M, F, J>(
    settings: Settings,
    runs: Seq<CollectAndRetryRun<T, C, D, S>>,
    outcomes: Seq<Result<T::Item, T::Error>>,
    delays: Seq<Duration>,
    all: Seq<nat>,
    ops: &FloatOps<M, F, J>,
    success: bool,
) where
    T: TaskWithParameter<S>,
    C: SuccessCondition<T::Item, S>,
    D: Condition<T::Error>,
    S: Clone,
    M: Fn(Factor, Factor) -> Factor,
    F: Fn(Duration, Factor) -> Duration,
    J: Fn(Duration) -> u64,

    requires
        collect_and_retry_trace(settings, runs, outcomes, delays, ops),
        crate::backoff_laws::are_all_pauses(settings, all, ops),
        !settings.jitter,
        crate::backoff_laws::is_function(ops),
    ensures
        pauses_after(success, outcomes, delays, outcomes.len()).len() <= all.len(),
        forall|i: int|
            0 <= i < pauses_after(success, outcomes, delays, outcomes.len()).len()
                ==> #[trigger] pauses_after(success, outcomes, delays, outcomes.len())[i]
                == all[i],
{
    let n = outcomes.len();
    collect_and_retry_pauses_are_scheduled(settings, runs, outcomes, delays, ops, success, n);
    let states = states_after(success, runs, outcomes, n);
    let lengths = pauses_after(success, outcomes, delays, n);
    crate::backoff_laws::schedule_is_prefix(settings, all, states, lengths, ops);
    assert forall|i: int| 0 <= i < lengths.len() implies #[trigger] lengths[i] == all[i] by {
        assert(lengths[i] == all.take(lengths.len() as int)[i]);
    }
}

/// A run goes on after at most as many successes, and after at most as many failures, as there
/// are retries: its task is called at most once more than twice their number.
pub proof fn collect_and_retry_calls_are_bounded<T, C, D, S, M, F, J>(
    settings: Settings,
    runs: Seq<CollectAndRetryRun<T, C, D, S>>,
    outcomes: Seq<Result<T::Item, T::Error>>,
    delays: Seq<Duration>,
    ops: &FloatOps<M, F, J>,
) where
    T: TaskWithParameter<S>,
    C: SuccessCondition<T::Item, S>,
    D: Condition<T::Error>,
    S: Clone,
    M: Fn(Factor, Factor) -> Factor,
    F: Fn(Duration, Factor) -> Duration,
    J: Fn(Duration) -> u64,

    requires
        collect_and_retry_trace(settings, runs, outcomes, delays, ops),
    ensures
        successes(outcomes).len() <= settings.max_retries,
        outcomes.len() - successes(outcomes).len() <= settings.max_retries,
        runs.len() <= 2 * settings.max_retries + 1,
{
    let n = outcomes.len() as int;
    collect_and_retry_keeps_every_item(settings, runs, outcomes, delays, ops, n);
    assert(outcomes.take(n) =~= outcomes);
}

/// A run that ends with results gives the items of all its calls in order, and these are at most
/// one more than there are retries; a run that ends with an error gives that of its last call.
pub proof fn collect_and_retry_gives_every_item<T, C, D, S, M, F, J>(
    settings: Settings,
    runs: Seq<CollectAndRetryRun<T, C, D, S>>,
    outcomes: Seq<Result<T::Item, T::Error>>,
    delays: Seq<Duration>,
    outcome: Result<T::Item, T::Error>,
    next: Option<S>,
    retryable: bool,
    result: Result<Vec<T::Item>, T::Error>,
    ops: &FloatOps<M, F, J>,
) where
    T: TaskWithParameter<S>,
    C: SuccessCondition<T::Item, S>,
    D: Condition<T::Error>,
    S: Clone,
    M: Fn(Factor, Factor) -> Factor,
    F: Fn(Duration, Factor) -> Duration,
    J: Fn(Duration) -> u64,

    requires
        collect_and_retry_trace(settings, runs, outcomes, delays, ops),
        collect_and_retry_ends(runs.last(), outcome, next, retryable, result, ops),
    ensures
        match outcome {
            Ok(item) => {
                &&& result matches Ok(results)
                &&& results@ == successes(outcomes).push(item)
                &&& results@.len() <= settings.max_retries + 1
            },
            Err(error) => result == Err::<Vec<T::Item>, T::Error>(error),
        },
{
    let n = outcomes.len() as int;
    collect_and_retry_keeps_every_item(settings, runs, outcomes, delays, ops, n);
    assert(outcomes.take(n) =~= outcomes);
}

/// After a failure that is found retryable, the run goes on as long as there were fewer failures
/// than retries, and after that gives the error. A task that only fails is then called exactly
/// once more than there are retries.
pub proof fn persistent_failures_exhaust_retries<T, C, D, S, M, F, J>(
    settings: Settings,
    runs: Seq<CollectAndRetryRun<T, C, D, S>>,
    outcomes: Seq<Result<T::Item, T::Error>>,
    delays: Seq<Duration>,
    ops: &FloatOps<M, F, J>,
    fut: T::Fut,
    called: CollectAndRetryCall<T, C, D, S>,
    error: T::Error,
    next: Option<S>,
    step: Step<CollectAndRetryRun<T, C, D, S>, Vec<T::Item>, T::Error>,
) where
    T: TaskWithParameter<S>,
    C: SuccessCondition<T::Item, S>,
    D: Condition<T::Error>,
    S: Clone,
    M: Fn(Factor, Factor) -> Factor,
    F: Fn(Duration, Factor) -> Duration,
    J: Fn(Duration) -> u64,

    requires
        collect_and_retry_trace(settings, runs, outcomes, delays, ops),
        runs.last().called(fut, called),
        called.resumed_given(Err(error), next, true, ops, step),
    ensures
        outcomes.len() - successes(outcomes).len() < settings.max_retries ==> step is Retry,
        outcomes.len() - successes(outcomes).len() == settings.max_retries ==> step == Step::<
            CollectAndRetryRun<T, C, D, S>,
            Vec<T::Item>,
            T::Error,
        >::Finish(Err(error)),
        successes(outcomes).len() == 0 && !(step is Retry) ==> runs.len()
            == settings.max_retries + 1,
{
    let n = outcomes.len() as int;
    collect_and_retry_keeps_every_item(settings, runs, outcomes, delays, ops, n);
    assert(outcomes.take(n) =~= outcomes);
}

/// After an item that asks for another call, the run goes on as long as there were fewer
/// successes than retries, and after that gives all items.
pub proof fn persistent_successes_exhaust_retries<T, C, D, S, M, F, J>(
    settings: Settings,
    runs: Seq<CollectAndRetryRun<T, C, D, S>>,
    outcomes: Seq<Result<T::Item, T::Error>>,
    delays: Seq<Duration>,
    ops: &FloatOps<M, F, J>,
    fut: T::Fut,
    called: CollectAndRetryCall<T, C, D, S>,
    item: T::Item,
    next: Option<S>,
    retryable: bool,
    step: Step<CollectAndRetryRun<T, C, D, S>, Vec<T::Item>, T::Error>,
) where
    T: TaskWithParameter<S>,
    C: SuccessCondition<T::Item, S>,
    D: Condition<T::Error>,
    S: Clone,
    M: Fn(Factor, Factor) -> Factor,
    F: Fn(Duration, Factor) -> Duration,
    J: Fn(Duration) -> u64,

    requires
        collect_and_retry_trace(settings, runs, outcomes, delays, ops),
        runs.last().called(fut, called),
        called.resumed_given(Ok(item), next, retryable, ops, step),
        next is Some,
    ensures
        successes(outcomes).len() < settings.max_retries ==> step is Again,
        successes(outcomes).len() == settings.max_retries ==> (step matches Step::Finish(
            Ok(results),
        ) && results@ == successes(outcomes).push(item)),
{
    let n = outcomes.len() as int;
    collect_and_retry_keeps_every_item(settings, runs, outcomes, delays, ops, n);
    assert(outcomes.take(n) =~= outcomes);
}

/// An item that asks for no other call ends the run, which gives it after those before.
pub proof fn satisfied_success_is_final<T, C, D, S, M, F, J>(
    called: CollectAndRetryCall<T, C, D, S>,
    ops: &FloatOps<M, F, J>,
    item: T::Item,
    retryable: bool,
    step: Step<CollectAndRetryRun<T, C, D, S>, Vec<T::Item>, T::Error>,
) where
    T: TaskWithParameter<S>,
    C: SuccessCondition<T::Item, S>,
    D: Condition<T::Error>,
    S: Clone,
    M: Fn(Factor, Factor) -> Factor,
    F: Fn(Duration, Factor) -> Duration,
    J: Fn(Duration) -> u64,

    requires
        called.resumed_given(Ok(item), None, retryable, ops, step),
    ensures
        step matches Step::Finish(Ok(results)) && results@ == called.results().push(item),
{
}

/// An error that the condition finds not retryable ends the run at once and is what it gives,
/// whatever was collected.
pub proof fn refused_failure_is_final<T, C, D, S, M, F, J>(
    called: CollectAndRetryCall<T, C, D, S>,
    ops: &FloatOps<M, F, J>,
    error: T::Error,
    next: Option<S>,
    step: Step<CollectAndRetryRun<T, C, D, S>, Vec<T::Item>, T::Error>,
) where
    T: TaskWithParameter<S>,
    C: SuccessCondition<T::Item, S>,
    D: Condition<T::Error>,
    S: Clone,
    M: Fn(Factor, Factor) -> Factor,
    F: Fn(Duration, Factor) -> Duration,
    J: Fn(Duration) -> u64,

    requires
        called.resumed_given(Err(error), next, false, ops, step),
    ensures
        step == Step::<CollectAndRetryRun<T, C, D, S>, Vec<T::Item>, T::Error>::Finish(
            Err(error),
        ),
{
}

/// The inputs of the first `n` calls of a run, which are with clones of them.
pub open spec fn collect_and_retry_inputs<T, C, D, S>(
    runs: Seq<CollectAndRetryRun<T, C, D, S>>,
    n: nat,
) -> Seq<S> where
    T: TaskWithParameter<S>,
    C: SuccessCondition<T::Item, S>,
    D: Condition<T::Error>,
    S: Clone,
 {
    Seq::new(n, |i: int| runs[i].last_input())
}

/// Each call of the run came to what `behaves` says of the inputs up to it.
pub open spec fn collect_and_retry_behaves<T, C, D, S>(
    runs: Seq<CollectAndRetryRun<T, C, D, S>>,
    outcomes: Seq<Result<T::Item, T::Error>>,
    outcome: Result<T::Item, T::Error>,
    behaves: spec_fn(Seq<S>) -> Result<T::Item, T::Error>,
) -> bool where
    T: TaskWithParameter<S>,
    C: SuccessCondition<T::Item, S>,
    D: Condition<T::Error>,
    S: Clone,
 {
    &&& forall|i: int|
        0 <= i < outcomes.len() ==> behaves(collect_and_retry_inputs(runs, (i + 1) as nat))
            == #[trigger] outcomes[i]
    &&& behaves(collect_and_retry_inputs(runs, outcomes.len() + 1)) == outcome
}

/// The condition on results found in each item what `answers` says of the items up to it: the
/// input of the calls to come, or `next` in an item of the last call.
pub open spec fn collect_and_retry_asks<T, C, D, S>(
    runs: Seq<CollectAndRetryRun<T, C, D, S>>,
    outcomes: Seq<Result<T::Item, T::Error>>,
    outcome: Result<T::Item, T::Error>,
    next: Option<S>,
    answers: spec_fn(Seq<T::Item>) -> Option<S>,
) -> bool where
    T: TaskWithParameter<S>,
    C: SuccessCondition<T::Item, S>,
    D: Condition<T::Error>,
    S: Clone,
 {
    &&& forall|i: int|
        0 <= i < outcomes.len() ==> (#[trigger] outcomes[i] matches Ok(item) ==> answers(
            successes(outcomes.take(i)).push(item),
        ) == Some(runs[i + 1].last_input()))
    &&& outcome matches Ok(item) ==> next == answers(successes(outcomes).push(item))
}

/// The condition on errors found of each error what `verdicts` says of the errors up to it: those
/// after which the run went on were retryable, and an error of its last call was `retryable` or
/// not.
pub open spec fn collect_and_retry_judges<I, E>(
    outcomes: Seq<Result<I, E>>,
    outcome: Result<I, E>,
    retryable: bool,
    verdicts: spec_fn(Seq<E>) -> bool,
) -> bool {
    &&& forall|i: int|
        0 <= i < outcomes.len() ==> (#[trigger] outcomes[i] matches Err(error) ==> verdicts(
            failures(outcomes.take(i)).push(error),
        ))
    &&& outcome matches Err(error) ==> retryable == verdicts(failures(outcomes).push(error))
}

/// Two runs that start with the same input, whose calls come to the same on the same inputs and
/// whose conditions find the same in the same items, are called with the same inputs, and come to
/// the same, as far as both go on.
pub proof fn collecting_and_retrying_runs_agree<T, C, D, S, M, F, J>(
    settings: Settings,
    runs: Seq<CollectAndRetryRun<T, C, D, S>>,
    outcomes: Seq<Result<T::Item, T::Error>>,
    delays: Seq<Duration>,
    outcome: Result<T::Item, T::Error>,
    next: Option<S>,
    other_runs: Seq<CollectAndRetryRun<T, C, D, S>>,
    other_outcomes: Seq<Result<T::Item, T::Error>>,
    other_delays: Seq<Duration>,
    other_outcome: Result<T::Item, T::Error>,
    other_next: Option<S>,
    behaves: spec_fn(Seq<S>) -> Result<T::Item, T::Error>,
    answers: spec_fn(Seq<T::Item>) -> Option<S>,
    ops: &FloatOps<M, F, J>,
    i: int,
) where
    T: TaskWithParameter<S>,
    C: SuccessCondition<T::Item, S>,
    D: Condition<T::Error>,
    S: Clone,
    M: Fn(Factor, Factor) -> Factor,
    F: Fn(Duration, Factor) -> Duration,
    J: Fn(Duration) -> u64,

    requires
        collect_and_retry_trace(settings, runs, outcomes, delays, ops),
        collect_and_retry_behaves(runs, outcomes, outcome, behaves),
        collect_and_retry_asks(runs, outcomes, outcome, next, answers),
        collect_and_retry_trace(settings, other_runs, other_outcomes, other_delays, ops),
        collect_and_retry_behaves(other_runs, other_outcomes, other_outcome, behaves),
        collect_and_retry_asks(other_runs, other_outcomes, other_outcome, other_next, answers),
        runs[0].last_input() == other_runs[0].last_input(),
        0 <= i <= outcomes.len(),
        i <= other_outcomes.len(),
    ensures
        collect_and_retry_inputs(runs, (i + 1) as nat) == collect_and_retry_inputs(
            other_runs,
            (i + 1) as nat,
        ),
        runs[i].last_input() == other_runs[i].last_input(),
        outcomes.take(i) == other_outcomes.take(i),
    decreases i,
{
    let inputs = collect_and_retry_inputs(runs, (i + 1) as nat);
    let other_inputs = collect_and_retry_inputs(other_runs, (i + 1) as nat);
    if i > 0 {
        let k = i - 1;
        collecting_and_retrying_runs_agree(
            settings,
            runs,
            outcomes,
            delays,
            outcome,
            next,
            other_runs,
            other_outcomes,
            other_delays,
            other_outcome,
            other_next,
            behaves,
            answers,
            ops,
            k,
        );
        assert(outcomes[k] == other_outcomes[k]);
        assert(outcomes.take(k).push(outcomes[k]) =~= outcomes.take(i));
        assert(other_outcomes.take(k).push(other_outcomes[k]) =~= other_outcomes.take(i));
        collect_and_retry_trace_round(settings, runs, outcomes, delays, ops, k);
        collect_and_retry_trace_round(settings, other_runs, other_outcomes, other_delays, ops, k);
        assert(inputs =~= collect_and_retry_inputs(runs, i as nat).push(runs[i].last_input()));
        assert(other_inputs =~= collect_and_retry_inputs(other_runs, i as nat).push(
            other_runs[i].last_input(),
        ));
    } else {
        assert(inputs =~= other_inputs);
        assert(outcomes.take(i) =~= other_outcomes.take(i));
    }
}

/// A run ends no later than another one that starts with the same input, whose calls come to the
/// same on the same inputs and whose conditions find the same.
proof fn collect_and_retry_cannot_outlast<T, C, D, S, M, F, J>(
    settings: Settings,
    runs: Seq<CollectAndRetryRun<T, C, D, S>>,
    outcomes: Seq<Result<T::Item, T::Error>>,
    delays: Seq<Duration>,
    outcome: Result<T::Item, T::Error>,
    next: Option<S>,
    retryable: bool,
    other_runs: Seq<CollectAndRetryRun<T, C, D, S>>,
    other_outcomes: Seq<Result<T::Item, T::Error>>,
    other_delays: Seq<Duration>,
    other_outcome: Result<T::Item, T::Error>,
    other_next: Option<S>,
    other_retryable: bool,
    other_result: Result<Vec<T::Item>, T::Error>,
    behaves: spec_fn(Seq<S>) -> Result<T::Item, T::Error>,
    answers: spec_fn(Seq<T::Item>) -> Option<S>,
    verdicts: spec_fn(Seq<T::Error>) -> bool,
    ops: &FloatOps<M, F, J>,
) where
    T: TaskWithParameter<S>,
    C: SuccessCondition<T::Item, S>,
    D: Condition<T::Error>,
    S: Clone,
    M: Fn(Factor, Factor) -> Factor,
    F: Fn(Duration, Factor) -> Duration,
    J: Fn(Duration) -> u64,

    requires
        collect_and_retry_trace(settings, runs, outcomes, delays, ops),
        collect_and_retry_behaves(runs, outcomes, outcome, behaves),
        collect_and_retry_asks(runs, outcomes, outcome, next, answers),
        collect_and_retry_judges(outcomes, outcome, retryable, verdicts),
        collect_and_retry_trace(settings, other_runs, other_outcomes, other_delays, ops),
        collect_and_retry_ends(
            other_runs.last(),
            other_outcome,
            other_next,
            other_retryable,
            other_result,
            ops,
        ),
        collect_and_retry_behaves(other_runs, other_outcomes, other_outcome, behaves),
        collect_and_retry_asks(other_runs, other_outcomes, other_outcome, other_next, answers),
        collect_and_retry_judges(other_outcomes, other_outcome, other_retryable, verdicts),
        runs[0].last_input() == other_runs[0].last_input(),
    ensures
        outcomes.len() <= other_outcomes.len(),
{
    let m = other_outcomes.len() as int;
    if m < outcomes.len() {
        collecting_and_retrying_runs_agree(
            settings,
            runs,
            outcomes,
            delays,
            outcome,
            next,
            other_runs,
            other_outcomes,
            other_delays,
            other_outcome,
            other_next,
            behaves,
            answers,
            ops,
            m,
        );
        assert(other_outcomes.take(m) =~= other_outcomes);
        assert(other_outcome == outcomes[m]);
        collect_and_retry_keeps_every_item(settings, runs, outcomes, delays, ops, m);
        collect_and_retry_keeps_every_item(
            settings,
            other_runs,
            other_outcomes,
            other_delays,
            ops,
            m,
        );
        collect_and_retry_trace_round(settings, runs, outcomes, delays, ops, m);
    }
}

/// Two runs under the same settings that start with the same input, whose calls come to the same
/// on the same inputs and whose conditions find the same of the same items and errors, make the
/// same calls and end with the same result.
pub proof fn collect_and_retry_result_is_determined<T, C, D, S, M, F, J>(
    settings: Settings,
    runs: Seq<CollectAndRetryRun<T, C, D, S>>,
    outcomes: Seq<Result<T::Item, T::Error>>,
    delays: Seq<Duration>,
    outcome: Result<T::Item, T::Error>,
    next: Option<S>,
    retryable: bool,
    result: Result<Vec<T::Item>, T::Error>,
    other_runs: Seq<CollectAndRetryRun<T, C, D, S>>,
    other_outcomes: Seq<Result<T::Item, T::Error>>,
    other_delays: Seq<Duration>,
    other_outcome: Result<T::Item, T::Error>,
    other_next: Option<S>,
    other_retryable: bool,
    other_result: Result<Vec<T::Item>, T::Error>,
    behaves: spec_fn(Seq<S>) -> Result<T::Item, T::Error>,
    answers: spec_fn(Seq<T::Item>) -> Option<S>,
    verdicts: spec_fn(Seq<T::Error>) -> bool,
    ops: &FloatOps<M, F, J>,
) where
    T: TaskWithParameter<S>,
    C: SuccessCondition<T::Item, S>,
    D: Condition<T::Error>,
    S: Clone,
    M: Fn(Factor, Factor) -> Factor,
    F: Fn(Duration, Factor) -> Duration,
    J: Fn(Duration) -> u64,

    requires
        collect_and_retry_trace(settings, runs, outcomes, delays, ops),
        collect_and_retry_ends(runs.last(), outcome, next, retryable, result, ops),
        collect_and_retry_behaves(runs, outcomes, outcome, behaves),
        collect_and_retry_asks(runs, outcomes, outcome, next, answers),
        collect_and_retry_judges(outcomes, outcome, retryable, verdicts),
        collect_and_retry_trace(settings, other_runs, other_outcomes, other_delays, ops),
        collect_and_retry_ends(
            other_runs.last(),
            other_outcome,
            other_next,
            other_retryable,
            other_result,
            ops,
        ),
        collect_and_retry_behaves(other_runs, other_outcomes, other_outcome, behaves),
        collect_and_retry_asks(other_runs, other_outcomes, other_outcome, other_next, answers),
        collect_and_retry_judges(other_outcomes, other_outcome, other_retryable, verdicts),
        runs[0].last_input() == other_runs[0].last_input(),
    ensures
        collect_and_retry_inputs(runs, runs.len()) == collect_and_retry_inputs(
            other_runs,
            other_runs.len(),
        ),
        outcomes == other_outcomes,
        outcome == other_outcome,
        match (result, other_result) {
            (Ok(a), Ok(b)) => a@ == b@,
            (Err(a), Err(b)) => a == b,
            _ => false,
        },
{
    collect_and_retry_cannot_outlast(
        settings,
        runs,
        outcomes,
        delays,
        outcome,
        next,
        retryable,
        other_runs,
        other_outcomes,
        other_delays,
        other_outcome,
        other_next,
        other_retryable,
        other_result,
        behaves,
        answers,
        verdicts,
        ops,
    );
    collect_and_retry_cannot_outlast(
        settings,
        other_runs,
        other_outcomes,
        other_delays,
        other_outcome,
        other_next,
        other_retryable,
        runs,
        outcomes,
        delays,
        outcome,
        next,
        retryable,
        result,
        behaves,
        answers,
        verdicts,
        ops,
    );
    let n = outcomes.len() as int;
    collecting_and_retrying_runs_agree(
        settings,
        runs,
        outcomes,
        delays,
        outcome,
        next,
        other_runs,
        other_outcomes,
        other_delays,
        other_outcome,
        other_next,
        behaves,
        answers,
        ops,
        n,
    );
    assert(outcomes.take(n) =~= outcomes);
    assert(other_outcomes.take(n) =~= other_outcomes);
    collect_and_retry_gives_every_item(
        settings,
        runs,
        outcomes,
        delays,
        outcome,
        next,
        retryable,
        result,
        ops,
    );
    collect_and_retry_gives_every_item(
        settings,
        other_runs,
        other_outcomes,
        other_delays,
        other_outcome,
        other_next,
        other_retryable,
        other_result,
        ops,
    );
}

/// A run starts with its task and conditions, without results, with the first input, and with the
/// pauses of its policy for successes and again for failures.
pub proof fn collect_and_retry_starts_as_asked<T, C, D, S>(
    run: CollectAndRetryRun<T, C, D, S>,
    settings: Settings,
    task: T,
    success_condition: C,
    error_condition: D,
    start_value: S,
    success: bool,
) where
    T: TaskWithParameter<S>,
    C: SuccessCondition<T::Item, S>,
    D: Condition<T::Error>,
    S: Clone,

    requires
        run.starts(settings, task, success_condition, error_condition, start_value),
    ensures
        run.task() == task,
        run.success_condition() == success_condition,
        run.error_condition() == error_condition,
        run.last_input() == start_value,
        run.results().len() == 0,
        backoffs_for(success, run).backoff == settings.backoff,
        backoffs_for(success, run).current@ == 0x3FF0_0000_0000_0000,
        backoffs_for(success, run).jitter == settings.jitter,
        backoffs_for(success, run).delay == settings.delay,
        backoffs_for(success, run).max_delay == settings.max_delay,
        backoffs_for(success, run).left == settings.max_retries,
{
}

/// A call starts the task on a clone of the last input, and leaves all else as it is.
pub proof fn collect_and_retry_call_is_with_a_clone<T, C, D, S>(
    run: CollectAndRetryRun<T, C, D, S>,
    fut: T::Fut,
    called: CollectAndRetryCall<T, C, D, S>,
) where
    T: TaskWithParameter<S>,
    C: SuccessCondition<T::Item, S>,
    D: Condition<T::Error>,
    S: Clone,

    requires
        run.called(fut, called),
    ensures
        exists|input: S| #[trigger]
            call_ensures(S::clone, (&run.last_input(),), input) && run.task().called_with(
                input,
                fut,
                &called.task(),
            ),
        called.success_condition() == run.success_condition(),
        called.error_condition() == run.error_condition(),
        called.success_backoffs() == run.success_backoffs(),
        called.error_backoffs() == run.error_backoffs(),
        called.results() == run.results(),
        called.last_input() == run.last_input(),
{
    let input = choose|input: S| #[trigger]
        vstd::pervasive::strictly_cloned(run.last_input(), input)
            && run.task().called_with(input, fut, &called.task());
    assert(call_ensures(S::clone, (&run.last_input(),), input));
}

/// What is decided of an item: it is added to the results. Where it asks for a call and a pause
/// for a success is left, the run takes that pause and goes on with the input asked for;
/// otherwise it gives the results.
pub proof fn success_decision_takes_a_pause<T, C, D, S, M, F, J>(
    called: CollectAndRetryCall<T, C, D, S>,
    item: T::Item,
    next: Option<S>,
    ops: &FloatOps<M, F, J>,
    step: Step<CollectAndRetryRun<T, C, D, S>, Vec<T::Item>, T::Error>,
) where
    T: TaskWithParameter<S>,
    C: SuccessCondition<T::Item, S>,
    D: Condition<T::Error>,
    S: Clone,
    M: Fn(Factor, Factor) -> Factor,
    F: Fn(Duration, Factor) -> Duration,
    J: Fn(Duration) -> u64,

    requires
        called.decided_success(item, next, ops, step),
    ensures
        match step {
            Step::Again { run, delay } => {
                &&& next == Some(run.last_input())
                &&& run.task() == called.task()
                &&& run.success_condition() == called.success_condition()
                &&& run.error_condition() == called.error_condition()
                &&& run.results() == called.results().push(item)
                &&& called.success_backoffs().pauses(ops, delay@, run.success_backoffs())
                &&& run.success_backoffs().left == called.success_backoffs().left - 1
                &&& run.error_backoffs() == called.error_backoffs()
            },
            Step::Finish(result) => {
                &&& result matches Ok(results)
                &&& results@ == called.results().push(item)
                &&& next is None || called.success_backoffs().left == 0
            },
            Step::Retry { .. } => false,
        },
{
}

/// What is decided of an error: where it is retryable and a pause for a failure is left, the run
/// takes that pause and goes on with the input and the results that it has; otherwise it gives
/// the error.
pub proof fn failure_decision_takes_a_pause<T, C, D, S, M, F, J>(
    called: CollectAndRetryCall<T, C, D, S>,
    error: T::Error,
    retryable: bool,
    ops: &FloatOps<M, F, J>,
    step: Step<CollectAndRetryRun<T, C, D, S>, Vec<T::Item>, T::Error>,
) where
    T: TaskWithParameter<S>,
    C: SuccessCondition<T::Item, S>,
    D: Condition<T::Error>,
    S: Clone,
    M: Fn(Factor, Factor) -> Factor,
    F: Fn(Duration, Factor) -> Duration,
    J: Fn(Duration) -> u64,

    requires
        called.decided_failure(error, retryable, ops, step),
    ensures
        match step {
            Step::Retry { run, error: cause, delay } => {
                &&& retryable
                &&& cause == error
                &&& run.task() == called.task()
                &&& run.success_condition() == called.success_condition()
                &&& run.error_condition() == called.error_condition()
                &&& run.results() == called.results()
                &&& run.last_input() == called.last_input()
                &&& called.error_backoffs().pauses(ops, delay@, run.error_backoffs())
                &&& run.error_backoffs().left == called.error_backoffs().left - 1
                &&& run.success_backoffs() == called.success_backoffs()
            },
            Step::Finish(result) => {
                &&& result == Err::<Vec<T::Item>, T::Error>(error)
                &&& !retryable || called.error_backoffs().left == 0
            },
            Step::Again { .. } => false,
        },
{
}

/// What follows an item goes by what the condition on results itself finds in it: where that is
/// an input and a pause for a success is left, the run takes that pause and goes on with that
/// input; otherwise all items are the result. The condition on errors is not asked.
pub proof fn success_goes_by_the_answer<T, C, D, S, M, F, J>(
    called: CollectAndRetryCall<T, C, D, S>,
    ops: &FloatOps<M, F, J>,
    item: T::Item,
    step: Step<CollectAndRetryRun<T, C, D, S>, Vec<T::Item>, T::Error>,
) where
    T: TaskWithParameter<S>,
    C: SuccessCondition<T::Item, S>,
    D: Condition<T::Error>,
    S: Clone,
    M: Fn(Factor, Factor) -> Factor,
    F: Fn(Duration, Factor) -> Duration,
    J: Fn(Duration) -> u64,

    requires
        called.resumed(Ok(item), ops, step),
    ensures
        exists|found: Option<S>, after: C| #[trigger]
            called.success_condition().judged_result(&item, found, &after) && match step {
                Step::Again { run, delay } => {
                    &&& found == Some(run.last_input())
                    &&& run.task() == called.task()
                    &&& run.success_condition() == after
                    &&& run.error_condition() == called.error_condition()
                    &&& run.results() == called.results().push(item)
                    &&& called.success_backoffs().pauses(ops, delay@, run.success_backoffs())
                    &&& run.success_backoffs().left == called.success_backoffs().left - 1
                    &&& run.error_backoffs() == called.error_backoffs()
                },
                Step::Finish(result) => {
                    &&& result matches Ok(results)
                    &&& results@ == called.results().push(item)
                    &&& found is None || called.success_backoffs().left == 0
                },
                Step::Retry { .. } => false,
            },
{
    let (next, retryable) = choose|next: Option<S>, retryable: bool| #[trigger]
        called.resumed_given(Ok(item), next, retryable, ops, step);
    let judged = choose|judged: CollectAndRetryCall<T, C, D, S>| #[trigger]
        called.judges_success(item, next, judged) && judged.decided_success(
            item,
            next,
            ops,
            step,
        );
    assert(called.success_condition().judged_result(&item, next, &judged.success_condition()));
    success_decision_takes_a_pause(judged, item, next, ops, step);
}

/// What follows a failure goes by what the condition on errors itself answers when asked about
/// the error, whatever was collected: where the answer is yes and a pause for a failure is left,
/// the run takes that pause and goes on with the same input and results; otherwise the error is
/// the result. The condition on results is not asked.
pub proof fn failure_goes_by_the_answer<T, C, D, S, M, F, J>(
    called: CollectAndRetryCall<T, C, D, S>,
    ops: &FloatOps<M, F, J>,
    error: T::Error,
    step: Step<CollectAndRetryRun<T, C, D, S>, Vec<T::Item>, T::Error>,
) where
    T: TaskWithParameter<S>,
    C: SuccessCondition<T::Item, S>,
    D: Condition<T::Error>,
    S: Clone,
    M: Fn(Factor, Factor) -> Factor,
    F: Fn(Duration, Factor) -> Duration,
    J: Fn(Duration) -> u64,

    requires
        called.resumed(Err(error), ops, step),
    ensures
        exists|answer: bool, after: D| #[trigger]
            called.error_condition().judged(&error, answer, &after) && match step {
                Step::Retry { run, error: cause, delay } => {
                    &&& answer
                    &&& cause == error
                    &&& run.task() == called.task()
                    &&& run.success_condition() == called.success_condition()
                    &&& run.error_condition() == after
                    &&& run.results() == called.results()
                    &&& run.last_input() == called.last_input()
                    &&& called.error_backoffs().pauses(ops, delay@, run.error_backoffs())
                    &&& run.error_backoffs().left == called.error_backoffs().left - 1
                    &&& run.success_backoffs() == called.success_backoffs()
                },
                Step::Finish(result) => {
                    &&& result == Err::<Vec<T::Item>, T::Error>(error)
                    &&& !answer || called.error_backoffs().left == 0
                },
                Step::Again { .. } => false,
            },
{
    let (next, retryable) = choose|next: Option<S>, retryable: bool| #[trigger]
        called.resumed_given(Err(error), next, retryable, ops, step);
    let judged = choose|judged: CollectAndRetryCall<T, C, D, S>| #[trigger]
        called.judges_failure(error, retryable, judged) && judged.decided_failure(
            error,
            retryable,
            ops,
            step,
        );
    assert(called.error_condition().judged(&error, retryable, &judged.error_condition()));
    failure_decision_takes_a_pause(judged, error, retryable, ops, step);
}

/// A run ends with an error only where there were as many failures before as its policy allows
/// retries, or where the condition on errors answers no to that error, whatever was collected. An
/// error to which it can only answer yes is retried while retries are left, with the same input,
/// and one to which it can only answer no never is.
pub proof fn collect_and_retry_gives_up_for_a_reason<T, C, D, S, M, F, J>(
    settings: Settings,
    runs: Seq<CollectAndRetryRun<T, C, D, S>>,
    outcomes: Seq<Result<T::Item, T::Error>>,
    delays: Seq<Duration>,
    ops: &FloatOps<M, F, J>,
    fut: T::Fut,
    called: CollectAndRetryCall<T, C, D, S>,
    error: T::Error,
    step: Step<CollectAndRetryRun<T, C, D, S>, Vec<T::Item>, T::Error>,
) where
    T: TaskWithParameter<S>,
    C: SuccessCondition<T::Item, S>,
    D: Condition<T::Error>,
    S: Clone,
    M: Fn(Factor, Factor) -> Factor,
    F: Fn(Duration, Factor) -> Duration,
    J: Fn(Duration) -> u64,

    requires
        collect_and_retry_trace(settings, runs, outcomes, delays, ops),
        runs.last().called(fut, called),
        called.resumed(Err(error), ops, step),
    ensures
        failures(outcomes).len() <= settings.max_retries,
        step is Retry || step == Step::<
            CollectAndRetryRun<T, C, D, S>,
            Vec<T::Item>,
            T::Error,
        >::Finish(Err(error)),
        step is Finish && failures(outcomes).len() < settings.max_retries ==> exists|after: D|
            #[trigger] runs.last().error_condition().judged(&error, false, &after),
        step matches Step::Retry { run, .. } ==> {
            &&& failures(outcomes).len() < settings.max_retries
            &&& runs.last().error_condition().judged(&error, true, &run.error_condition())
            &&& run.last_input() == runs.last().last_input()
            &&& run.results() == successes(outcomes)
        },
        failures(outcomes).len() < settings.max_retries && (forall|answer: bool, after: D|
            #[trigger] runs.last().error_condition().judged(&error, answer, &after) ==> answer)
            ==> step is Retry,
        (forall|answer: bool, after: D| #[trigger]
            runs.last().error_condition().judged(&error, answer, &after) ==> !answer)
            ==> step is Finish,
{
    let n = outcomes.len() as int;
    collect_and_retry_call_is_with_a_clone(runs.last(), fut, called);
    collect_and_retry_keeps_every_item(settings, runs, outcomes, delays, ops, n);
    outcomes_are_successes_and_failures(outcomes);
    assert(outcomes.take(n) =~= outcomes);
    failure_goes_by_the_answer(called, ops, error, step);
    let (answer, after) = choose|answer: bool, after: D| #[trigger]
        called.error_condition().judged(&error, answer, &after) && match step {
            Step::Retry { run, error: cause, delay } => {
                &&& answer
                &&& cause == error
                &&& run.task() == called.task()
                &&& run.success_condition() == called.success_condition()
                &&& run.error_condition() == after
                &&& run.results() == called.results()
                &&& run.last_input() == called.last_input()
                &&& called.error_backoffs().pauses(ops, delay@, run.error_backoffs())
                &&& run.error_backoffs().left == called.error_backoffs().left - 1
                &&& run.success_backoffs() == called.success_backoffs()
            },
            Step::Finish(result) => {
                &&& result == Err::<Vec<T::Item>, T::Error>(error)
                &&& !answer || called.error_backoffs().left == 0
            },
            Step::Again { .. } => false,
        };
    assert(runs.last().error_condition().judged(&error, answer, &after));
}

/// A run ends with its results only where there were as many successes before as its policy
/// allows retries, or where the condition on results finds no input in the last item. While
/// retries are left, an item in which it can only find an input is followed by a call.
pub proof fn collect_and_retry_stops_for_a_reason<T, C, D, S, M, F, J>(
    settings: Settings,
    runs: Seq<CollectAndRetryRun<T, C, D, S>>,
    outcomes: Seq<Result<T::Item, T::Error>>,
    delays: Seq<Duration>,
    ops: &FloatOps<M, F, J>,
    fut: T::Fut,
    called: CollectAndRetryCall<T, C, D, S>,
    item: T::Item,
    step: Step<CollectAndRetryRun<T, C, D, S>, Vec<T::Item>, T::Error>,
) where
    T: TaskWithParameter<S>,
    C: SuccessCondition<T::Item, S>,
    D: Condition<T::Error>,
    S: Clone,
    M: Fn(Factor, Factor) -> Factor,
    F: Fn(Duration, Factor) -> Duration,
    J: Fn(Duration) -> u64,

    requires
        collect_and_retry_trace(settings, runs, outcomes, delays, ops),
        runs.last().called(fut, called),
        called.resumed(Ok(item), ops, step),
    ensures
        successes(outcomes).len() <= settings.max_retries,
        step is Again || (step matches Step::Finish(Ok(results)) && results@ == successes(
            outcomes,
        ).push(item)),
        step is Finish && successes(outcomes).len() < settings.max_retries ==> exists|after: C|
            #[trigger] runs.last().success_condition().judged_result(&item, None, &after),
        step matches Step::Again { run, .. } ==> {
            &&& successes(outcomes).len() < settings.max_retries
            &&& runs.last().success_condition().judged_result(
                &item,
                Some(run.last_input()),
                &run.success_condition(),
            )
            &&& run.results() == successes(outcomes).push(item)
        },
        successes(outcomes).len() < settings.max_retries && (forall|found: Option<S>, after: C|
            #[trigger]
            runs.last().success_condition().judged_result(&item, found, &after) ==> found is Some)
            ==> step is Again,
        (forall|found: Option<S>, after: C| #[trigger]
            runs.last().success_condition().judged_result(&item, found, &after) ==> found is None)
            ==> step is Finish,
{
    let n = outcomes.len() as int;
    collect_and_retry_call_is_with_a_clone(runs.last(), fut, called);
    collect_and_retry_keeps_every_item(settings, runs, outcomes, delays, ops, n);
    assert(outcomes.take(n) =~= outcomes);
    success_goes_by_the_answer(called, ops, item, step);
    let (found, after) = choose|found: Option<S>, after: C| #[trigger]
        called.success_condition().judged_result(&item, found, &after) && match step {
            Step::Again { run, delay } => {
                &&& found == Some(run.last_input())
                &&& run.task() == called.task()
                &&& run.success_condition() == after
                &&& run.error_condition() == called.error_condition()
                &&& run.results() == called.results().push(item)
                &&& called.success_backoffs().pauses(ops, delay@, run.success_backoffs())
                &&& run.success_backoffs().left == called.success_backoffs().left - 1
                &&& run.error_backoffs() == called.error_backoffs()
            },
            Step::Finish(result) => {
                &&& result matches Ok(results)
                &&& results@ == called.results().push(item)
                &&& found is None || called.success_backoffs().left == 0
            },
            Step::Retry { .. } => false,
        };
    assert(runs.last().success_condition().judged_result(&item, found, &after));
}

/// Every outcome is a success or a failure.
pub proof fn outcomes_are_successes_and_failures<I, E>(outcomes: Seq<Result<I, E>>)
    ensures
        successes(outcomes).len() + failures(outcomes).len() == outcomes.len(),
    decreases outcomes.len(),
{
    if outcomes.len() > 0 {
        outcomes_are_successes_and_failures(outcomes.drop_last());
    }
}

/// What the pauses of a run are, from its policy, those after successes and those after failures
/// each for themselves: the factors start at 1, stay there with a fixed backoff and are multiplied
/// by the exponent of the policy with an exponential one. A pause is the delay of the policy
/// scaled by its factor, jittered where the policy says so, and at most the longest pause of the
/// policy.
pub proof fn collect_and_retry_pauses_are_as_configured<T, C, D, S, M, F, J>(
    settings: Settings,
    runs: Seq<CollectAndRetryRun<T, C, D, S>>,
    outcomes: Seq<Result<T::Item, T::Error>>,
    delays: Seq<Duration>,
    ops: &FloatOps<M, F, J>,
    success: bool,
    n: nat,
    i: int,
) where
    T: TaskWithParameter<S>,
    C: SuccessCondition<T::Item, S>,
    D: Condition<T::Error>,
    S: Clone,
    M: Fn(Factor, Factor) -> Factor,
    F: Fn(Duration, Factor) -> Duration,
    J: Fn(Duration) -> u64,

    requires
        collect_and_retry_trace(settings, runs, outcomes, delays, ops),
        n <= outcomes.len(),
        0 <= i < pauses_after(success, outcomes, delays, n).len(),
    ensures
        pauses_after(success, outcomes, delays, n).len() <= settings.max_retries,
        states_after(success, runs, outcomes, n)[0] == backoffs_for(success, runs[0]),
        states_after(success, runs, outcomes, n)[0].current@ == 0x3FF0_0000_0000_0000,
        match settings.backoff {
            Backoff::Fixed => states_after(success, runs, outcomes, n)[i + 1].current
                == states_after(success, runs, outcomes, n)[i].current,
            Backoff::Exponential { exponent } => call_ensures(
                ops.multiply,
                (states_after(success, runs, outcomes, n)[i].current, exponent),
                states_after(success, runs, outcomes, n)[i + 1].current,
            ),
        },
        ({
            let length = pauses_after(success, outcomes, delays, n)[i];
            let factor = states_after(success, runs, outcomes, n)[i].current;
            &&& settings.max_delay matches Some(max) ==> length <= max@
            &&& !settings.jitter ==> exists|scaled: Duration| #[trigger]
                call_ensures(ops.scale, (settings.delay, factor), scaled) && length <= scaled@ && (
                length == scaled@ || (settings.max_delay matches Some(max) && length == max@))
            &&& settings.jitter ==> exists|scaled: Duration, millis: u64| #[trigger]
                call_ensures(ops.scale, (settings.delay, factor), scaled) && #[trigger]
                call_ensures(ops.jitter, (scaled,), millis) && length <= millis * 1_000_000 && (
                length == millis * 1_000_000 || (settings.max_delay matches Some(max) && length
                    == max@))
        }),
{
    collect_and_retry_pauses_are_scheduled(settings, runs, outcomes, delays, ops, success, n);
    let states = states_after(success, runs, outcomes, n);
    let lengths = pauses_after(success, outcomes, delays, n);
    crate::backoff_laws::pauses_are_as_configured(settings, states, lengths, ops, i);
    first_state_is_the_start(success, runs, outcomes, n);
}

proof fn first_state_is_the_start<T, C, D, S>(
    success: bool,
    runs: Seq<CollectAndRetryRun<T, C, D, S>>,
    outcomes: Seq<Result<T::Item, T::Error>>,
    n: nat,
) where
    T: TaskWithParameter<S>,
    C: SuccessCondition<T::Item, S>,
    D: Condition<T::Error>,
    S: Clone,

    ensures
        states_after(success, runs, outcomes, n).len() > 0,
        states_after(success, runs, outcomes, n)[0] == backoffs_for(success, runs[0]),
    decreases n,
{
    if n > 0 {
        first_state_is_the_start(success, runs, outcomes, (n - 1) as nat);
    }
}

/// With a fixed backoff and no jitter, where scaling by 1 keeps the delay as it is, every pause
/// of a run is the delay of its policy, or the longest pause of the policy if that is shorter.
pub proof fn fixed_collect_and_retry_pauses_are_the_delay<T, C, D, S, M, F, J>(
    settings: Settings,
    runs: Seq<CollectAndRetryRun<T, C, D, S>>,
    outcomes: Seq<Result<T::Item, T::Error>>,
    delays: Seq<Duration>,
    ops: &FloatOps<M, F, J>,
    success: bool,
    n: nat,
    i: int,
) where
    T: TaskWithParameter<S>,
    C: SuccessCondition<T::Item, S>,
    D: Condition<T::Error>,
    S: Clone,
    M: Fn(Factor, Factor) -> Factor,
    F: Fn(Duration, Factor) -> Duration,
    J: Fn(Duration) -> u64,

    requires
        collect_and_retry_trace(settings, runs, outcomes, delays, ops),
        n <= outcomes.len(),
        settings.backoff == Backoff::Fixed,
        !settings.jitter,
        forall|one: Factor, scaled: Duration|
            one@ == 0x3FF0_0000_0000_0000 && #[trigger] call_ensures(
                ops.scale,
                (settings.delay, one),
                scaled,
            ) ==> scaled@ == settings.delay@,
        0 <= i < pauses_after(success, outcomes, delays, n).len(),
    ensures
        settings.max_delay is None ==> pauses_after(success, outcomes, delays, n)[i]
            == settings.delay@,
        settings.max_delay matches Some(max) ==> pauses_after(success, outcomes, delays, n)[i]
            == vstd::math::min(settings.delay@ as int, max@ as int),
{
    collect_and_retry_pauses_are_scheduled(settings, runs, outcomes, delays, ops, success, n);
    let states = states_after(success, runs, outcomes, n);
    let lengths = pauses_after(success, outcomes, delays, n);
    crate::backoff_laws::fixed_pauses_are_the_delay(settings, states, lengths, ops, i);
}

} // verus!
