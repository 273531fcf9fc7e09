//! What holds of a collecting run as a whole.

use crate::backoff::Backoff;
use crate::collect_run::{CollectCall, CollectRun};
use crate::duration::Duration;
use crate::numeric::{Factor, FloatOps};
use crate::policy::Settings;
use crate::step::Step;
use crate::task::{SuccessCondition, TaskWithParameter};
use vstd::prelude::*;

verus! {

/// One round: `run` called its task as `fut`, which left `called` and gave `item`, and went on
/// as `next` after `delay`.
pub open spec fn collect_round<T, C, S, M, F, J>(
    run: CollectRun<T, C, S>,
    fut: T::Fut,
    called: CollectCall<T, C, S>,
    item: T::Item,
    delay: Duration,
    next: CollectRun<T, C, S>,
    ops: &FloatOps<M, F, J>,
) -> bool where
    T: TaskWithParameter<S>,
    C: SuccessCondition<T::Item, S>,
    M: Fn(Factor, Factor) -> Factor,
    F: Fn(Duration, Factor) -> Duration,
    J: Fn(Duration) -> u64,
 {
    &&& run.called(fut, called)
    &&& called.resumed(Ok(item), ops, Step::Again { run: next, delay })
}

/// A run with all that came of it before its last call: its states at its calls, the first of
/// them under `settings`, and for each call but the last the item and the pause after it.
pub open spec fn collect_trace<T, C, S, M, F, J>(
    settings: Settings,
    runs: Seq<CollectRun<T, C, S>>,
    items: Seq<T::Item>,
    delays: Seq<Duration>,
    ops: &FloatOps<M, F, J>,
) -> bool where
    T: TaskWithParameter<S>,
    C: SuccessCondition<T::Item, S>,
    M: Fn(Factor, Factor) -> Factor,
    F: Fn(Duration, Factor) -> Duration,
    J: Fn(Duration) -> u64,
 {
    &&& runs.len() == items.len() + 1
    &&& delays.len() == items.len()
    &&& runs[0].starts(settings, runs[0].task(), runs[0].condition(), runs[0].input())
    &&& forall|i: int|
        0 <= i < items.len() ==> exists|fut: T::Fut, called: CollectCall<T, C, S>| #[trigger]
            collect_round(runs[i], fut, called, #[trigger] items[i], delays[i], runs[i + 1], ops)
}

/// The run of a trace made its last call, which came to `outcome`, and ended with `result`; an
/// item of that call asked for a call with `next` or for none.
pub open spec fn collect_ends<T, C, S, M, F, J>(
    run: CollectRun<T, C, S>,
    outcome: Result<T::Item, T::Error>,
    next: Option<S>,
    result: Result<Vec<T::Item>, T::Error>,
    ops: &FloatOps<M, F, J>,
) -> bool where
    T: TaskWithParameter<S>,
    C: SuccessCondition<T::Item, S>,
    M: Fn(Factor, Factor) -> Factor,
    F: Fn(Duration, Factor) -> Duration,
    J: Fn(Duration) -> u64,
 {
    exists|fut: T::Fut, called: CollectCall<T, C, S>| #[trigger]
        run.called(fut, called) && called.resumed_given(outcome, next, ops, Step::Finish(result))
}

/// A run that finishes when `outcome` came of its call has ended, with an item that asked for a
/// call or for none.
pub proof fn collect_finish_ends<T, C, S, M, F, J>(
    run: CollectRun<T, C, S>,
    fut: T::Fut,
    called: CollectCall<T, C, S>,
    outcome: Result<T::Item, T::Error>,
    result: Result<Vec<T::Item>, T::Error>,
    ops: &FloatOps<M, F, J>,
) -> (next: Option<S>) where
    T: TaskWithParameter<S>,
    C: SuccessCondition<T::Item, S>,
    M: Fn(Factor, Factor) -> Factor,
    F: Fn(Duration, Factor) -> Duration,
    J: Fn(Duration) -> u64,

    requires
        run.called(fut, called),
        called.resumed(outcome, ops, Step::Finish(result)),
    ensures
        collect_ends(run, outcome, next, result, ops),
{
    choose|next: Option<S>| #[trigger]
        called.resumed_given(outcome, next, ops, Step::Finish(result))
}

/// Each round takes the next pause of the policy, and the next call is with the input that the
/// condition found in the result.
pub proof fn collect_round_goes_on<T, C, S, M, F, J>(
    run: CollectRun<T, C, S>,
    fut: T::Fut,
    called: CollectCall<T, C, S>,
    item: T::Item,
    delay: Duration,
    next: CollectRun<T, C, S>,
    ops: &FloatOps<M, F, J>,
) where
    T: TaskWithParameter<S>,
    C: SuccessCondition<T::Item, S>,
    M: Fn(Factor, Factor) -> Factor,
    F: Fn(Duration, Factor) -> Duration,
    J: Fn(Duration) -> u64,

    requires
        collect_round(run, fut, called, item, delay, next, ops),
    ensures
        run.task().called_with(run.input(), fut, &next.task()),
        run.condition().judged_result(&item, Some(next.input()), &next.condition()),
        run.backoffs().pauses(ops, delay@, next.backoffs()),
        next.results() == run.results().push(item),
{
}

/// The round of a trace after its `i`-th call, counted from 0, and what it leads to.
pub proof fn collect_trace_round<T, C, S, M, F, J>(
    settings: Settings,
    runs: Seq<CollectRun<T, C, S>>,
    items: Seq<T::Item>,
    delays: Seq<Duration>,
    ops: &FloatOps<M, F, J>,
    i: int,
) -> (round: (T::Fut, CollectCall<T, C, S>)) where
    T: TaskWithParameter<S>,
    C: SuccessCondition<T::Item, S>,
    M: Fn(Factor, Factor) -> Factor,
    F: Fn(Duration, Factor) -> Duration,
    J: Fn(Duration) -> u64,

    requires
        collect_trace(settings, runs, items, delays, ops),
        0 <= i < items.len(),
    ensures
        collect_round(runs[i], round.0, round.1, items[i], delays[i], runs[i + 1], ops),
        runs[i].task().called_with(runs[i].input(), round.0, &runs[i + 1].task()),
        runs[i].condition().judged_result(
            &items[i],
            Some(runs[i + 1].input()),
            &runs[i + 1].condition(),
        ),
        runs[i].backoffs().pauses(ops, delays[i]@, runs[i + 1].backoffs()),
        runs[i + 1].results() == runs[i].results().push(items[i]),
{
    let (run, item, delay, next) = (runs[i], items[i], delays[i], runs[i + 1]);
    let (fut, called) = choose|fut: T::Fut, called: CollectCall<T, C, S>| #[trigger]
        collect_round(run, fut, called, item, delay, next, ops);
    collect_round_goes_on(run, fut, called, item, delay, next, ops);
    (fut, called)
}

/// At each call, the run holds the items that came of the calls before, in order, and has that
/// many fewer pauses left, of the same longest length.
pub proof fn collect_keeps_every_item<T, C, S, M, F, J>(
    settings: Settings,
    runs: Seq<CollectRun<T, C, S>>,
    items: Seq<T::Item>,
    delays: Seq<Duration>,
    ops: &FloatOps<M, F, J>,
    i: int,
) where
    T: TaskWithParameter<S>,
    C: SuccessCondition<T::Item, S>,
    M: Fn(Factor, Factor) -> Factor,
    F: Fn(Duration, Factor) -> Duration,
    J: Fn(Duration) -> u64,

    requires
        collect_trace(settings, runs, items, delays, ops),
        0 <= i <= items.len(),
    ensures
        runs[i].results() == items.take(i),
        runs[i].backoffs().left == settings.max_retries - i,
        runs[i].backoffs().max_delay == settings.max_delay,
    decreases i,
{
    if i > 0 {
        collect_keeps_every_item(settings, runs, items, delays, ops, i - 1);
        collect_trace_round(settings, runs, items, delays, ops, i - 1);
        crate::backoff_laws::pause_spends_one(
            runs[i - 1].backoffs(),
            ops,
            delays[i - 1]@,
            runs[i].backoffs(),
        );
        assert(items.take(i - 1).push(items[i - 1]) =~= items.take(i));
    }
}

/// No pause of a run is longer than the longest one allowed.
pub proof fn collect_pauses_are_bounded<T, C, S, M, F, J>(
    settings: Settings,
    runs: Seq<CollectRun<T, C, S>>,
    items: Seq<T::Item>,
    delays: Seq<Duration>,
    ops: &FloatOps<M, F, J>,
    i: int,
) where
    T: TaskWithParameter<S>,
    C: SuccessCondition<T::Item, S>,
    M: Fn(Factor, Factor) -> Factor,
    F: Fn(Duration, Factor) -> Duration,
    J: Fn(Duration) -> u64,

    requires
        collect_trace(settings, runs, items, delays, ops),
        0 <= i < delays.len(),
    ensures
        settings.max_delay matches Some(max) ==> delays[i]@ <= max@,
{
    collect_keeps_every_item(settings, runs, items, delays, ops, i);
    collect_trace_round(settings, runs, items, delays, ops, i);
}

/// The pauses between the calls of a run are a schedule of its policy, so what holds of
/// schedules holds of them.
pub proof fn collect_pauses_are_scheduled<T, C, S, M, F, J>(
    settings: Settings,
    runs: Seq<CollectRun<T, C, S>>,
    items: Seq<T::Item>,
    delays: Seq<Duration>,
    ops: &FloatOps<M, F, J>,
) where
    T: TaskWithParameter<S>,
    C: SuccessCondition<T::Item, S>,
    M: Fn(Factor, Factor) -> Factor,
    F: Fn(Duration, Factor) -> Duration,
    J: Fn(Duration) -> u64,

    requires
        collect_trace(settings, runs, items, delays, ops),
    ensures
        crate::backoff_laws::is_schedule(
            runs.map_values(|run: CollectRun<T, C, S>| run.backoffs()),
            delays.map_values(|delay: Duration| delay@),
            ops,
        ),
        settings.starts(settings.backoff, runs[0].backoffs()),
{
    let states = runs.map_values(|run: CollectRun<T, C, S>| run.backoffs());
    let lengths = delays.map_values(|delay: Duration| delay@);
    assert forall|i: int| 0 <= i < lengths.len() implies states[i].pauses(
        ops,
        #[trigger] lengths[i],
        states[i + 1],
    ) by {
        collect_trace_round(settings, runs, items, delays, ops, i);
    }
}

/// Without jitter, and where `multiply` and `scale` give one result for the same arguments, the
/// pauses between the calls of a run are the first ones of all the pauses of its policy.
pub proof fn collect_waits_are_the_pauses<T, C, S, M, F, J>(
    settings: Settings,
    runs: Seq<CollectRun<T, C, S>>,
    items: Seq<T::Item>,
    delays: Seq<Duration>,
    all: Seq<nat>,
    ops: &FloatOps<M, F, J>,
) where
    T: TaskWithParameter<S>,
    C: SuccessCondition<T::Item, S>,
    M: Fn(Factor, Factor) -> Factor,
    F: Fn(Duration, Factor) -> Duration,
    J: Fn(Duration) -> u64,

    requires
        collect_trace(settings, runs, items, delays, ops),
        crate::backoff_laws::are_all_pauses(settings, all, ops),
        !settings.jitter,
        crate::backoff_laws::is_function(ops),
    ensures
        delays.len() <= all.len(),
        forall|i: int| 0 <= i < delays.len() ==> (#[trigger] delays[i])@ == all[i],
{
    collect_pauses_are_scheduled(settings, runs, items, delays, ops);
    let states = runs.map_values(|run: CollectRun<T, C, S>| run.backoffs());
    let lengths = delays.map_values(|delay: Duration| delay@);
    crate::backoff_laws::schedule_is_prefix(settings, all, states, lengths, ops);
    assert forall|i: int| 0 <= i < delays.len() implies (#[trigger] delays[i])@ == all[i] by {
        assert(lengths[i] == all.take(lengths.len() as int)[i]);
    }
}

/// Each call but the last gave an item in which the condition found the input of the next call;
/// the condition is asked about the item of the last call too.
pub proof fn collect_chains_inputs<T, C, S, M, F, J>(
    settings: Settings,
    runs: Seq<CollectRun<T, C, S>>,
    items: Seq<T::Item>,
    delays: Seq<Duration>,
    outcome: Result<T::Item, T::Error>,
    next: Option<S>,
    result: Result<Vec<T::Item>, T::Error>,
    ops: &FloatOps<M, F, J>,
) where
    T: TaskWithParameter<S>,
    C: SuccessCondition<T::Item, S>,
    M: Fn(Factor, Factor) -> Factor,
    F: Fn(Duration, Factor) -> Duration,
    J: Fn(Duration) -> u64,

    requires
        collect_trace(settings, runs, items, delays, ops),
        collect_ends(runs.last(), outcome, next, result, ops),
    ensures
        forall|i: int|
            0 <= i < items.len() ==> runs[i].condition().judged_result(
                #[trigger] &items[i],
                Some(runs[i + 1].input()),
                &runs[i + 1].condition(),
            ),
        outcome matches Ok(item) ==> exists|after: C| #[trigger]
            runs.last().condition().judged_result(&item, next, &after),
{
    assert forall|i: int| 0 <= i < items.len() implies runs[i].condition().judged_result(
        #[trigger] &items[i],
        Some(runs[i + 1].input()),
        &runs[i + 1].condition(),
    ) by {
        collect_trace_round(settings, runs, items, delays, ops, i);
    }
}

/// A run that ends with results gives the items of all its calls in order, and these are at
/// most one more than there are retries; a run that ends with an error gives that of its last
/// call.
pub proof fn collect_gives_every_item<T, C, S, M, F, J>(
    settings: Settings,
    runs: Seq<CollectRun<T, C, S>>,
    items: Seq<T::Item>,
    delays: Seq<Duration>,
    outcome: Result<T::Item, T::Error>,
    next: Option<S>,
    result: Result<Vec<T::Item>, T::Error>,
    ops: &FloatOps<M, F, J>,
) where
    T: TaskWithParameter<S>,
    C: SuccessCondition<T::Item, S>,
    M: Fn(Factor, Factor) -> Factor,
    F: Fn(Duration, Factor) -> Duration,
    J: Fn(Duration) -> u64,

    requires
        collect_trace(settings, runs, items, delays, ops),
        collect_ends(runs.last(), outcome, next, result, ops),
    ensures
        match outcome {
            Ok(item) => {
                &&& result matches Ok(results)
                &&& results@ == items.push(item)
                &&& results@.len() <= settings.max_retries + 1
            },
            Err(error) => result == Err::<Vec<T::Item>, T::Error>(error),
        },
{
    collect_keeps_every_item(settings, runs, items, delays, ops, items.len() as int);
    assert(items.take(items.len() as int) =~= items);
}

/// When its item asks for another call, the run goes on until it has one item more than there
/// are retries, and then gives them.
pub proof fn persistent_collect_exhausts_retries<T, C, S, M, F, J>(
    settings: Settings,
    runs: Seq<CollectRun<T, C, S>>,
    items: Seq<T::Item>,
    delays: Seq<Duration>,
    ops: &FloatOps<M, F, J>,
    fut: T::Fut,
    called: CollectCall<T, C, S>,
    item: T::Item,
    next: Option<S>,
    step: Step<CollectRun<T, C, S>, Vec<T::Item>, T::Error>,
) where
    T: TaskWithParameter<S>,
    C: SuccessCondition<T::Item, S>,
    M: Fn(Factor, Factor) -> Factor,
    F: Fn(Duration, Factor) -> Duration,
    J: Fn(Duration) -> u64,

    requires
        collect_trace(settings, runs, items, delays, ops),
        runs.last().called(fut, called),
        called.resumed_given(Ok(item), next, ops, step),
        next is Some,
    ensures
        items.len() <= settings.max_retries,
        items.len() < settings.max_retries ==> step is Again,
        items.len() == settings.max_retries ==> (step matches Step::Finish(Ok(results))
            && results@ == items.push(item)),
{
    collect_keeps_every_item(settings, runs, items, delays, ops, items.len() as int);
    assert(items.take(items.len() as int) =~= items);
}

/// An item that asks for no other call ends the run, which gives it after those before.
pub proof fn satisfied_collect_is_final<T, C, S, M, F, J>(
    called: CollectCall<T, C, S>,
    ops: &FloatOps<M, F, J>,
    item: T::Item,
    step: Step<CollectRun<T, C, S>, Vec<T::Item>, T::Error>,
) where
    T: TaskWithParameter<S>,
    C: SuccessCondition<T::Item, S>,
    M: Fn(Factor, Factor) -> Factor,
    F: Fn(Duration, Factor) -> Duration,
    J: Fn(Duration) -> u64,

    requires
        called.resumed_given(Ok(item), None, ops, step),
    ensures
        step matches Step::Finish(Ok(results)) && results@ == called.results().push(item),
{
}

/// An error ends the run at once and is what it gives, whatever was collected.
pub proof fn collect_error_is_final<T, C, S, M, F, J>(
    called: CollectCall<T, C, S>,
    ops: &FloatOps<M, F, J>,
    error: T::Error,
    step: Step<CollectRun<T, C, S>, Vec<T::Item>, T::Error>,
) where
    T: TaskWithParameter<S>,
    C: SuccessCondition<T::Item, S>,
    M: Fn(Factor, Factor) -> Factor,
    F: Fn(Duration, Factor) -> Duration,
    J: Fn(Duration) -> u64,

    requires
        called.resumed(Err(error), ops, step),
    ensures
        step == Step::<CollectRun<T, C, S>, Vec<T::Item>, T::Error>::Finish(Err(error)),
{
}

/// The inputs of the first `n` calls of a run.
pub open spec fn collect_inputs<T, C, S>(runs: Seq<CollectRun<T, C, S>>, n: nat) -> Seq<S> where
    T: TaskWithParameter<S>,
    C: SuccessCondition<T::Item, S>,
 {
    Seq::new(n, |i: int| runs[i].input())
}

/// Each call of the run came to what `behaves` says of the inputs up to it.
pub open spec fn collect_behaves<T, C, S>(
    runs: Seq<CollectRun<T, C, S>>,
    items: Seq<T::Item>,
    outcome: Result<T::Item, T::Error>,
    behaves: spec_fn(Seq<S>) -> Result<T::Item, T::Error>,
) -> bool where T: TaskWithParameter<S>, C: SuccessCondition<T::Item, S> {
    &&& forall|i: int|
        0 <= i < items.len() ==> behaves(collect_inputs(runs, (i + 1) as nat)) == Ok::<
            T::Item,
            T::Error,
        >(#[trigger] items[i])
    &&& behaves(collect_inputs(runs, items.len() + 1)) == outcome
}

/// The condition of a run found in each item what `answers` says of the items up to it: the
/// input of the next call, or `next` in an item of the last call.
pub open spec fn collect_asks<T, C, S>(
    runs: Seq<CollectRun<T, C, S>>,
    items: Seq<T::Item>,
    outcome: Result<T::Item, T::Error>,
    next: Option<S>,
    answers: spec_fn(Seq<T::Item>) -> Option<S>,
) -> bool where T: TaskWithParameter<S>, C: SuccessCondition<T::Item, S> {
    &&& forall|i: int|
        0 <= i < items.len() ==> answers(items.take(i).push(#[trigger] items[i])) == Some(
            runs[i + 1].input(),
        )
    &&& outcome matches Ok(item) ==> next == answers(items.push(item))
}

/// Two runs that start with the same input, whose calls come to the same on the same inputs and
/// whose conditions find the same in the same items, call with the same inputs and get the same
/// items, as far as both go on.
pub proof fn collecting_runs_agree<T, C, S, M, F, J>(
    settings: Settings,
    runs: Seq<CollectRun<T, C, S>>,
    items: Seq<T::Item>,
    delays: Seq<Duration>,
    outcome: Result<T::Item, T::Error>,
    next: Option<S>,
    other_settings: Settings,
    other_runs: Seq<CollectRun<T, C, S>>,
    other_items: Seq<T::Item>,
    other_delays: Seq<Duration>,
    other_outcome: Result<T::Item, T::Error>,
    other_next: Option<S>,
    behaves: spec_fn(Seq<S>) -> Result<T::Item, T::Error>,
    answers: spec_fn(Seq<T::Item>) -> Option<S>,
    ops: &FloatOps<M, F, J>,
    i: int,
) where
    T: TaskWithParameter<S>,
    C: SuccessCondition<T::Item, S>,
    M: Fn(Factor, Factor) -> Factor,
    F: Fn(Duration, Factor) -> Duration,
    J: Fn(Duration) -> u64,

    requires
        collect_trace(settings, runs, items, delays, ops),
        collect_behaves(runs, items, outcome, behaves),
        collect_asks(runs, items, outcome, next, answers),
        collect_trace(other_settings, other_runs, other_items, other_delays, ops),
        collect_behaves(other_runs, other_items, other_outcome, behaves),
        collect_asks(other_runs, other_items, other_outcome, other_next, answers),
        runs[0].input() == other_runs[0].input(),
        0 <= i <= items.len(),
        i <= other_items.len(),
    ensures
        collect_inputs(runs, (i + 1) as nat) == collect_inputs(other_runs, (i + 1) as nat),
        items.take(i) == other_items.take(i),
    decreases i,
{
    let (inputs, other_inputs) = (
        collect_inputs(runs, (i + 1) as nat),
        collect_inputs(other_runs, (i + 1) as nat),
    );
    if i > 0 {
        let k = i - 1;
        collecting_runs_agree(
            settings,
            runs,
            items,
            delays,
            outcome,
            next,
            other_settings,
            other_runs,
            other_items,
            other_delays,
            other_outcome,
            other_next,
            behaves,
            answers,
            ops,
            k,
        );
        assert(items[k] == other_items[k]);
        assert(items.take(k).push(items[k]) =~= items.take(i));
        assert(other_items.take(k).push(other_items[k]) =~= other_items.take(i));
        assert(inputs =~= collect_inputs(runs, i as nat).push(runs[i].input()));
        assert(other_inputs =~= collect_inputs(other_runs, i as nat).push(other_runs[i].input()));
    } else {
        assert(inputs =~= other_inputs);
        assert(items.take(i) =~= other_items.take(i));
    }
}

/// A run ends no later than one with at least as many retries that starts with the same input,
/// whose calls come to the same on the same inputs and whose condition finds the same in the same
/// items.
proof fn collect_cannot_outlast<T, C, S, M, F, J>(
    settings: Settings,
    runs: Seq<CollectRun<T, C, S>>,
    items: Seq<T::Item>,
    delays: Seq<Duration>,
    outcome: Result<T::Item, T::Error>,
    next: Option<S>,
    more_settings: Settings,
    more_runs: Seq<CollectRun<T, C, S>>,
    more_items: Seq<T::Item>,
    more_delays: Seq<Duration>,
    more_outcome: Result<T::Item, T::Error>,
    more_next: Option<S>,
    more_result: Result<Vec<T::Item>, T::Error>,
    behaves: spec_fn(Seq<S>) -> Result<T::Item, T::Error>,
    answers: spec_fn(Seq<T::Item>) -> Option<S>,
    ops: &FloatOps<M, F, J>,
) where
    T: TaskWithParameter<S>,
    C: SuccessCondition<T::Item, S>,
    M: Fn(Factor, Factor) -> Factor,
    F: Fn(Duration, Factor) -> Duration,
    J: Fn(Duration) -> u64,

    requires
        settings.max_retries <= more_settings.max_retries,
        collect_trace(settings, runs, items, delays, ops),
        collect_behaves(runs, items, outcome, behaves),
        collect_asks(runs, items, outcome, next, answers),
        collect_trace(more_settings, more_runs, more_items, more_delays, ops),
        collect_ends(more_runs.last(), more_outcome, more_next, more_result, ops),
        collect_behaves(more_runs, more_items, more_outcome, behaves),
        collect_asks(more_runs, more_items, more_outcome, more_next, answers),
        runs[0].input() == more_runs[0].input(),
    ensures
        items.len() <= more_items.len(),
{
    let m = more_items.len() as int;
    if m < items.len() {
        collecting_runs_agree(
            settings,
            runs,
            items,
            delays,
            outcome,
            next,
            more_settings,
            more_runs,
            more_items,
            more_delays,
            more_outcome,
            more_next,
            behaves,
            answers,
            ops,
            m,
        );
        assert(more_items.take(m) =~= more_items);
        assert(more_outcome == Ok::<T::Item, T::Error>(items[m]));
        collect_keeps_every_item(more_settings, more_runs, more_items, more_delays, ops, m);
        collect_keeps_every_item(settings, runs, items, delays, ops, m);
        collect_trace_round(settings, runs, items, delays, ops, m);
    }
}

/// Two runs under the same settings that start with the same input, whose calls come to the same
/// on the same inputs and whose conditions find the same in the same items, make the same calls
/// and end with the same result.
pub proof fn collect_result_is_determined<T, C, S, M, F, J>(
    settings: Settings,
    runs: Seq<CollectRun<T, C, S>>,
    items: Seq<T::Item>,
    delays: Seq<Duration>,
    outcome: Result<T::Item, T::Error>,
    next: Option<S>,
    result: Result<Vec<T::Item>, T::Error>,
    other_runs: Seq<CollectRun<T, C, S>>,
    other_items: Seq<T::Item>,
    other_delays: Seq<Duration>,
    other_outcome: Result<T::Item, T::Error>,
    other_next: Option<S>,
    other_result: Result<Vec<T::Item>, T::Error>,
    behaves: spec_fn(Seq<S>) -> Result<T::Item, T::Error>,
    answers: spec_fn(Seq<T::Item>) -> Option<S>,
    ops: &FloatOps<M, F, J>,
) where
    T: TaskWithParameter<S>,
    C: SuccessCondition<T::Item, S>,
    M: Fn(Factor, Factor) -> Factor,
    F: Fn(Duration, Factor) -> Duration,
    J: Fn(Duration) -> u64,

    requires
        collect_trace(settings, runs, items, delays, ops),
        collect_ends(runs.last(), outcome, next, result, ops),
        collect_behaves(runs, items, outcome, behaves),
        collect_asks(runs, items, outcome, next, answers),
        collect_trace(settings, other_runs, other_items, other_delays, ops),
        collect_ends(other_runs.last(), other_outcome, other_next, other_result, ops),
        collect_behaves(other_runs, other_items, other_outcome, behaves),
        collect_asks(other_runs, other_items, other_outcome, other_next, answers),
        runs[0].input() == other_runs[0].input(),
    ensures
        collect_inputs(runs, runs.len()) == collect_inputs(other_runs, other_runs.len()),
        items == other_items,
        outcome == other_outcome,
        match (result, other_result) {
            (Ok(a), Ok(b)) => a@ == b@,
            (Err(a), Err(b)) => a == b,
            _ => false,
        },
{
    collect_cannot_outlast(
        settings,
        runs,
        items,
        delays,
        outcome,
        next,
        settings,
        other_runs,
        other_items,
        other_delays,
        other_outcome,
        other_next,
        other_result,
        behaves,
        answers,
        ops,
    );
    collect_cannot_outlast(
        settings,
        other_runs,
        other_items,
        other_delays,
        other_outcome,
        other_next,
        settings,
        runs,
        items,
        delays,
        outcome,
        next,
        result,
        behaves,
        answers,
        ops,
    );
    let n = items.len() as int;
    collecting_runs_agree(
        settings,
        runs,
        items,
        delays,
        outcome,
        next,
        settings,
        other_runs,
        other_items,
        other_delays,
        other_outcome,
        other_next,
        behaves,
        answers,
        ops,
        n,
    );
    assert(items.take(n) =~= items);
    assert(other_items.take(n) =~= other_items);
    collect_gives_every_item(settings, runs, items, delays, outcome, next, result, ops);
    collect_gives_every_item(
        settings,
        other_runs,
        other_items,
        other_delays,
        other_outcome,
        other_next,
        other_result,
        ops,
    );
}

/// More retries only extend what is collected: of two runs that start with the same input, whose
/// calls come to the same on the same inputs and never to an error, and whose conditions find
/// the same in the same items, both end with results, and those under the settings with fewer
/// retries are the first of those under the others.
pub proof fn more_retries_extend_results<T, C, S, M, F, J>(
    settings: Settings,
    runs: Seq<CollectRun<T, C, S>>,
    items: Seq<T::Item>,
    delays: Seq<Duration>,
    outcome: Result<T::Item, T::Error>,
    next: Option<S>,
    result: Result<Vec<T::Item>, T::Error>,
    more_settings: Settings,
    more_runs: Seq<CollectRun<T, C, S>>,
    more_items: Seq<T::Item>,
    more_delays: Seq<Duration>,
    more_outcome: Result<T::Item, T::Error>,
    more_next: Option<S>,
    more_result: Result<Vec<T::Item>, T::Error>,
    behaves: spec_fn(Seq<S>) -> Result<T::Item, T::Error>,
    answers: spec_fn(Seq<T::Item>) -> Option<S>,
    ops: &FloatOps<M, F, J>,
) where
    T: TaskWithParameter<S>,
    C: SuccessCondition<T::Item, S>,
    M: Fn(Factor, Factor) -> Factor,
    F: Fn(Duration, Factor) -> Duration,
    J: Fn(Duration) -> u64,

    requires
        settings.max_retries <= more_settings.max_retries,
        collect_trace(settings, runs, items, delays, ops),
        collect_ends(runs.last(), outcome, next, result, ops),
        collect_behaves(runs, items, outcome, behaves),
        collect_asks(runs, items, outcome, next, answers),
        collect_trace(more_settings, more_runs, more_items, more_delays, ops),
        collect_ends(more_runs.last(), more_outcome, more_next, more_result, ops),
        collect_behaves(more_runs, more_items, more_outcome, behaves),
        collect_asks(more_runs, more_items, more_outcome, more_next, answers),
        runs[0].input() == more_runs[0].input(),
        forall|inputs: Seq<S>| #[trigger] behaves(inputs) is Ok,
    ensures
        result matches Ok(results) && more_result matches Ok(more_results)
            && results@.is_prefix_of(more_results@),
{
    collect_cannot_outlast(
        settings,
        runs,
        items,
        delays,
        outcome,
        next,
        more_settings,
        more_runs,
        more_items,
        more_delays,
        more_outcome,
        more_next,
        more_result,
        behaves,
        answers,
        ops,
    );
    let n = items.len() as int;
    collecting_runs_agree(
        settings,
        runs,
        items,
        delays,
        outcome,
        next,
        more_settings,
        more_runs,
        more_items,
        more_delays,
        more_outcome,
        more_next,
        behaves,
        answers,
        ops,
        n,
    );
    collect_gives_every_item(settings, runs, items, delays, outcome, next, result, ops);
    collect_gives_every_item(
        more_settings,
        more_runs,
        more_items,
        more_delays,
        more_outcome,
        more_next,
        more_result,
        ops,
    );
    assert(behaves(collect_inputs(runs, runs.len())) is Ok);
    assert(behaves(collect_inputs(more_runs, more_runs.len())) is Ok);
    assert forall|j: int| 0 <= j < n implies items[j] == more_items[j] by {
        assert(items.take(n)[j] == more_items.take(n)[j]);
    }
    if n < more_items.len() {
        assert(outcome == Ok::<T::Item, T::Error>(more_items[n]));
    } else {
        assert(outcome == more_outcome);
    }
}

/// A run starts with its task and condition, with the pauses of its policy, without results, and
/// with the first input.
pub proof fn collect_starts_as_asked<T, C, S>(
    run: CollectRun<T, C, S>,
    settings: Settings,
    task: T,
    condition: C,
    start_value: S,
) where
    T: TaskWithParameter<S>,
    C: SuccessCondition<T::Item, S>,

    requires
        run.starts(settings, task, condition, start_value),
    ensures
        run.task() == task,
        run.condition() == condition,
        run.input() == start_value,
        run.results().len() == 0,
        run.backoffs().backoff == settings.backoff,
        run.backoffs().current@ == 0x3FF0_0000_0000_0000,
        run.backoffs().jitter == settings.jitter,
        run.backoffs().delay == settings.delay,
        run.backoffs().max_delay == settings.max_delay,
        run.backoffs().left == settings.max_retries,
{
}

/// A call starts the task on the input, and leaves the condition, the pauses and the results as
/// they are.
pub proof fn collect_call_is_with_the_input<T, C, S>(
    run: CollectRun<T, C, S>,
    fut: T::Fut,
    called: CollectCall<T, C, S>,
) where
    T: TaskWithParameter<S>,
    C: SuccessCondition<T::Item, S>,

    requires
        run.called(fut, called),
    ensures
        run.task().called_with(run.input(), fut, &called.task()),
        called.condition() == run.condition(),
        called.backoffs() == run.backoffs(),
        called.results() == run.results(),
{
}

/// What is decided of an item: it is added to the results. Where it asks for a call and a pause
/// is left, the run takes the next pause and goes on with the input asked for; otherwise it gives
/// the results.
pub proof fn collect_decision_takes_a_pause<T, C, S, M, F, J>(
    called: CollectCall<T, C, S>,
    item: T::Item,
    next: Option<S>,
    ops: &FloatOps<M, F, J>,
    step: Step<CollectRun<T, C, S>, Vec<T::Item>, T::Error>,
) where
    T: TaskWithParameter<S>,
    C: SuccessCondition<T::Item, S>,
    M: Fn(Factor, Factor) -> Factor,
    F: Fn(Duration, Factor) -> Duration,
    J: Fn(Duration) -> u64,

    requires
        called.decided(item, next, ops, step),
    ensures
        match step {
            Step::Again { run, delay } => {
                &&& next == Some(run.input())
                &&& run.condition() == called.condition()
                &&& run.task() == called.task()
                &&& run.results() == called.results().push(item)
                &&& called.backoffs().pauses(ops, delay@, run.backoffs())
                &&& run.backoffs().left == called.backoffs().left - 1
            },
            Step::Finish(result) => {
                &&& result matches Ok(results)
                &&& results@ == called.results().push(item)
                &&& next is None || called.backoffs().left == 0
            },
            Step::Retry { .. } => false,
        },
{
}

/// What follows an item goes by what the condition itself finds in it: where that is an input and
/// a pause is left, the run takes the next pause and goes on with that input; otherwise all items
/// are the result.
pub proof fn collect_goes_by_the_answer<T, C, S, M, F, J>(
    called: CollectCall<T, C, S>,
    ops: &FloatOps<M, F, J>,
    item: T::Item,
    step: Step<CollectRun<T, C, S>, Vec<T::Item>, T::Error>,
) where
    T: TaskWithParameter<S>,
    C: SuccessCondition<T::Item, S>,
    M: Fn(Factor, Factor) -> Factor,
    F: Fn(Duration, Factor) -> Duration,
    J: Fn(Duration) -> u64,

    requires
        called.resumed(Ok(item), ops, step),
    ensures
        exists|found: Option<S>, after: C| #[trigger]
            called.condition().judged_result(&item, found, &after) && match step {
                Step::Again { run, delay } => {
                    &&& found == Some(run.input())
                    &&& run.condition() == after
                    &&& run.task() == called.task()
                    &&& run.results() == called.results().push(item)
                    &&& called.backoffs().pauses(ops, delay@, run.backoffs())
                    &&& run.backoffs().left == called.backoffs().left - 1
                },
                Step::Finish(result) => {
                    &&& result matches Ok(results)
                    &&& results@ == called.results().push(item)
                    &&& found is None || called.backoffs().left == 0
                },
                Step::Retry { .. } => false,
            },
{
    let next = choose|next: Option<S>| #[trigger]
        called.resumed_given(Ok(item), next, ops, step);
    let judged = choose|judged: CollectCall<T, C, S>| #[trigger]
        called.judges(item, next, judged) && judged.decided(item, next, ops, step);
    assert(called.condition().judged_result(&item, next, &judged.condition()));
    collect_decision_takes_a_pause(judged, item, next, ops, step);
}

/// A run ends with its results only where there were as many calls after the first as its policy
/// allows retries, or where the condition finds no input in the last item. While retries are
/// left, an item in which it can only find an input is followed by a call.
pub proof fn collect_stops_for_a_reason<T, C, S, M, F, J>(
    settings: Settings,
    runs: Seq<CollectRun<T, C, S>>,
    items: Seq<T::Item>,
    delays: Seq<Duration>,
    ops: &FloatOps<M, F, J>,
    fut: T::Fut,
    called: CollectCall<T, C, S>,
    item: T::Item,
    step: Step<CollectRun<T, C, S>, Vec<T::Item>, T::Error>,
) where
    T: TaskWithParameter<S>,
    C: SuccessCondition<T::Item, S>,
    M: Fn(Factor, Factor) -> Factor,
    F: Fn(Duration, Factor) -> Duration,
    J: Fn(Duration) -> u64,

    requires
        collect_trace(settings, runs, items, delays, ops),
        runs.last().called(fut, called),
        called.resumed(Ok(item), ops, step),
    ensures
        step is Again || (step matches Step::Finish(Ok(results)) && results@ == items.push(item)),
        step is Finish && items.len() < settings.max_retries ==> exists|after: C| #[trigger]
            runs.last().condition().judged_result(&item, None, &after),
        step matches Step::Again { run, .. } ==> items.len() < settings.max_retries
            && runs.last().condition().judged_result(
            &item,
            Some(run.input()),
            &run.condition(),
        ),
        items.len() < settings.max_retries && (forall|found: Option<S>, after: C| #[trigger]
            runs.last().condition().judged_result(&item, found, &after) ==> found is Some)
            ==> step is Again,
        (forall|found: Option<S>, after: C| #[trigger]
            runs.last().condition().judged_result(&item, found, &after) ==> found is None)
            ==> step is Finish,
{
    collect_call_is_with_the_input(runs.last(), fut, called);
    collect_keeps_every_item(settings, runs, items, delays, ops, items.len() as int);
    assert(items.take(items.len() as int) =~= items);
    collect_goes_by_the_answer(called, ops, item, step);
    let (found, after) = choose|found: Option<S>, after: C| #[trigger]
        called.condition().judged_result(&item, found, &after) && match step {
            Step::Again { run, delay } => {
                &&& found == Some(run.input())
                &&& run.condition() == after
                &&& run.task() == called.task()
                &&& run.results() == called.results().push(item)
                &&& called.backoffs().pauses(ops, delay@, run.backoffs())
                &&& run.backoffs().left == called.backoffs().left - 1
            },
            Step::Finish(result) => {
                &&& result matches Ok(results)
                &&& results@ == called.results().push(item)
                &&& found is None || called.backoffs().left == 0
            },
            Step::Retry { .. } => false,
        };
    assert(runs.last().condition().judged_result(&item, found, &after));
}

/// What the pauses of a run are, from its policy: the factors start at 1, stay there with a fixed
/// backoff and are multiplied by the exponent of the policy with an exponential one. A pause is
/// the delay of the policy scaled by its factor, jittered where the policy says so, and at most
/// the longest pause of the policy.
pub proof fn collect_pauses_are_as_configured<T, C, S, M, F, J>(
    settings: Settings,
    runs: Seq<CollectRun<T, C, S>>,
    items: Seq<T::Item>,
    delays: Seq<Duration>,
    ops: &FloatOps<M, F, J>,
    i: int,
) where
    T: TaskWithParameter<S>,
    C: SuccessCondition<T::Item, S>,
    M: Fn(Factor, Factor) -> Factor,
    F: Fn(Duration, Factor) -> Duration,
    J: Fn(Duration) -> u64,

    requires
        collect_trace(settings, runs, items, delays, ops),
        0 <= i < delays.len(),
    ensures
        runs[0].backoffs().current@ == 0x3FF0_0000_0000_0000,
        match settings.backoff {
            Backoff::Fixed => runs[i + 1].backoffs().current == runs[i].backoffs().current,
            Backoff::Exponential { exponent } => call_ensures(
                ops.multiply,
                (runs[i].backoffs().current, exponent),
                runs[i + 1].backoffs().current,
            ),
        },
        settings.max_delay matches Some(max) ==> delays[i]@ <= max@,
        !settings.jitter ==> exists|scaled: Duration| #[trigger]
            call_ensures(ops.scale, (settings.delay, runs[i].backoffs().current), scaled)
                && delays[i]@ <= scaled@ && (delays[i]@ == scaled@ || (
            settings.max_delay matches Some(max) && delays[i]@ == max@)),
        settings.jitter ==> exists|scaled: Duration, millis: u64| #[trigger]
            call_ensures(ops.scale, (settings.delay, runs[i].backoffs().current), scaled)
                && #[trigger] call_ensures(ops.jitter, (scaled,), millis) && delays[i]@ <= millis
                * 1_000_000 && (delays[i]@ == millis * 1_000_000 || (
            settings.max_delay matches Some(max) && delays[i]@ == max@)),
{
    collect_pauses_are_scheduled(settings, runs, items, delays, ops);
    let states = runs.map_values(|run: CollectRun<T, C, S>| run.backoffs());
    let lengths = delays.map_values(|delay: Duration| delay@);
    crate::backoff_laws::pauses_are_as_configured(settings, states, lengths, ops, i);
    assert(states[i] == runs[i].backoffs() && states[i + 1] == runs[i + 1].backoffs());
    assert(lengths[i] == delays[i]@);
}

/// With a fixed backoff and no jitter, where scaling by 1 keeps the delay as it is, every pause
/// of a run is the delay of its policy, or the longest pause of the policy if that is shorter.
pub proof fn fixed_collect_pauses_are_the_delay<T, C, S, M, F, J>(
    settings: Settings,
    runs: Seq<CollectRun<T, C, S>>,
    items: Seq<T::Item>,
    delays: Seq<Duration>,
    ops: &FloatOps<M, F, J>,
    i: int,
) where
    T: TaskWithParameter<S>,
    C: SuccessCondition<T::Item, S>,
    M: Fn(Factor, Factor) -> Factor,
    F: Fn(Duration, Factor) -> Duration,
    J: Fn(Duration) -> u64,

    requires
        collect_trace(settings, runs, items, delays, ops),
        settings.backoff == Backoff::Fixed,
        !settings.jitter,
        forall|one: Factor, scaled: Duration|
            one@ == 0x3FF0_0000_0000_0000 && #[trigger] call_ensures(
                ops.scale,
                (settings.delay, one),
                scaled,
            ) ==> scaled@ == settings.delay@,
        0 <= i < delays.len(),
    ensures
        settings.max_delay is None ==> delays[i]@ == settings.delay@,
        settings.max_delay matches Some(max) ==> delays[i]@ == vstd::math::min(
            settings.delay@ as int,
            max@ as int,
        ),
{
    collect_pauses_are_scheduled(settings, runs, items, delays, ops);
    let states = runs.map_values(|run: CollectRun<T, C, S>| run.backoffs());
    let lengths = delays.map_values(|delay: Duration| delay@);
    crate::backoff_laws::fixed_pauses_are_the_delay(settings, states, lengths, ops, i);
    assert(lengths[i] == delays[i]@);
}

} // verus!
