//! What holds of a retrying run as a whole.

use crate::backoff::Backoff;
use crate::duration::{Duration, NANOS_PER_SEC};
use crate::numeric::{Factor, FloatOps};
use crate::policy::Settings;
use crate::retry_run::RetryRun;
use crate::step::Step;
use crate::task::{Always, Condition, Task};
use vstd::prelude::*;

verus! {

/// One round: `run` called its task as `fut`, which left `called` and failed with `error`, and
/// went on as `next` after `delay`.
pub open spec fn retry_round<T, C, M, S, J>(
    run: RetryRun<T, C>,
    fut: T::Fut,
    called: RetryRun<T, C>,
    error: T::Error,
    delay: Duration,
    next: RetryRun<T, C>,
    ops: &FloatOps<M, S, J>,
) -> bool where
    T: Task,
    C: Condition<T::Error>,
    M: Fn(Factor, Factor) -> Factor,
    S: Fn(Duration, Factor) -> Duration,
    J: Fn(Duration) -> u64,
 {
    &&& run.called(fut, called)
    &&& called.resumed(Err(error), ops, Step::Retry { run: next, error, delay })
}

/// A run with all that came of it before its last call: its states at its calls, the first of
/// them under `settings`, and for each call but the last the error and the pause after it.
pub open spec fn retry_trace<T, C, M, S, J>(
    settings: Settings,
    runs: Seq<RetryRun<T, C>>,
    errors: Seq<T::Error>,
    delays: Seq<Duration>,
    ops: &FloatOps<M, S, J>,
) -> bool where
    T: Task,
    C: Condition<T::Error>,
    M: Fn(Factor, Factor) -> Factor,
    S: Fn(Duration, Factor) -> Duration,
    J: Fn(Duration) -> u64,
 {
    &&& runs.len() == errors.len() + 1
    &&& delays.len() == errors.len()
    &&& runs[0].starts(settings, runs[0].task(), runs[0].condition())
    &&& forall|i: int|
        0 <= i < errors.len() ==> exists|fut: T::Fut, called: RetryRun<T, C>| #[trigger]
            retry_round(runs[i], fut, called, #[trigger] errors[i], delays[i], runs[i + 1], ops)
}

/// The run of a trace made its last call, which came to `outcome`, and ended with `result`; an
/// error of that call was found `retryable` or not.
pub open spec fn retry_ends<T, C, M, S, J>(
    run: RetryRun<T, C>,
    outcome: Result<T::Item, T::Error>,
    retryable: bool,
    result: Result<T::Item, T::Error>,
    ops: &FloatOps<M, S, J>,
) -> bool where
    T: Task,
    C: Condition<T::Error>,
    M: Fn(Factor, Factor) -> Factor,
    S: Fn(Duration, Factor) -> Duration,
    J: Fn(Duration) -> u64,
 {
    exists|fut: T::Fut, called: RetryRun<T, C>| #[trigger]
        run.called(fut, called) && called.resumed_given(
            outcome,
            retryable,
            ops,
            Step::Finish(result),
        )
}

/// A run that finishes when `outcome` came of its call has ended, with an error found retryable
/// or not.
pub proof fn retry_finish_ends<T, C, M, S, J>(
    run: RetryRun<T, C>,
    fut: T::Fut,
    called: RetryRun<T, C>,
    outcome: Result<T::Item, T::Error>,
    result: Result<T::Item, T::Error>,
    ops: &FloatOps<M, S, J>,
) -> (retryable: bool) where
    T: Task,
    C: Condition<T::Error>,
    M: Fn(Factor, Factor) -> Factor,
    S: Fn(Duration, Factor) -> Duration,
    J: Fn(Duration) -> u64,

    requires
        run.called(fut, called),
        called.resumed(outcome, ops, Step::Finish(result)),
    ensures
        retry_ends(run, outcome, retryable, result, ops),
{
    choose|retryable: bool| #[trigger]
        called.resumed_given(outcome, retryable, ops, Step::Finish(result))
}

/// Each round takes the next pause of the policy, after an error that the condition found
/// retryable.
pub proof fn retry_round_goes_on<T, C, M, S, J>(
    run: RetryRun<T, C>,
    fut: T::Fut,
    called: RetryRun<T, C>,
    error: T::Error,
    delay: Duration,
    next: RetryRun<T, C>,
    ops: &FloatOps<M, S, J>,
) where
    T: Task,
    C: Condition<T::Error>,
    M: Fn(Factor, Factor) -> Factor,
    S: Fn(Duration, Factor) -> Duration,
    J: Fn(Duration) -> u64,

    requires
        retry_round(run, fut, called, error, delay, next, ops),
    ensures
        run.task().called(fut, &next.task()),
        run.condition().judged(&error, true, &next.condition()),
        run.backoffs().pauses(ops, delay@, next.backoffs()),
{
}

/// The round of a trace after its `i`-th call, counted from 0, and what it leads to.
pub proof fn retry_trace_round<T, C, M, S, J>(
    settings: Settings,
    runs: Seq<RetryRun<T, C>>,
    errors: Seq<T::Error>,
    delays: Seq<Duration>,
    ops: &FloatOps<M, S, J>,
    i: int,
) -> (round: (T::Fut, RetryRun<T, C>)) where
    T: Task,
    C: Condition<T::Error>,
    M: Fn(Factor, Factor) -> Factor,
    S: Fn(Duration, Factor) -> Duration,
    J: Fn(Duration) -> u64,

    requires
        retry_trace(settings, runs, errors, delays, ops),
        0 <= i < errors.len(),
    ensures
        retry_round(runs[i], round.0, round.1, errors[i], delays[i], runs[i + 1], ops),
        runs[i].task().called(round.0, &runs[i + 1].task()),
        runs[i].condition().judged(&errors[i], true, &runs[i + 1].condition()),
        runs[i].backoffs().pauses(ops, delays[i]@, runs[i + 1].backoffs()),
{
    let (run, error, delay, next) = (runs[i], errors[i], delays[i], runs[i + 1]);
    let (fut, called) = choose|fut: T::Fut, called: RetryRun<T, C>| #[trigger]
        retry_round(run, fut, called, error, delay, next, ops);
    retry_round_goes_on(run, fut, called, error, delay, next, ops);
    (fut, called)
}

/// A task is called at most once more than there are retries, and the call after `i` retries
/// has `i` fewer left, of the same longest length.
pub proof fn retry_calls_are_bounded<T, C, M, S, J>(
    settings: Settings,
    runs: Seq<RetryRun<T, C>>,
    errors: Seq<T::Error>,
    delays: Seq<Duration>,
    ops: &FloatOps<M, S, J>,
    i: int,
) where
    T: Task,
    C: Condition<T::Error>,
    M: Fn(Factor, Factor) -> Factor,
    S: Fn(Duration, Factor) -> Duration,
    J: Fn(Duration) -> u64,

    requires
        retry_trace(settings, runs, errors, delays, ops),
        0 <= i < runs.len(),
    ensures
        runs.len() <= settings.max_retries + 1,
        runs[i].backoffs().left == settings.max_retries - i,
        runs[i].backoffs().max_delay == settings.max_delay,
{
    retry_left(settings, runs, errors, delays, ops, i);
    retry_left(settings, runs, errors, delays, ops, runs.len() - 1);
}

proof fn retry_left<T, C, M, S, J>(
    settings: Settings,
    runs: Seq<RetryRun<T, C>>,
    errors: Seq<T::Error>,
    delays: Seq<Duration>,
    ops: &FloatOps<M, S, J>,
    i: int,
) where
    T: Task,
    C: Condition<T::Error>,
    M: Fn(Factor, Factor) -> Factor,
    S: Fn(Duration, Factor) -> Duration,
    J: Fn(Duration) -> u64,

    requires
        retry_trace(settings, runs, errors, delays, ops),
        0 <= i < runs.len(),
    ensures
        runs[i].backoffs().left == settings.max_retries - i,
        runs[i].backoffs().max_delay == settings.max_delay,
    decreases i,
{
    if i > 0 {
        retry_left(settings, runs, errors, delays, ops, i - 1);
        retry_trace_round(settings, runs, errors, delays, ops, i - 1);
    }
}

/// The pauses between the calls of a run are a schedule of its policy, so what holds of
/// schedules holds of them.
pub proof fn retry_pauses_are_scheduled<T, C, M, S, J>(
    settings: Settings,
    runs: Seq<RetryRun<T, C>>,
    errors: Seq<T::Error>,
    delays: Seq<Duration>,
    ops: &FloatOps<M, S, J>,
) where
    T: Task,
    C: Condition<T::Error>,
    M: Fn(Factor, Factor) -> Factor,
    S: Fn(Duration, Factor) -> Duration,
    J: Fn(Duration) -> u64,

    requires
        retry_trace(settings, runs, errors, delays, ops),
    ensures
        crate::backoff_laws::is_schedule(
            runs.map_values(|run: RetryRun<T, C>| run.backoffs()),
            delays.map_values(|delay: Duration| delay@),
            ops,
        ),
        settings.starts(settings.backoff, runs[0].backoffs()),
{
    let states = runs.map_values(|run: RetryRun<T, C>| run.backoffs());
    let lengths = delays.map_values(|delay: Duration| delay@);
    assert forall|i: int| 0 <= i < lengths.len() implies states[i].pauses(
        ops,
        #[trigger] lengths[i],
        states[i + 1],
    ) by {
        retry_trace_round(settings, runs, errors, delays, ops, i);
    }
}

/// Without jitter, and where `multiply` and `scale` give one result for the same arguments, the
/// pauses between the calls of a run are the first ones of all the pauses of its policy.
pub proof fn retry_waits_are_the_pauses<T, C, M, S, J>(
    settings: Settings,
    runs: Seq<RetryRun<T, C>>,
    errors: Seq<T::Error>,
    delays: Seq<Duration>,
    all: Seq<nat>,
    ops: &FloatOps<M, S, J>,
) where
    T: Task,
    C: Condition<T::Error>,
    M: Fn(Factor, Factor) -> Factor,
    S: Fn(Duration, Factor) -> Duration,
    J: Fn(Duration) -> u64,

    requires
        retry_trace(settings, runs, errors, delays, ops),
        crate::backoff_laws::are_all_pauses(settings, all, ops),
        !settings.jitter,
        crate::backoff_laws::is_function(ops),
    ensures
        delays.len() <= all.len(),
        forall|i: int| 0 <= i < delays.len() ==> (#[trigger] delays[i])@ == all[i],
{
    retry_pauses_are_scheduled(settings, runs, errors, delays, ops);
    let states = runs.map_values(|run: RetryRun<T, C>| run.backoffs());
    let lengths = delays.map_values(|delay: Duration| delay@);
    crate::backoff_laws::schedule_is_prefix(settings, all, states, lengths, ops);
    assert forall|i: int| 0 <= i < delays.len() implies (#[trigger] delays[i])@ == all[i] by {
        assert(lengths[i] == all.take(lengths.len() as int)[i]);
    }
}

/// Under the default policy, while the arithmetic on powers of two is exact, the pauses are one
/// second, two, four, eight and sixteen, as far as the run goes.
pub proof fn default_waits_double<T, C, M, S, J>(
    settings: Settings,
    runs: Seq<RetryRun<T, C>>,
    errors: Seq<T::Error>,
    delays: Seq<Duration>,
    ops: &FloatOps<M, S, J>,
    i: int,
) where
    T: Task,
    C: Condition<T::Error>,
    M: Fn(Factor, Factor) -> Factor,
    S: Fn(Duration, Factor) -> Duration,
    J: Fn(Duration) -> u64,

    requires
        settings.is_default(),
        retry_trace(settings, runs, errors, delays, ops),
        crate::backoff_laws::doubles_exactly(ops, settings.max_retries as int),
        crate::backoff_laws::scales_exactly(ops, settings.delay, settings.max_retries as int),
        0 <= i < delays.len(),
    ensures
        delays.len() <= 5,
        delays[i]@ == NANOS_PER_SEC * vstd::arithmetic::power2::pow2(i as nat),
{
    retry_calls_are_bounded(settings, runs, errors, delays, ops, 0);
    retry_pauses_are_scheduled(settings, runs, errors, delays, ops);
    let states = runs.map_values(|run: RetryRun<T, C>| run.backoffs());
    let lengths = delays.map_values(|delay: Duration| delay@);
    crate::backoff_laws::doubling_pauses(states, lengths, ops, i);
    assert(lengths[i] == delays[i]@);
}

/// No pause of a run is longer than the longest one allowed.
pub proof fn retry_pauses_are_bounded<T, C, M, S, J>(
    settings: Settings,
    runs: Seq<RetryRun<T, C>>,
    errors: Seq<T::Error>,
    delays: Seq<Duration>,
    ops: &FloatOps<M, S, J>,
    i: int,
) where
    T: Task,
    C: Condition<T::Error>,
    M: Fn(Factor, Factor) -> Factor,
    S: Fn(Duration, Factor) -> Duration,
    J: Fn(Duration) -> u64,

    requires
        retry_trace(settings, runs, errors, delays, ops),
        0 <= i < delays.len(),
    ensures
        settings.max_delay matches Some(max) ==> delays[i]@ <= max@,
{
    retry_calls_are_bounded(settings, runs, errors, delays, ops, i);
    retry_trace_round(settings, runs, errors, delays, ops, i);
}

/// When its error is found retryable, a task that goes on failing is called exactly once more
/// than there are retries, and the run gives the last error.
pub proof fn persistent_failure_exhausts_retries<T, C, M, S, J>(
    settings: Settings,
    runs: Seq<RetryRun<T, C>>,
    errors: Seq<T::Error>,
    delays: Seq<Duration>,
    ops: &FloatOps<M, S, J>,
    fut: T::Fut,
    called: RetryRun<T, C>,
    error: T::Error,
    step: Step<RetryRun<T, C>, T::Item, T::Error>,
) where
    T: Task,
    C: Condition<T::Error>,
    M: Fn(Factor, Factor) -> Factor,
    S: Fn(Duration, Factor) -> Duration,
    J: Fn(Duration) -> u64,

    requires
        retry_trace(settings, runs, errors, delays, ops),
        runs.last().called(fut, called),
        called.resumed_given(Err(error), true, ops, step),
    ensures
        runs.len() <= settings.max_retries + 1,
        runs.len() <= settings.max_retries ==> step is Retry,
        runs.len() == settings.max_retries + 1 ==> step == Step::<
            RetryRun<T, C>,
            T::Item,
            T::Error,
        >::Finish(Err(error)),
{
    retry_calls_are_bounded(settings, runs, errors, delays, ops, runs.len() - 1);
}

/// A task that is retried on every error is called exactly once more than there are retries
/// when it goes on failing, and the run gives the last error.
pub proof fn always_exhausts_retries<T, M, S, J>(
    settings: Settings,
    runs: Seq<RetryRun<T, Always>>,
    errors: Seq<T::Error>,
    delays: Seq<Duration>,
    ops: &FloatOps<M, S, J>,
    fut: T::Fut,
    called: RetryRun<T, Always>,
    error: T::Error,
    step: Step<RetryRun<T, Always>, T::Item, T::Error>,
) where
    T: Task,
    M: Fn(Factor, Factor) -> Factor,
    S: Fn(Duration, Factor) -> Duration,
    J: Fn(Duration) -> u64,

    requires
        retry_trace(settings, runs, errors, delays, ops),
        runs.last().called(fut, called),
        called.resumed(Err(error), ops, step),
    ensures
        runs.len() <= settings.max_retries + 1,
        runs.len() <= settings.max_retries ==> step is Retry,
        runs.len() == settings.max_retries + 1 ==> step == Step::<
            RetryRun<T, Always>,
            T::Item,
            T::Error,
        >::Finish(Err(error)),
{
    persistent_failure_exhausts_retries(
        settings,
        runs,
        errors,
        delays,
        ops,
        fut,
        called,
        error,
        step,
    );
}

/// An error that the condition finds not retryable ends the run at once and is what it gives.
pub proof fn refused_error_is_final<T, C, M, S, J>(
    run: RetryRun<T, C>,
    ops: &FloatOps<M, S, J>,
    error: T::Error,
    step: Step<RetryRun<T, C>, T::Item, T::Error>,
) where
    T: Task,
    C: Condition<T::Error>,
    M: Fn(Factor, Factor) -> Factor,
    S: Fn(Duration, Factor) -> Duration,
    J: Fn(Duration) -> u64,

    requires
        run.resumed_given(Err(error), false, ops, step),
    ensures
        step == Step::<RetryRun<T, C>, T::Item, T::Error>::Finish(Err(error)),
{
}

/// A success ends the run at once and is what it gives, whatever came before.
pub proof fn success_is_final<T, C, M, S, J>(
    run: RetryRun<T, C>,
    ops: &FloatOps<M, S, J>,
    item: T::Item,
    step: Step<RetryRun<T, C>, T::Item, T::Error>,
) where
    T: Task,
    C: Condition<T::Error>,
    M: Fn(Factor, Factor) -> Factor,
    S: Fn(Duration, Factor) -> Duration,
    J: Fn(Duration) -> u64,

    requires
        run.resumed(Ok(item), ops, step),
    ensures
        step == Step::<RetryRun<T, C>, T::Item, T::Error>::Finish(Ok(item)),
{
}

/// A run ends with what its last call came to.
pub proof fn retry_gives_its_outcome<T, C, M, S, J>(
    run: RetryRun<T, C>,
    outcome: Result<T::Item, T::Error>,
    retryable: bool,
    result: Result<T::Item, T::Error>,
    ops: &FloatOps<M, S, J>,
) where
    T: Task,
    C: Condition<T::Error>,
    M: Fn(Factor, Factor) -> Factor,
    S: Fn(Duration, Factor) -> Duration,
    J: Fn(Duration) -> u64,

    requires
        retry_ends(run, outcome, retryable, result, ops),
    ensures
        result == outcome,
{
}

/// The calls of a run came to what `behaves` says of them, counted from 0.
pub open spec fn retry_behaves<I, E>(
    errors: Seq<E>,
    outcome: Result<I, E>,
    behaves: spec_fn(int) -> Result<I, E>,
) -> bool {
    &&& forall|i: int| 0 <= i < errors.len() ==> behaves(i) == Err::<I, E>(#[trigger] errors[i])
    &&& behaves(errors.len() as int) == outcome
}

/// The condition of a run found of each error what `verdicts` says of the errors up to it: those
/// after which the run went on were retryable, and an error of its last call was `retryable` or
/// not.
pub open spec fn retry_judges<I, E>(
    errors: Seq<E>,
    outcome: Result<I, E>,
    retryable: bool,
    verdicts: spec_fn(Seq<E>) -> bool,
) -> bool {
    &&& forall|i: int|
        0 <= i < errors.len() ==> verdicts(errors.take(i).push(#[trigger] errors[i]))
    &&& outcome matches Err(error) ==> retryable == verdicts(errors.push(error))
}

/// A run ends no later than another one whose calls come to the same and whose condition finds
/// the same.
proof fn retry_cannot_outlast<T, C, M, S, J>(
    settings: Settings,
    runs: Seq<RetryRun<T, C>>,
    errors: Seq<T::Error>,
    delays: Seq<Duration>,
    outcome: Result<T::Item, T::Error>,
    retryable: bool,
    result: Result<T::Item, T::Error>,
    other_runs: Seq<RetryRun<T, C>>,
    other_errors: Seq<T::Error>,
    other_delays: Seq<Duration>,
    other_outcome: Result<T::Item, T::Error>,
    other_retryable: bool,
    behaves: spec_fn(int) -> Result<T::Item, T::Error>,
    verdicts: spec_fn(Seq<T::Error>) -> bool,
    ops: &FloatOps<M, S, J>,
) where
    T: Task,
    C: Condition<T::Error>,
    M: Fn(Factor, Factor) -> Factor,
    S: Fn(Duration, Factor) -> Duration,
    J: Fn(Duration) -> u64,

    requires
        retry_trace(settings, runs, errors, delays, ops),
        retry_ends(runs.last(), outcome, retryable, result, ops),
        retry_behaves(errors, outcome, behaves),
        retry_judges(errors, outcome, retryable, verdicts),
        retry_trace(settings, other_runs, other_errors, other_delays, ops),
        retry_behaves(other_errors, other_outcome, behaves),
        retry_judges(other_errors, other_outcome, other_retryable, verdicts),
    ensures
        other_errors.len() <= errors.len(),
{
    let n = errors.len() as int;
    if other_errors.len() > n {
        assert forall|k: int| 0 <= k < n implies errors[k] == other_errors[k] by {
            assert(behaves(k) == Err::<T::Item, T::Error>(errors[k]));
            assert(behaves(k) == Err::<T::Item, T::Error>(other_errors[k]));
        }
        assert(errors =~= other_errors.take(n));
        assert(outcome == Err::<T::Item, T::Error>(other_errors[n]));
        retry_calls_are_bounded(settings, runs, errors, delays, ops, n);
        retry_calls_are_bounded(settings, other_runs, other_errors, other_delays, ops, n);
        retry_trace_round(settings, other_runs, other_errors, other_delays, ops, n);
    }
}

/// Two runs under the same settings whose calls come to the same, and whose conditions find the
/// same of the same errors, make the same number of calls, show the same errors to their
/// conditions and end with the same result.
pub proof fn retry_result_is_determined<T, C, M, S, J>(
    settings: Settings,
    runs: Seq<RetryRun<T, C>>,
    errors: Seq<T::Error>,
    delays: Seq<Duration>,
    outcome: Result<T::Item, T::Error>,
    retryable: bool,
    result: Result<T::Item, T::Error>,
    other_runs: Seq<RetryRun<T, C>>,
    other_errors: Seq<T::Error>,
    other_delays: Seq<Duration>,
    other_outcome: Result<T::Item, T::Error>,
    other_retryable: bool,
    other_result: Result<T::Item, T::Error>,
    behaves: spec_fn(int) -> Result<T::Item, T::Error>,
    verdicts: spec_fn(Seq<T::Error>) -> bool,
    ops: &FloatOps<M, S, J>,
) where
    T: Task,
    C: Condition<T::Error>,
    M: Fn(Factor, Factor) -> Factor,
    S: Fn(Duration, Factor) -> Duration,
    J: Fn(Duration) -> u64,

    requires
        retry_trace(settings, runs, errors, delays, ops),
        retry_ends(runs.last(), outcome, retryable, result, ops),
        retry_behaves(errors, outcome, behaves),
        retry_judges(errors, outcome, retryable, verdicts),
        retry_trace(settings, other_runs, other_errors, other_delays, ops),
        retry_ends(other_runs.last(), other_outcome, other_retryable, other_result, ops),
        retry_behaves(other_errors, other_outcome, behaves),
        retry_judges(other_errors, other_outcome, other_retryable, verdicts),
    ensures
        runs.len() == other_runs.len(),
        errors == other_errors,
        outcome == other_outcome,
        result == other_result,
{
    retry_cannot_outlast(
        settings,
        runs,
        errors,
        delays,
        outcome,
        retryable,
        result,
        other_runs,
        other_errors,
        other_delays,
        other_outcome,
        other_retryable,
        behaves,
        verdicts,
        ops,
    );
    retry_cannot_outlast(
        settings,
        other_runs,
        other_errors,
        other_delays,
        other_outcome,
        other_retryable,
        other_result,
        runs,
        errors,
        delays,
        outcome,
        retryable,
        behaves,
        verdicts,
        ops,
    );
    assert forall|k: int| 0 <= k < errors.len() implies errors[k] == other_errors[k] by {
        assert(behaves(k) == Err::<T::Item, T::Error>(errors[k]));
        assert(behaves(k) == Err::<T::Item, T::Error>(other_errors[k]));
    }
    assert(errors =~= other_errors);
    retry_gives_its_outcome(runs.last(), outcome, retryable, result, ops);
    retry_gives_its_outcome(other_runs.last(), other_outcome, other_retryable, other_result, ops);
}

/// All runs of a task and a condition under a default policy start the same, whether a default
/// policy is asked for them or none.
pub proof fn default_runs_start_alike<T, C>(
    a: RetryRun<T, C>,
    b: RetryRun<T, C>,
    a_settings: Settings,
    b_settings: Settings,
    task: T,
    condition: C,
)
    requires
        a_settings.is_default(),
        b_settings.is_default(),
        a.starts(a_settings, task, condition),
        b.starts(b_settings, task, condition),
    ensures
        a == b,
{
    crate::policy::default_settings_are_the_same(a_settings, b_settings);
    crate::policy::settings_fix_the_start(
        a_settings,
        a_settings.backoff,
        a.backoffs(),
        b.backoffs(),
    );
    crate::retry_run::run_is_its_parts(a, b);
}

/// A run starts with its task and condition, and with the pauses of its policy.
pub proof fn retry_starts_as_asked<T, C>(
    run: RetryRun<T, C>,
    settings: Settings,
    task: T,
    condition: C,
)
    requires
        run.starts(settings, task, condition),
    ensures
        run.task() == task,
        run.condition() == condition,
        run.backoffs().backoff == settings.backoff,
        run.backoffs().current@ == 0x3FF0_0000_0000_0000,
        run.backoffs().jitter == settings.jitter,
        run.backoffs().delay == settings.delay,
        run.backoffs().max_delay == settings.max_delay,
        run.backoffs().left == settings.max_retries,
{
}

/// A call starts the task, and leaves the condition and the pauses as they are.
pub proof fn retry_call_starts_the_task<T, C>(
    run: RetryRun<T, C>,
    fut: T::Fut,
    called: RetryRun<T, C>,
) where T: Task, C: Condition<T::Error>
    requires
        run.called(fut, called),
    ensures
        run.task().called(fut, &called.task()),
        called.condition() == run.condition(),
        called.backoffs() == run.backoffs(),
{
}

/// What is decided of an error: where it is retryable and a pause is left, the run takes the next
/// pause and goes on with the task and the condition that it has; otherwise it gives the error.
pub proof fn retry_decision_takes_a_pause<T, C, M, S, J>(
    run: RetryRun<T, C>,
    error: T::Error,
    retryable: bool,
    ops: &FloatOps<M, S, J>,
    step: Step<RetryRun<T, C>, T::Item, T::Error>,
) where
    T: Task,
    C: Condition<T::Error>,
    M: Fn(Factor, Factor) -> Factor,
    S: Fn(Duration, Factor) -> Duration,
    J: Fn(Duration) -> u64,

    requires
        run.decided(error, retryable, ops, step),
    ensures
        match step {
            Step::Retry { run: next, error: cause, delay } => {
                &&& retryable
                &&& cause == error
                &&& next.task() == run.task()
                &&& next.condition() == run.condition()
                &&& run.backoffs().pauses(ops, delay@, next.backoffs())
                &&& next.backoffs().left == run.backoffs().left - 1
            },
            Step::Finish(result) => {
                &&& result == Err::<T::Item, T::Error>(error)
                &&& !retryable || run.backoffs().left == 0
            },
            Step::Again { .. } => false,
        },
{
}

/// What follows a failure goes by what the condition itself answers when asked about the error:
/// where the answer is yes and a pause is left, the run takes the next pause and goes on with the
/// condition as the answer left it; otherwise the error is the result.
pub proof fn retry_goes_by_the_answer<T, C, M, S, J>(
    called: RetryRun<T, C>,
    ops: &FloatOps<M, S, J>,
    error: T::Error,
    step: Step<RetryRun<T, C>, T::Item, T::Error>,
) where
    T: Task,
    C: Condition<T::Error>,
    M: Fn(Factor, Factor) -> Factor,
    S: Fn(Duration, Factor) -> Duration,
    J: Fn(Duration) -> u64,

    requires
        called.resumed(Err(error), ops, step),
    ensures
        exists|answer: bool, after: C| #[trigger]
            called.condition().judged(&error, answer, &after) && match step {
                Step::Retry { run, error: cause, delay } => {
                    &&& answer
                    &&& cause == error
                    &&& run.condition() == after
                    &&& run.task() == called.task()
                    &&& called.backoffs().pauses(ops, delay@, run.backoffs())
                    &&& run.backoffs().left == called.backoffs().left - 1
                },
                Step::Finish(result) => {
                    &&& result == Err::<T::Item, T::Error>(error)
                    &&& !answer || called.backoffs().left == 0
                },
                Step::Again { .. } => false,
            },
{
    let retryable = choose|retryable: bool| #[trigger]
        called.resumed_given(Err(error), retryable, ops, step);
    let judged = choose|judged: RetryRun<T, C>| #[trigger]
        called.judges(error, retryable, judged) && judged.decided(error, retryable, ops, step);
    assert(called.condition().judged(&error, retryable, &judged.condition()));
    retry_decision_takes_a_pause(judged, error, retryable, ops, step);
}

/// A run ends with an error only where there were as many retries as its policy allows, or where
/// the condition answers no to that error. An error to which it can only answer yes is retried
/// while retries are left, and one to which it can only answer no never is.
pub proof fn retry_gives_up_for_a_reason<T, C, M, S, J>(
    settings: Settings,
    runs: Seq<RetryRun<T, C>>,
    errors: Seq<T::Error>,
    delays: Seq<Duration>,
    ops: &FloatOps<M, S, J>,
    fut: T::Fut,
    called: RetryRun<T, C>,
    error: T::Error,
    step: Step<RetryRun<T, C>, T::Item, T::Error>,
) where
    T: Task,
    C: Condition<T::Error>,
    M: Fn(Factor, Factor) -> Factor,
    S: Fn(Duration, Factor) -> Duration,
    J: Fn(Duration) -> u64,

    requires
        retry_trace(settings, runs, errors, delays, ops),
        runs.last().called(fut, called),
        called.resumed(Err(error), ops, step),
    ensures
        step is Retry || step == Step::<RetryRun<T, C>, T::Item, T::Error>::Finish(Err(error)),
        step is Finish && errors.len() < settings.max_retries ==> exists|after: C| #[trigger]
            runs.last().condition().judged(&error, false, &after),
        step is Retry ==> errors.len() < settings.max_retries && exists|after: C| #[trigger]
            runs.last().condition().judged(&error, true, &after),
        errors.len() < settings.max_retries && (forall|answer: bool, after: C| #[trigger]
            runs.last().condition().judged(&error, answer, &after) ==> answer) ==> step is Retry,
        (forall|answer: bool, after: C| #[trigger]
            runs.last().condition().judged(&error, answer, &after) ==> !answer) ==> step is Finish,
{
    retry_call_starts_the_task(runs.last(), fut, called);
    retry_calls_are_bounded(settings, runs, errors, delays, ops, runs.len() - 1);
    retry_goes_by_the_answer(called, ops, error, step);
    let (answer, after) = choose|answer: bool, after: C| #[trigger]
        called.condition().judged(&error, answer, &after) && match step {
            Step::Retry { run, error: cause, delay } => {
                &&& answer
                &&& cause == error
                &&& run.condition() == after
                &&& run.task() == called.task()
                &&& called.backoffs().pauses(ops, delay@, run.backoffs())
                &&& run.backoffs().left == called.backoffs().left - 1
            },
            Step::Finish(result) => {
                &&& result == Err::<T::Item, T::Error>(error)
                &&& !answer || called.backoffs().left == 0
            },
            Step::Again { .. } => false,
        };
    assert(runs.last().condition().judged(&error, answer, &after));
}

/// What the pauses of a run are, from its policy: the factors start at 1, stay there with a fixed
/// backoff and are multiplied by the exponent of the policy with an exponential one. A pause is
/// the delay of the policy scaled by its factor, jittered where the policy says so, and at most
/// the longest pause of the policy.
pub proof fn retry_pauses_are_as_configured<T, C, M, S, J>(
    settings: Settings,
    runs: Seq<RetryRun<T, C>>,
    errors: Seq<T::Error>,
    delays: Seq<Duration>,
    ops: &FloatOps<M, S, J>,
    i: int,
) where
    T: Task,
    C: Condition<T::Error>,
    M: Fn(Factor, Factor) -> Factor,
    S: Fn(Duration, Factor) -> Duration,
    J: Fn(Duration) -> u64,

    requires
        retry_trace(settings, runs, errors, delays, ops),
        0 <= i < delays.len(),
    ensures
        runs[0].backoffs().current@ == 0x3FF0_0000_0000_0000,
        match settings.backoff {
            Backoff::Fixed => runs[i + 1].backoffs().current == runs[i].backoffs().current,
            Backoff::Exponential { exponent } => call_ensures(
                ops.multiply,
                (runs[i].backoffs().current, exponent),
                runs[i + 1].backoffs().current,
            ),
        },
        settings.max_delay matches Some(max) ==> delays[i]@ <= max@,
        !settings.jitter ==> exists|scaled: Duration| #[trigger]
            call_ensures(ops.scale, (settings.delay, runs[i].backoffs().current), scaled)
                && delays[i]@ <= scaled@ && (delays[i]@ == scaled@ || (
            settings.max_delay matches Some(max) && delays[i]@ == max@)),
        settings.jitter ==> exists|scaled: Duration, millis: u64| #[trigger]
            call_ensures(ops.scale, (settings.delay, runs[i].backoffs().current), scaled)
                && #[trigger] call_ensures(ops.jitter, (scaled,), millis) && delays[i]@ <= millis
                * 1_000_000 && (delays[i]@ == millis * 1_000_000 || (
            settings.max_delay matches Some(max) && delays[i]@ == max@)),
{
    retry_pauses_are_scheduled(settings, runs, errors, delays, ops);
    let states = runs.map_values(|run: RetryRun<T, C>| run.backoffs());
    let lengths = delays.map_values(|delay: Duration| delay@);
    crate::backoff_laws::pauses_are_as_configured(settings, states, lengths, ops, i);
    assert(states[i] == runs[i].backoffs() && states[i + 1] == runs[i + 1].backoffs());
    assert(lengths[i] == delays[i]@);
}

/// With a fixed backoff and no jitter, where scaling by 1 keeps the delay as it is, every pause
/// of a run is the delay of its policy, or the longest pause of the policy if that is shorter.
pub proof fn fixed_retry_pauses_are_the_delay<T, C, M, S, J>(
    settings: Settings,
    runs: Seq<RetryRun<T, C>>,
    errors: Seq<T::Error>,
    delays: Seq<Duration>,
    ops: &FloatOps<M, S, J>,
    i: int,
) where
    T: Task,
    C: Condition<T::Error>,
    M: Fn(Factor, Factor) -> Factor,
    S: Fn(Duration, Factor) -> Duration,
    J: Fn(Duration) -> u64,

    requires
        retry_trace(settings, runs, errors, delays, ops),
        settings.backoff == Backoff::Fixed,
        !settings.jitter,
        forall|one: Factor, scaled: Duration|
            one@ == 0x3FF0_0000_0000_0000 && #[trigger] call_ensures(
                ops.scale,
                (settings.delay, one),
                scaled,
            ) ==> scaled@ == settings.delay@,
        0 <= i < delays.len(),
    ensures
        settings.max_delay is None ==> delays[i]@ == settings.delay@,
        settings.max_delay matches Some(max) ==> delays[i]@ == vstd::math::min(
            settings.delay@ as int,
            max@ as int,
        ),
{
    retry_pauses_are_scheduled(settings, runs, errors, delays, ops);
    let states = runs.map_values(|run: RetryRun<T, C>| run.backoffs());
    let lengths = delays.map_values(|delay: Duration| delay@);
    crate::backoff_laws::fixed_pauses_are_the_delay(settings, states, lengths, ops, i);
    assert(lengths[i] == delays[i]@);
}

} // verus!
