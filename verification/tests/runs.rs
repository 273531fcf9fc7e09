use retry::{
    Always, Condition, Duration, Factor, FloatOps, RetryPolicy, RetryRun, Step, SuccessCondition,
    Task, TaskWithParameter,
};
use std::cell::Cell;
use std::future::{ready, Future, Ready};
use std::rc::Rc;
use std::sync::Arc;
use std::task::{Context, Poll, Wake, Waker};

struct Idle;

impl Wake for Idle {
    fn wake(self: Arc<Self>) {}
}

/// What comes of a future that does not wait for anything.
fn outcome<F: Future>(fut: F) -> F::Output {
    let waker = Waker::from(Arc::new(Idle));
    match Box::pin(fut).as_mut().poll(&mut Context::from_waker(&waker)) {
        Poll::Ready(output) => output,
        Poll::Pending => panic!("the future waits"),
    }
}

fn number(factor: Factor) -> f64 {
    f64::from_bits(factor.to_bits())
}

fn multiply(a: Factor, b: Factor) -> Factor {
    Factor::from_bits((number(a) * number(b)).to_bits())
}

fn scale(span: Duration, by: Factor) -> Duration {
    let scaled = std::time::Duration::new(span.as_secs(), span.subsec_nanos()).mul_f64(number(by));
    Duration::new(scaled.as_secs(), scaled.subsec_nanos())
}

fn jitter(span: Duration) -> u64 {
    span.as_secs() * 1_000 + (span.subsec_nanos() / 1_000_000) as u64
}

/// The result of a retrying run, with the pauses that it took.
fn drive_retry<T: Task, C: Condition<T::Error>>(
    mut run: RetryRun<T, C>,
) -> (Result<T::Item, T::Error>, Vec<Duration>) {
    let ops = FloatOps { multiply, scale, jitter };
    let mut pauses = vec![];
    loop {
        let came = outcome(run.call());
        match run.resume(came, &ops) {
            Step::Finish(result) => return (result, pauses),
            Step::Retry { run: next, delay, .. } => {
                pauses.push(delay);
                run = next;
            }
            Step::Again { .. } => panic!("a failure is no success"),
        }
    }
}

/// The result of a collecting run, with the pauses that it took.
fn drive_collect<T, C, S>(
    policy: &RetryPolicy,
    task: T,
    condition: C,
    start_value: S,
) -> (Result<Vec<T::Item>, T::Error>, Vec<Duration>)
where
    T: TaskWithParameter<S>,
    C: SuccessCondition<T::Item, S>,
{
    let ops = FloatOps { multiply, scale, jitter };
    let mut run = policy.collect(task, condition, start_value);
    let mut pauses = vec![];
    loop {
        let (fut, called) = run.call();
        match called.resume(outcome(fut), &ops) {
            Step::Finish(result) => return (result, pauses),
            Step::Again { run: next, delay } => {
                pauses.push(delay);
                run = next;
            }
            Step::Retry { .. } => panic!("an error ends the run"),
        }
    }
}

/// The result of a collecting and retrying run, with the pauses after successes and failures.
fn drive_collect_and_retry<T, C, D, S>(
    policy: &RetryPolicy,
    task: T,
    success_condition: C,
    error_condition: D,
    start_value: S,
) -> (Result<Vec<T::Item>, T::Error>, Vec<Duration>, Vec<Duration>)
where
    T: TaskWithParameter<S>,
    C: SuccessCondition<T::Item, S>,
    D: Condition<T::Error>,
    S: Clone,
{
    let ops = FloatOps { multiply, scale, jitter };
    let mut run = policy.collect_and_retry(task, success_condition, error_condition, start_value);
    let (mut successes, mut failures) = (vec![], vec![]);
    loop {
        let (fut, called) = run.call();
        match called.resume(outcome(fut), &ops) {
            Step::Finish(result) => return (result, successes, failures),
            Step::Again { run: next, delay } => {
                successes.push(delay);
                run = next;
            }
            Step::Retry { run: next, delay, .. } => {
                failures.push(delay);
                run = next;
            }
        }
    }
}

fn secs(lengths: &[u64]) -> Vec<Duration> {
    lengths.iter().map(|s| Duration::from_secs(*s)).collect()
}

#[test]
fn always_is_always_retryable() {
    assert!(Always.is_retryable(&()))
}

#[test]
fn closures_impl_condition() {
    fn test(_: impl Condition<()>) {}
    fn foo(_err: &()) -> bool {
        true
    }
    test(foo);
    test(|_err: &()| true);
}

#[test]
fn closures_impl_task() {
    fn test(_: impl Task) {}
    async fn foo() -> Result<u32, ()> {
        Ok(34)
    }
    test(foo);
    test(|| async { Ok::<u32, ()>(34) });
}

#[test]
fn closures_impl_task_with_param() {
    fn test<P>(_: impl TaskWithParameter<P>) {}
    async fn foo(p: u32) -> Result<u32, ()> {
        Ok(p + 1)
    }
    test(foo);
    test(|p: u32| async move { Ok::<u32, ()>(p + 1) })
}

#[test]
fn task_implemented_for_closure() {
    let f = || async { Ok::<u32, u32>(10) };

    assert_eq!(drive_retry(retry::retry(f)).0.unwrap(), 10);
}

#[test]
fn retried_futures_are_send_when_tasks_are_send() {
    fn test(_: impl Send) {}
    test(RetryPolicy::default().retry(|| async { Ok::<u32, ()>(34) }))
}

#[test]
fn collect_retries_when_condition_is_met() {
    let (result, pauses) = drive_collect(
        &RetryPolicy::fixed(Duration::from_millis(1)),
        |input: u32| async move { Ok::<u32, ()>(input + 1) },
        |result: &u32| if *result < 2 { Some(*result) } else { None },
        0_u32,
    );
    assert_eq!(result, Ok(vec![1, 2]));
    assert_eq!(pauses, vec![Duration::from_millis(1)]);
}

#[test]
fn collect_does_not_retry_when_condition_is_not_met() {
    let (result, pauses) = drive_collect(
        &RetryPolicy::fixed(Duration::from_millis(1)),
        |input: u32| async move { Ok::<u32, ()>(input + 1) },
        |result: &u32| if *result < 1 { Some(*result) } else { None },
        0_u32,
    );
    assert_eq!(result, Ok(vec![1]));
    assert_eq!(pauses, vec![]);
}

#[test]
fn collect_and_retry_retries_when_success_condition_is_met() {
    let (result, ..) = drive_collect_and_retry(
        &RetryPolicy::fixed(Duration::from_millis(1)),
        |input: u32| async move { Ok::<u32, u32>(input + 1) },
        |result: &u32| if *result < 2 { Some(*result) } else { None },
        |err: &u32| *err > 1,
        0 as u32,
    );
    assert_eq!(result, Ok(vec![1, 2]));
}

#[test]
fn collect_and_retry_does_not_retry_when_success_condition_is_not_met() {
    let (result, ..) = drive_collect_and_retry(
        &RetryPolicy::fixed(Duration::from_millis(1)),
        |input: u32| async move { Ok::<u32, u32>(input + 1) },
        |result: &u32| if *result < 1 { Some(*result) } else { None },
        |err: &u32| *err > 1,
        0 as u32,
    );
    assert_eq!(result, Ok(vec![1]));
}

#[test]
fn collect_and_retry_retries_when_error_condition_is_met() {
    let mut task_ran = 0;
    let _ = drive_collect_and_retry(
        &RetryPolicy::fixed(Duration::from_millis(1)),
        |_input: u32| {
            task_ran += 1;
            async move { Err::<u32, u32>(0) }
        },
        |result: &u32| if *result < 2 { Some(*result) } else { None },
        |err: &u32| *err == 0,
        0 as u32,
    );
    // Default for retry policy is 5, so we end up with the task being
    // retries 5 times and being run 6 times.
    assert_eq!(task_ran, 6);
}

#[test]
fn collect_and_retry_does_not_retry_when_error_condition_is_not_met() {
    let (result, ..) = drive_collect_and_retry(
        &RetryPolicy::fixed(Duration::from_millis(1)),
        |input: u32| async move { Err::<u32, u32>(input + 1) },
        |result: &u32| if *result < 1 { Some(*result) } else { None },
        |err: &u32| *err > 1,
        0 as u32,
    );
    assert_eq!(result, Err(1));
}

#[test]
fn ok_futures_yield_ok() {
    let (result, _) = drive_retry(RetryPolicy::default().retry(|| async { Ok::<u32, ()>(34) }));
    assert_eq!(result, Ok(34));
}

#[derive(Debug, PartialEq)]
enum Failure {
    Retryable,
    Fatal,
}

fn is_retryable(err: &Failure) -> bool {
    match err {
        Failure::Retryable => true,
        Failure::Fatal => false,
    }
}

#[test]
fn retryable_errors_are_retried_until_the_pauses_run_out() {
    let policy = RetryPolicy::exponential(Duration::from_secs(1))
        .with_jitter(false)
        .with_backoff_exponent(Factor::from_bits(2_f64.to_bits()))
        .with_max_delay(Duration::from_secs(60))
        .with_max_retries(4);
    let mut retry_count = 0;
    let (result, pauses) = drive_retry(policy.retry_if(
        || {
            retry_count += 1;
            async { Err::<(), Failure>(Failure::Retryable) }
        },
        is_retryable,
    ));
    assert_eq!(result, Err(Failure::Retryable));
    assert_eq!(pauses, secs(&[1, 2, 4, 8]));
    assert_eq!(retry_count, 5);
}

struct MyTask {
    count: u32,
}

impl Task for MyTask {
    type Item = ();
    type Error = Failure;
    type Fut = Ready<Result<Self::Item, Self::Error>>;

    fn call(&mut self) -> Self::Fut {
        self.count += 1;
        if self.count < 3 {
            ready(Err(Failure::Retryable))
        } else {
            ready(Err(Failure::Fatal))
        }
    }
}

#[test]
fn fatal_error_of_a_task_ends_the_run() {
    let (result, pauses) =
        drive_retry(RetryPolicy::default().retry_if(MyTask { count: 0 }, is_retryable));
    assert_eq!(result, Err(Failure::Fatal));
    assert_eq!(pauses, secs(&[1, 2]));
}

#[test]
fn run_gives_the_last_error() {
    let calls = Cell::new(0);
    let (result, pauses) = drive_retry(retry::retry(|| {
        calls.set(calls.get() + 1);
        ready(Err::<(), u32>(calls.get()))
    }));
    assert_eq!(result, Err(6));
    assert_eq!(pauses, secs(&[1, 2, 4, 8, 16]));
}

#[test]
fn success_after_failures_ends_the_run() {
    let mut calls = 0;
    let (result, pauses) = drive_retry(retry::retry_if(
        || {
            calls += 1;
            ready(if calls < 4 { Err(calls) } else { Ok(calls) })
        },
        |err: &u32| *err < 10,
    ));
    assert_eq!(result, Ok(4));
    assert_eq!(pauses, secs(&[1, 2, 4]));
}

#[test]
fn retry_of_a_policy_goes_by_that_policy() {
    let mut calls = 0;
    let policy = RetryPolicy::fixed(Duration::from_millis(1)).with_max_retries(0);
    let (result, pauses) = drive_retry(policy.retry(|| {
        calls += 1;
        async { Err::<u32, u32>(7) }
    }));
    assert_eq!(result, Err(7));
    assert_eq!(calls, 1);
    assert_eq!(pauses, vec![]);

    let policy = RetryPolicy::fixed(Duration::from_secs(9)).with_max_retries(2);
    let (result, pauses) = drive_retry(policy.retry(|| ready(Err::<(), u32>(1))));
    assert_eq!(result, Err(1));
    assert_eq!(pauses, secs(&[9, 9]));
}

#[test]
fn no_retries_means_one_call() {
    let policy = RetryPolicy::default().with_max_retries(0);
    let (result, pauses) = drive_retry(policy.retry_if(|| ready(Err::<(), u32>(1)), Always));
    assert_eq!(result, Err(1));
    assert_eq!(pauses, vec![]);
}

#[test]
fn decision_on_a_failure_goes_by_its_judgement() {
    let ops = FloatOps { multiply, scale, jitter };
    let run = || RetryPolicy::default().retry_if(MyTask { count: 0 }, is_retryable);
    match run().decide(Failure::Fatal, true, &ops) {
        Step::Retry { error, delay, .. } => {
            assert_eq!(error, Failure::Fatal);
            assert_eq!(delay, Duration::from_secs(1));
        }
        _ => panic!("a pause is left"),
    }
    match run().decide(Failure::Retryable, false, &ops) {
        Step::Finish(result) => assert_eq!(result, Err(Failure::Retryable)),
        _ => panic!("the error is not retryable"),
    }
}

#[test]
fn collect_stops_when_the_pauses_run_out() {
    let policy = RetryPolicy::default().with_max_retries(3);
    let (result, pauses) = drive_collect(
        &policy,
        |input: u32| ready(Ok::<u32, ()>(input * 10)),
        |result: &u32| Some(*result + 1),
        1_u32,
    );
    assert_eq!(result, Ok(vec![10, 110, 1110, 11110]));
    assert_eq!(pauses, secs(&[1, 2, 4]));
}

#[test]
fn collect_gives_up_its_results_for_an_error() {
    let (result, pauses) = drive_collect(
        &RetryPolicy::default(),
        |input: u32| ready(if input < 2 { Ok(input + 1) } else { Err("too large") }),
        |result: &u32| Some(*result),
        0_u32,
    );
    assert_eq!(result, Err("too large"));
    assert_eq!(pauses, secs(&[1, 2]));
}

#[test]
fn failures_and_successes_have_pauses_of_their_own() {
    let policy = RetryPolicy::default().with_max_retries(2);
    let inputs = Cell::new(vec![]);
    let mut calls = 0;
    let (result, successes, failures) = drive_collect_and_retry(
        &policy,
        |input: u32| {
            let mut seen = inputs.take();
            seen.push(input);
            inputs.set(seen);
            calls += 1;
            ready(if calls == 2 || calls == 4 { Err(calls) } else { Ok(input + 1) })
        },
        |result: &u32| Some(*result * 10),
        |err: &u32| *err < 5,
        0_u32,
    );
    assert_eq!(result, Ok(vec![1, 11, 111]));
    assert_eq!(successes, secs(&[1, 2]));
    assert_eq!(failures, secs(&[1, 2]));
    assert_eq!(inputs.take(), vec![0, 10, 10, 110, 110]);
}

#[test]
fn failure_beyond_the_pauses_is_the_result() {
    let policy = RetryPolicy::default().with_max_retries(1);
    let mut calls = 0;
    let (result, successes, failures) = drive_collect_and_retry(
        &policy,
        |input: u32| {
            calls += 1;
            ready(if calls == 1 { Ok(input) } else { Err(calls) })
        },
        |result: &u32| Some(*result),
        |_err: &u32| true,
        7_u32,
    );
    assert_eq!(result, Err(3));
    assert_eq!(successes, secs(&[1]));
    assert_eq!(failures, secs(&[1]));
}

/// The pauses of a run under `policy`.
fn pauses_of(policy: &RetryPolicy) -> Vec<Duration> {
    let ops = FloatOps { multiply, scale, jitter };
    let mut iter = policy.backoffs();
    let mut all = vec![];
    while let Some(pause) = iter.next(&ops) {
        all.push(pause);
    }
    all
}

#[test]
fn waits_are_the_first_pauses_of_the_policy() {
    let policy = RetryPolicy::exponential(Duration::new(1, 500_000_000))
        .with_max_delay(Duration::from_secs(10))
        .with_max_retries(7);
    let all = pauses_of(&policy);
    assert_eq!(all.len(), 7);
    for failures in 0..7 {
        let mut calls = 0;
        let (result, waits) = drive_retry(policy.retry_if(
            || {
                calls += 1;
                ready(if calls <= failures { Err(calls) } else { Ok(calls) })
            },
            Always,
        ));
        assert_eq!(result, Ok(failures + 1));
        assert_eq!(waits, all[..failures]);
        let (result, waits) = drive_collect(
            &policy,
            |input: usize| ready(Ok::<usize, ()>(input + 1)),
            |item: &usize| if *item <= failures { Some(*item) } else { None },
            0_usize,
        );
        assert_eq!(result.unwrap().len(), failures + 1);
        assert_eq!(waits, all[..failures]);
    }
}

#[test]
fn refusing_every_error_collects_as_collect_does() {
    for limit in 0..9_u32 {
        let task = |input: u32| ready(if input < limit { Ok(input + 1) } else { Err(input) });
        let next = |item: &u32| if *item < 6 { Some(*item) } else { None };
        let policy = RetryPolicy::default().with_max_retries(4);
        let (plain, waits) = drive_collect(&policy, task, next, 0_u32);
        let (retrying, successes, failures) =
            drive_collect_and_retry(&policy, task, next, |_: &u32| false, 0_u32);
        assert_eq!(retrying, plain);
        assert_eq!(successes, waits);
        assert_eq!(failures, vec![]);
    }
}

#[test]
fn asking_for_no_other_call_retries_as_retry_if_does() {
    for failures in 0..9_u32 {
        let policy = RetryPolicy::default().with_max_retries(4);
        let retryable = |err: &u32| *err != 7;
        let mut calls = 0;
        let (plain, waits) = drive_retry(policy.retry_if(
            || {
                calls += 1;
                ready(if calls <= failures { Err(calls) } else { Ok(calls) })
            },
            retryable,
        ));
        let mut parameter_calls = 0;
        let (retrying, successes, after_failures) = drive_collect_and_retry(
            &policy,
            |_: u32| {
                parameter_calls += 1;
                ready(if parameter_calls <= failures {
                    Err(parameter_calls)
                } else {
                    Ok(parameter_calls)
                })
            },
            |_: &u32| None,
            retryable,
            0_u32,
        );
        assert_eq!(retrying, plain.map(|item| vec![item]));
        assert_eq!(parameter_calls, calls);
        assert_eq!(after_failures, waits);
        assert_eq!(successes, vec![]);
    }
}

#[test]
fn free_retries_are_those_of_the_default_policy() {
    let task = || ready(Err::<(), u32>(3));
    assert_eq!(
        drive_retry(retry::retry_if(task, Always)),
        drive_retry(RetryPolicy::default().retry_if(task, Always))
    );
    assert_eq!(
        drive_retry(retry::retry(task)),
        drive_retry(RetryPolicy::default().retry(task))
    );
}

/// An input that notes the time at which it was cloned.
struct Stamped {
    time: u32,
    clock: Rc<Cell<u32>>,
}

impl Clone for Stamped {
    fn clone(&self) -> Self {
        Stamped { time: self.clock.get(), clock: self.clock.clone() }
    }
}

/// An input that counts its clones.
struct Counted(Rc<Cell<u32>>);

impl Clone for Counted {
    fn clone(&self) -> Self {
        self.0.set(self.0.get() + 1);
        Counted(self.0.clone())
    }
}

#[test]
fn inputs_are_cloned_when_the_task_is_called() {
    let ops = FloatOps { multiply, scale, jitter };
    let clock = Rc::new(Cell::new(0));
    let at = |time: u32| Stamped { time, clock: clock.clone() };
    let run = RetryPolicy::default().collect_and_retry(
        |input: Stamped| ready(Ok::<u32, u32>(input.time)),
        |_: &u32| Some(at(100)),
        |_: &u32| true,
        at(100),
    );
    clock.set(1);
    let (fut, called) = run.call();
    assert_eq!(outcome(fut), Ok(1));
    clock.set(2);
    let run = match called.resume(Ok(7), &ops) {
        Step::Again { run, .. } => run,
        _ => panic!("the item asks for another call"),
    };
    clock.set(3);
    let (fut, called) = run.call();
    assert_eq!(outcome(fut), Ok(3));
    clock.set(4);
    let run = match called.resume(Err(7), &ops) {
        Step::Retry { run, .. } => run,
        _ => panic!("the error is retryable"),
    };
    clock.set(5);
    let (fut, _) = run.call();
    assert_eq!(outcome(fut), Ok(5));
}

#[test]
fn each_call_clones_the_input_once() {
    let clones = Rc::new(Cell::new(0));
    let mut calls = 0;
    let (result, ..) = drive_collect_and_retry(
        &RetryPolicy::default(),
        |_: Counted| {
            calls += 1;
            ready(if calls % 2 == 0 { Err(calls) } else { Ok(calls) })
        },
        |item: &u32| if *item < 5 { Some(Counted(clones.clone())) } else { None },
        |_: &u32| true,
        Counted(clones.clone()),
    );
    assert_eq!(result, Ok(vec![1, 3, 5]));
    assert_eq!(clones.get(), 5);
}

#[test]
fn conditions_and_tasks_may_change_as_they_are_called() {
    let mut seen = 0;
    let mut calls = 0;
    let (result, pauses) = drive_retry(RetryPolicy::default().retry_if(
        || {
            calls += 1;
            ready(Err::<(), u32>(calls))
        },
        |_: &u32| {
            seen += 1;
            seen < 3
        },
    ));
    assert_eq!(result, Err(3));
    assert_eq!(pauses, secs(&[1, 2]));
    assert_eq!((seen, calls), (3, 3));
}

#[test]
fn more_retries_extend_the_results() {
    let collected = |retries: usize| {
        let (result, _) = drive_collect(
            &RetryPolicy::default().with_max_retries(retries),
            |input: u32| ready(Ok::<u32, ()>(input * 2)),
            |item: &u32| if *item < 50 { Some(*item + 1) } else { None },
            1_u32,
        );
        result.unwrap()
    };
    let longest = collected(9);
    assert_eq!(longest, vec![2, 6, 14, 30, 62]);
    for fewer in 0..9 {
        for more in fewer..9 {
            assert!(collected(more).starts_with(&collected(fewer)));
        }
        assert_eq!(collected(fewer), longest[..longest.len().min(fewer + 1)]);
    }
}

#[test]
fn calls_that_come_to_the_same_give_the_same_result() {
    let policy = RetryPolicy::default().with_max_retries(3);
    for limit in 0..6_u32 {
        let collect = || {
            drive_collect(
                &policy,
                |input: u32| ready(if input < limit { Ok(input + 1) } else { Err(input) }),
                |item: &u32| Some(*item),
                0_u32,
            )
        };
        assert_eq!(collect(), collect());
        let collect_and_retry = || {
            let mut calls = 0;
            drive_collect_and_retry(
                &policy,
                |input: u32| {
                    calls += 1;
                    ready(if calls % 3 == limit % 3 { Err(calls) } else { Ok(input + 1) })
                },
                |item: &u32| Some(*item),
                |err: &u32| *err != limit,
                0_u32,
            )
        };
        assert_eq!(collect_and_retry(), collect_and_retry());
    }
}
