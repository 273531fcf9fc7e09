use rand::distributions::OpenClosed01;
use rand::{thread_rng, Rng};
use retry::backoff::jitter;
use retry::{Backoff, Duration, Factor, FloatOps, RetryPolicy};

fn number(factor: Factor) -> f64 {
    f64::from_bits(factor.to_bits())
}

fn factor(number: f64) -> Factor {
    Factor::from_bits(number.to_bits())
}

fn multiply(a: Factor, b: Factor) -> Factor {
    factor(number(a) * number(b))
}

fn scale(span: Duration, by: Factor) -> Duration {
    let scaled = std::time::Duration::new(span.as_secs(), span.subsec_nanos()).mul_f64(number(by));
    Duration::new(scaled.as_secs(), scaled.subsec_nanos())
}

fn draw(span: Duration) -> u64 {
    let jitter: f64 = thread_rng().sample(OpenClosed01);
    let secs = (span.as_secs() as f64) * jitter;
    let nanos = (span.subsec_nanos() as f64) * jitter;
    ((secs * 1_000_f64) + (nanos / 1_000_000_f64)) as u64
}

fn half(span: Duration) -> u64 {
    span.as_secs() * 500 + (span.subsec_nanos() / 2_000_000) as u64
}

fn as_secs_f64(span: Duration) -> f64 {
    std::time::Duration::new(span.as_secs(), span.subsec_nanos()).as_secs_f64()
}

/// All pauses of a run under `policy`, with jitter that takes one half.
fn pauses(policy: &RetryPolicy) -> Vec<Duration> {
    let ops = FloatOps { multiply, scale, jitter: half };
    let mut iter = policy.backoffs();
    let mut all = vec![];
    while let Some(pause) = iter.next(&ops) {
        all.push(pause);
    }
    assert_eq!(iter.next(&ops), None);
    all
}

fn secs(lengths: &[u64]) -> Vec<Duration> {
    lengths.iter().map(|s| Duration::from_secs(*s)).collect()
}

#[test]
fn retry_policy_is_send() {
    fn test(_: impl Send) {}
    test(RetryPolicy::default())
}

#[test]
fn jitter_adds_variance_to_durations() {
    assert_ne!(jitter(draw(Duration::from_secs(1))), Duration::from_secs(1))
}

#[test]
fn backoff_default() {
    if let Backoff::Exponential { exponent } = Backoff::default() {
        assert_eq!(number(exponent), 2.0);
    } else {
        panic!("Default backoff expected to be exponential");
    }
}

#[test]
fn exponential_backoff() {
    let ops = FloatOps { multiply, scale, jitter: draw };
    let mut iter = RetryPolicy::exponential(Duration::from_secs(1)).backoffs();
    assert_eq!(as_secs_f64(iter.next(&ops).unwrap()), 1.0);
    assert_eq!(as_secs_f64(iter.next(&ops).unwrap()), 2.0);
    assert_eq!(as_secs_f64(iter.next(&ops).unwrap()), 4.0);
    assert_eq!(as_secs_f64(iter.next(&ops).unwrap()), 8.0);
    assert_eq!(as_secs_f64(iter.next(&ops).unwrap()), 16.0);
}

#[test]
fn default_policy_doubles_from_one_second_five_times() {
    assert_eq!(pauses(&RetryPolicy::default()), secs(&[1, 2, 4, 8, 16]));
}

#[test]
fn fixed_pauses_are_the_delay() {
    let policy = RetryPolicy::fixed(Duration::from_millis(250));
    assert_eq!(pauses(&policy), vec![Duration::from_millis(250); 5]);
}

#[test]
fn exponent_of_an_exponential_backoff_is_replaced() {
    let policy =
        RetryPolicy::exponential(Duration::from_secs(2)).with_backoff_exponent(factor(1.5));
    let expected = vec![
        Duration::from_secs(2),
        Duration::from_secs(3),
        Duration::from_millis(4500),
        Duration::from_millis(6750),
        Duration::from_millis(10125),
    ];
    assert_eq!(pauses(&policy), expected);
}

#[test]
fn exponent_leaves_a_fixed_backoff_alone() {
    let policy = RetryPolicy::fixed(Duration::from_secs(1)).with_backoff_exponent(factor(3.0));
    assert_eq!(pauses(&policy), secs(&[1, 1, 1, 1, 1]));
}

#[test]
fn pauses_are_cut_to_the_longest() {
    let policy = RetryPolicy::default().with_max_delay(Duration::from_secs(5));
    assert_eq!(pauses(&policy), secs(&[1, 2, 4, 5, 5]));
    let policy = RetryPolicy::default().with_max_delay(Duration::new(4, 1));
    let last = Duration::new(4, 1);
    assert_eq!(pauses(&policy)[2..], [Duration::from_secs(4), last, last]);
    let policy = RetryPolicy::default().with_max_delay(Duration::new(0, 0));
    assert_eq!(pauses(&policy), secs(&[0, 0, 0, 0, 0]));
}

#[test]
fn number_of_pauses_is_the_number_of_retries() {
    assert_eq!(pauses(&RetryPolicy::default().with_max_retries(0)), vec![]);
    assert_eq!(pauses(&RetryPolicy::default().with_max_retries(1)), secs(&[1]));
    assert_eq!(pauses(&RetryPolicy::default().with_max_retries(40)).len(), 40);
}

#[test]
fn jitter_applies_before_the_longest_pause_does() {
    let policy = RetryPolicy::default()
        .with_jitter(true)
        .with_max_delay(Duration::from_secs(3));
    let expected = vec![
        Duration::from_millis(500),
        Duration::from_secs(1),
        Duration::from_secs(2),
        Duration::from_secs(3),
        Duration::from_secs(3),
    ];
    assert_eq!(pauses(&policy), expected);
    assert_eq!(pauses(&policy.with_jitter(false)), secs(&[1, 2, 3, 3, 3]));
}

#[test]
fn jitter_lasts_whole_milliseconds() {
    assert_eq!(jitter(1_234), Duration::new(1, 234_000_000));
    let ops = FloatOps { multiply, scale, jitter: draw };
    let policy = RetryPolicy::exponential(Duration::new(7, 123_456_789)).with_jitter(true);
    let mut iter = policy.backoffs();
    while let Some(pause) = iter.next(&ops) {
        assert_eq!(pause.subsec_nanos() % 1_000_000, 0);
    }
}

#[test]
fn iter_takes_its_backoff_over_that_of_the_policy() {
    let ops = FloatOps { multiply, scale, jitter: half };
    let mut iter = Backoff::Fixed.iter(&RetryPolicy::default());
    assert_eq!(iter.next(&ops), Some(Duration::from_secs(1)));
    assert_eq!(iter.next(&ops), Some(Duration::from_secs(1)));
}

#[test]
fn bound_is_the_shorter_of_two_spans() {
    let iter = RetryPolicy::default().with_max_delay(Duration::from_secs(5)).backoffs();
    assert_eq!(iter.bound(Duration::new(5, 1)), Duration::from_secs(5));
    assert_eq!(iter.bound(Duration::new(4, 999_999_999)), Duration::new(4, 999_999_999));
    let iter = RetryPolicy::default().backoffs();
    assert_eq!(iter.bound(Duration::new(u64::MAX, 999_999_999)).as_secs(), u64::MAX);
}

#[test]
fn clone_of_a_policy_is_configured_alike() {
    let policy = RetryPolicy::default()
        .with_jitter(true)
        .with_max_delay(Duration::from_secs(3))
        .with_max_retries(4);
    assert_eq!(pauses(&policy.clone()), pauses(&policy));
}

#[test]
fn one_and_two_are_numbers() {
    assert_eq!(number(Factor::one()), 1.0);
    assert_eq!(number(Factor::two()), 2.0);
}

#[test]
fn spans_carry_and_compare() {
    assert_eq!(Duration::new(1, 2_500_000_000), Duration::new(3, 500_000_000));
    assert_eq!(Duration::from_millis(61_005), Duration::new(61, 5_000_000));
    assert_eq!(Duration::from_secs(2), Duration::from_millis(2_000));
    assert_eq!(Duration::new(1, 5).min(Duration::new(1, 4)), Duration::new(1, 4));
    assert_eq!(Duration::new(1, 5).min(Duration::new(2, 0)), Duration::new(1, 5));
}

#[test]
fn pauses_repeat_from_the_start() {
    let ops = FloatOps { multiply, scale, jitter: half };
    let policy = RetryPolicy::exponential(Duration::from_millis(300))
        .with_backoff_exponent(factor(1.7))
        .with_max_retries(8);
    let mut first = policy.backoffs();
    first.next(&ops);
    first.next(&ops);
    assert_eq!(pauses(&policy), pauses(&policy));
    assert_eq!(first.next(&ops), Some(pauses(&policy)[2]));
}

#[test]
fn pauses_do_not_shrink_for_exponents_from_one_on() {
    for exponent in [1.0, 1.001, 1.5, 2.0, 10.0] {
        let policy = RetryPolicy::exponential(Duration::new(3, 141_592_653))
            .with_backoff_exponent(factor(exponent))
            .with_max_delay(Duration::from_secs(1_000))
            .with_max_retries(12);
        let all = pauses(&policy);
        for pair in all.windows(2) {
            assert_eq!(pair[0].min(pair[1]), pair[0]);
        }
    }
}
