//! What holds of the pauses of a run as a whole.

use crate::backoff::{Backoff, BackoffState};
use crate::duration::{Duration, NANOS_PER_MILLI};
use crate::numeric::{Factor, FloatOps, INFINITY_BITS};
use crate::policy::Settings;
use vstd::prelude::*;

verus! {

/// From `states[0]` on, the pauses have the given `lengths`, and what is left goes through
/// `states`.
pub open spec fn is_schedule<M, S, J>(
    states: Seq<BackoffState>,
    lengths: Seq<nat>,
    ops: &FloatOps<M, S, J>,
) -> bool where
    M: Fn(Factor, Factor) -> Factor,
    S: Fn(Duration, Factor) -> Duration,
    J: Fn(Duration) -> u64,
 {
    &&& states.len() == lengths.len() + 1
    &&& forall|i: int|
        0 <= i < lengths.len() ==> states[i].pauses(ops, #[trigger] lengths[i], states[i + 1])
}

/// A pause spends one of those that are left, and changes nothing that was configured.
pub proof fn pause_spends_one<M, S, J>(
    before: BackoffState,
    ops: &FloatOps<M, S, J>,
    length: nat,
    after: BackoffState,
) where
    M: Fn(Factor, Factor) -> Factor,
    S: Fn(Duration, Factor) -> Duration,
    J: Fn(Duration) -> u64,

    requires
        before.pauses(ops, length, after),
    ensures
        after.left == before.left - 1,
        after.backoff == before.backoff,
        after.jitter == before.jitter,
        after.delay == before.delay,
        after.max_delay == before.max_delay,
{
}

/// No pause is longer than the longest one allowed.
pub proof fn pause_within_max_delay<M, S, J>(
    before: BackoffState,
    ops: &FloatOps<M, S, J>,
    length: nat,
    after: BackoffState,
) where
    M: Fn(Factor, Factor) -> Factor,
    S: Fn(Duration, Factor) -> Duration,
    J: Fn(Duration) -> u64,

    requires
        before.pauses(ops, length, after),
    ensures
        before.max_delay matches Some(max) ==> length <= max@,
{
}

/// With jitter, a pause that was not cut to the longest one lasts whole milliseconds.
pub proof fn jittered_pause_is_whole_millis<M, S, J>(
    before: BackoffState,
    ops: &FloatOps<M, S, J>,
    length: nat,
    after: BackoffState,
) where
    M: Fn(Factor, Factor) -> Factor,
    S: Fn(Duration, Factor) -> Duration,
    J: Fn(Duration) -> u64,

    requires
        before.pauses(ops, length, after),
        before.jitter,
        before.max_delay matches Some(max) ==> length < max@,
    ensures
        length % (NANOS_PER_MILLI as nat) == 0,
{
}

/// After `i` pauses of a schedule `i` fewer are left, and what was configured is as at first.
pub proof fn schedule_keeps_settings<M, S, J>(
    states: Seq<BackoffState>,
    lengths: Seq<nat>,
    ops: &FloatOps<M, S, J>,
    i: int,
) where
    M: Fn(Factor, Factor) -> Factor,
    S: Fn(Duration, Factor) -> Duration,
    J: Fn(Duration) -> u64,

    requires
        is_schedule(states, lengths, ops),
        0 <= i <= lengths.len(),
    ensures
        states[i].left == states[0].left - i,
        states[i].backoff == states[0].backoff,
        states[i].jitter == states[0].jitter,
        states[i].delay == states[0].delay,
        states[i].max_delay == states[0].max_delay,
    decreases i,
{
    if i > 0 {
        schedule_keeps_settings(states, lengths, ops, i - 1);
        pause_spends_one(states[i - 1], ops, lengths[i - 1], states[i]);
    }
}

/// A schedule has as many pauses as its start allows once none is left, and never more.
pub proof fn schedule_is_bounded<M, S, J>(
    states: Seq<BackoffState>,
    lengths: Seq<nat>,
    ops: &FloatOps<M, S, J>,
) where
    M: Fn(Factor, Factor) -> Factor,
    S: Fn(Duration, Factor) -> Duration,
    J: Fn(Duration) -> u64,

    requires
        is_schedule(states, lengths, ops),
    ensures
        lengths.len() <= states[0].left,
        lengths.len() == states[0].left <==> states.last().left == 0,
{
    schedule_keeps_settings(states, lengths, ops, lengths.len() as int);
}

/// A fixed backoff has the same factor for every pause.
pub proof fn fixed_factor_is_constant<M, S, J>(
    states: Seq<BackoffState>,
    lengths: Seq<nat>,
    ops: &FloatOps<M, S, J>,
    i: int,
) where
    M: Fn(Factor, Factor) -> Factor,
    S: Fn(Duration, Factor) -> Duration,
    J: Fn(Duration) -> u64,

    requires
        is_schedule(states, lengths, ops),
        states[0].backoff == Backoff::Fixed,
        0 <= i <= lengths.len(),
    ensures
        states[i].current == states[0].current,
    decreases i,
{
    if i > 0 {
        fixed_factor_is_constant(states, lengths, ops, i - 1);
        schedule_keeps_settings(states, lengths, ops, i - 1);
        assert(states[i - 1].pauses(ops, lengths[i - 1], states[i]));
    }
}

/// Where scaling by the first factor keeps the delay as it is, every pause of a fixed backoff
/// without jitter is the delay, or the longest pause allowed if that is shorter.
pub proof fn fixed_pauses_are_equal<M, S, J>(
    states: Seq<BackoffState>,
    lengths: Seq<nat>,
    ops: &FloatOps<M, S, J>,
    i: int,
) where
    M: Fn(Factor, Factor) -> Factor,
    S: Fn(Duration, Factor) -> Duration,
    J: Fn(Duration) -> u64,

    requires
        is_schedule(states, lengths, ops),
        states[0].backoff == Backoff::Fixed,
        !states[0].jitter,
        forall|scaled: Duration|
            ops.scaled(states[0].delay, states[0].current, scaled) ==> scaled@
                == states[0].delay@,
        0 <= i < lengths.len(),
    ensures
        lengths[i] == states[0].bounded(states[0].delay@),
{
    fixed_factor_is_constant(states, lengths, ops, i);
    schedule_keeps_settings(states, lengths, ops, i);
    assert(states[i].pauses(ops, lengths[i], states[i + 1]));
}

/// With an exponential backoff, the factor of each pause is that of the pause before, multiplied
/// by the exponent.
pub proof fn exponential_factor_grows<M, S, J>(
    states: Seq<BackoffState>,
    lengths: Seq<nat>,
    ops: &FloatOps<M, S, J>,
    exponent: Factor,
    i: int,
) where
    M: Fn(Factor, Factor) -> Factor,
    S: Fn(Duration, Factor) -> Duration,
    J: Fn(Duration) -> u64,

    requires
        is_schedule(states, lengths, ops),
        states[0].backoff == (Backoff::Exponential { exponent }),
        0 <= i < lengths.len(),
    ensures
        ops.multiplied(states[i].current, exponent, states[i + 1].current),
{
    schedule_keeps_settings(states, lengths, ops, i);
    assert(states[i].pauses(ops, lengths[i], states[i + 1]));
}

/// `multiply` doubles powers of two exactly, below the power of `n`.
pub open spec fn doubles_exactly<M, S, J>(ops: &FloatOps<M, S, J>, n: int) -> bool where
    M: Fn(Factor, Factor) -> Factor,
    S: Fn(Duration, Factor) -> Duration,
    J: Fn(Duration) -> u64,
 {
    forall|k: int, a: Factor, two: Factor, product: Factor|
        0 <= k < n && a@ == crate::numeric::pow2_bits(k) && two@ == crate::numeric::pow2_bits(1)
            && #[trigger] ops.multiplied(a, two, product) ==> product@
            == #[trigger] crate::numeric::pow2_bits(k + 1)
}

/// `scale` multiplies `delay` by powers of two exactly, below the power of `n`.
pub open spec fn scales_exactly<M, S, J>(
    ops: &FloatOps<M, S, J>,
    delay: Duration,
    n: int,
) -> bool where
    M: Fn(Factor, Factor) -> Factor,
    S: Fn(Duration, Factor) -> Duration,
    J: Fn(Duration) -> u64,
 {
    forall|k: nat, factor: Factor, scaled: Duration|
        k < n && factor@ == #[trigger] crate::numeric::pow2_bits(k as int) && #[trigger] ops.scaled(
            delay,
            factor,
            scaled,
        ) ==> scaled@ == delay@ * vstd::arithmetic::power2::pow2(k)
}

/// While the arithmetic on powers of two is exact, the factors of a doubling backoff are the
/// powers of two.
pub proof fn doubling_factors<M, S, J>(
    states: Seq<BackoffState>,
    lengths: Seq<nat>,
    ops: &FloatOps<M, S, J>,
    i: int,
) where
    M: Fn(Factor, Factor) -> Factor,
    S: Fn(Duration, Factor) -> Duration,
    J: Fn(Duration) -> u64,

    requires
        is_schedule(states, lengths, ops),
        states[0].backoff.is_doubling(),
        states[0].current@ == crate::numeric::pow2_bits(0),
        doubles_exactly(ops, lengths.len() as int),
        0 <= i <= lengths.len(),
    ensures
        states[i].current@ == crate::numeric::pow2_bits(i),
    decreases i,
{
    if i > 0 {
        doubling_factors(states, lengths, ops, i - 1);
        let exponent = states[0].backoff->exponent;
        exponential_factor_grows(states, lengths, ops, exponent, i - 1);
        assert(crate::numeric::pow2_bits(i - 1 + 1) == crate::numeric::pow2_bits(i));
    }
}

/// While the arithmetic on powers of two is exact, the pauses of a doubling backoff without
/// jitter are the delay, twice the delay, four times the delay and so on, each cut to the
/// longest pause allowed.
pub proof fn doubling_pauses<M, S, J>(
    states: Seq<BackoffState>,
    lengths: Seq<nat>,
    ops: &FloatOps<M, S, J>,
    i: int,
) where
    M: Fn(Factor, Factor) -> Factor,
    S: Fn(Duration, Factor) -> Duration,
    J: Fn(Duration) -> u64,

    requires
        is_schedule(states, lengths, ops),
        states[0].backoff.is_doubling(),
        states[0].current@ == crate::numeric::pow2_bits(0),
        !states[0].jitter,
        doubles_exactly(ops, lengths.len() as int),
        scales_exactly(ops, states[0].delay, lengths.len() as int),
        0 <= i < lengths.len(),
    ensures
        lengths[i] == states[0].bounded(
            states[0].delay@ * vstd::arithmetic::power2::pow2(i as nat),
        ),
{
    doubling_factors(states, lengths, ops, i);
    schedule_keeps_settings(states, lengths, ops, i);
    assert(states[i].pauses(ops, lengths[i], states[i + 1]));
    assert(crate::numeric::pow2_bits(i as nat as int) == crate::numeric::pow2_bits(i));
}

/// `multiply` and `scale` give one result for the same arguments.
pub open spec fn is_function<M, S, J>(ops: &FloatOps<M, S, J>) -> bool where
    M: Fn(Factor, Factor) -> Factor,
    S: Fn(Duration, Factor) -> Duration,
    J: Fn(Duration) -> u64,
 {
    &&& forall|a: Factor, b: Factor, p: Factor, q: Factor|
        #[trigger] ops.multiplied(a, b, p) && #[trigger] ops.multiplied(a, b, q) ==> p@ == q@
    &&& forall|span: Duration, factor: Factor, p: Duration, q: Duration|
        #[trigger] ops.scaled(span, factor, p) && #[trigger] ops.scaled(span, factor, q) ==> p@
            == q@
}

/// Without jitter, and where `multiply` and `scale` give one result for the same arguments, a
/// start has one schedule: two schedules from it agree as far as both go.
pub proof fn schedule_is_unique<M, S, J>(
    states: Seq<BackoffState>,
    lengths: Seq<nat>,
    other_states: Seq<BackoffState>,
    other_lengths: Seq<nat>,
    ops: &FloatOps<M, S, J>,
    i: int,
) where
    M: Fn(Factor, Factor) -> Factor,
    S: Fn(Duration, Factor) -> Duration,
    J: Fn(Duration) -> u64,

    requires
        is_schedule(states, lengths, ops),
        is_schedule(other_states, other_lengths, ops),
        states[0] == other_states[0],
        !states[0].jitter,
        is_function(ops),
        0 <= i <= lengths.len(),
        i <= other_lengths.len(),
    ensures
        states[i] == other_states[i],
        i < lengths.len() && i < other_lengths.len() ==> lengths[i] == other_lengths[i],
    decreases i,
{
    schedule_keeps_settings(states, lengths, ops, i);
    if i > 0 {
        schedule_is_unique(states, lengths, other_states, other_lengths, ops, i - 1);
        let (before, after, other) = (states[i - 1], states[i], other_states[i]);
        assert(before.pauses(ops, lengths[i - 1], after));
        assert(before.pauses(ops, other_lengths[i - 1], other));
        assert(after.current@ == other.current@);
        crate::numeric::factor_is_its_bits(after.current, other.current);
    }
    if i < lengths.len() && i < other_lengths.len() {
        assert(states[i].pauses(ops, lengths[i], states[i + 1]));
        assert(states[i].pauses(ops, other_lengths[i], other_states[i + 1]));
    }
}

/// `lengths` are all the pauses of a run under `settings`.
pub open spec fn are_all_pauses<M, S, J>(
    settings: Settings,
    lengths: Seq<nat>,
    ops: &FloatOps<M, S, J>,
) -> bool where
    M: Fn(Factor, Factor) -> Factor,
    S: Fn(Duration, Factor) -> Duration,
    J: Fn(Duration) -> u64,
 {
    exists|states: Seq<BackoffState>| #[trigger]
        is_schedule(states, lengths, ops) && settings.starts(settings.backoff, states[0])
            && states.last().left == 0
}

/// A policy has as many pauses as retries.
pub proof fn all_pauses_are_counted<M, S, J>(
    settings: Settings,
    lengths: Seq<nat>,
    ops: &FloatOps<M, S, J>,
) where
    M: Fn(Factor, Factor) -> Factor,
    S: Fn(Duration, Factor) -> Duration,
    J: Fn(Duration) -> u64,

    requires
        are_all_pauses(settings, lengths, ops),
    ensures
        lengths.len() == settings.max_retries,
{
    let states = choose|states: Seq<BackoffState>| #[trigger]
        is_schedule(states, lengths, ops) && settings.starts(settings.backoff, states[0])
            && states.last().left == 0;
    schedule_is_bounded(states, lengths, ops);
}

/// Without jitter, and where `multiply` and `scale` give one result for the same arguments, the
/// pauses of any schedule under a policy are the first ones of all its pauses.
pub proof fn schedule_is_prefix<M, S, J>(
    settings: Settings,
    all: Seq<nat>,
    states: Seq<BackoffState>,
    lengths: Seq<nat>,
    ops: &FloatOps<M, S, J>,
) where
    M: Fn(Factor, Factor) -> Factor,
    S: Fn(Duration, Factor) -> Duration,
    J: Fn(Duration) -> u64,

    requires
        are_all_pauses(settings, all, ops),
        is_schedule(states, lengths, ops),
        settings.starts(settings.backoff, states[0]),
        !settings.jitter,
        is_function(ops),
    ensures
        lengths.len() <= all.len(),
        lengths == all.take(lengths.len() as int),
{
    let full = choose|full: Seq<BackoffState>| #[trigger]
        is_schedule(full, all, ops) && settings.starts(settings.backoff, full[0])
            && full.last().left == 0;
    crate::policy::settings_fix_the_start(settings, settings.backoff, full[0], states[0]);
    schedule_is_bounded(full, all, ops);
    schedule_is_bounded(states, lengths, ops);
    assert forall|i: int| 0 <= i < lengths.len() implies lengths[i] == all[i] by {
        schedule_is_unique(states, lengths, full, all, ops, i);
    }
    assert(lengths =~= all.take(lengths.len() as int));
}

/// Without jitter, and where `multiply` and `scale` give one result for the same arguments,
/// going through the pauses of a policy again gives the same ones.
pub proof fn pauses_repeat<M, S, J>(
    settings: Settings,
    all: Seq<nat>,
    again: Seq<nat>,
    ops: &FloatOps<M, S, J>,
) where
    M: Fn(Factor, Factor) -> Factor,
    S: Fn(Duration, Factor) -> Duration,
    J: Fn(Duration) -> u64,

    requires
        are_all_pauses(settings, all, ops),
        are_all_pauses(settings, again, ops),
        !settings.jitter,
        is_function(ops),
    ensures
        again == all,
{
    let states = choose|states: Seq<BackoffState>| #[trigger]
        is_schedule(states, again, ops) && settings.starts(settings.backoff, states[0])
            && states.last().left == 0;
    schedule_is_prefix(settings, all, states, again, ops);
    all_pauses_are_counted(settings, all, ops);
    all_pauses_are_counted(settings, again, ops);
    assert(all.take(again.len() as int) =~= all);
}

/// The factor is 1 or more, infinity included. Bit patterns of such numbers are ordered as the
/// numbers are.
pub open spec fn at_least_one(factor: Factor) -> bool {
    crate::numeric::pow2_bits(0) <= factor@ <= INFINITY_BITS
}

/// A product of factors that are 1 or more is no less than the first of them.
pub open spec fn multiplies_monotonely<M, S, J>(ops: &FloatOps<M, S, J>) -> bool where
    M: Fn(Factor, Factor) -> Factor,
    S: Fn(Duration, Factor) -> Duration,
    J: Fn(Duration) -> u64,
 {
    forall|a: Factor, b: Factor, product: Factor|
        at_least_one(a) && at_least_one(b) && #[trigger] ops.multiplied(a, b, product)
            ==> at_least_one(product) && a@ <= product@
}

/// A span scaled by a factor of 1 or more is no longer than scaled by one that is no less.
pub open spec fn scales_monotonely<M, S, J>(ops: &FloatOps<M, S, J>) -> bool where
    M: Fn(Factor, Factor) -> Factor,
    S: Fn(Duration, Factor) -> Duration,
    J: Fn(Duration) -> u64,
 {
    forall|span: Duration, a: Factor, b: Factor, p: Duration, q: Duration|
        at_least_one(a) && at_least_one(b) && a@ <= b@ && #[trigger] ops.scaled(span, a, p)
            && #[trigger] ops.scaled(span, b, q) ==> p@ <= q@
}

/// From a factor of 1 or more, with a fixed backoff or an exponent of 1 or more, all factors are
/// 1 or more.
pub proof fn factors_stay_at_least_one<M, S, J>(
    states: Seq<BackoffState>,
    lengths: Seq<nat>,
    ops: &FloatOps<M, S, J>,
    i: int,
) where
    M: Fn(Factor, Factor) -> Factor,
    S: Fn(Duration, Factor) -> Duration,
    J: Fn(Duration) -> u64,

    requires
        is_schedule(states, lengths, ops),
        at_least_one(states[0].current),
        states[0].backoff matches Backoff::Exponential { exponent } ==> at_least_one(exponent),
        multiplies_monotonely(ops),
        0 <= i <= lengths.len(),
    ensures
        at_least_one(states[i].current),
    decreases i,
{
    if i > 0 {
        factors_stay_at_least_one(states, lengths, ops, i - 1);
        schedule_keeps_settings(states, lengths, ops, i - 1);
        assert(states[i - 1].pauses(ops, lengths[i - 1], states[i]));
    }
}

/// Without jitter, with a fixed backoff or an exponent of 1 or more, and while the arithmetic is
/// monotone, no pause is shorter than the one before.
pub proof fn pauses_do_not_shrink<M, S, J>(
    states: Seq<BackoffState>,
    lengths: Seq<nat>,
    ops: &FloatOps<M, S, J>,
    i: int,
) where
    M: Fn(Factor, Factor) -> Factor,
    S: Fn(Duration, Factor) -> Duration,
    J: Fn(Duration) -> u64,

    requires
        is_schedule(states, lengths, ops),
        !states[0].jitter,
        at_least_one(states[0].current),
        states[0].backoff matches Backoff::Exponential { exponent } ==> at_least_one(exponent),
        multiplies_monotonely(ops),
        scales_monotonely(ops),
        0 <= i < lengths.len() - 1,
    ensures
        lengths[i] <= lengths[i + 1],
{
    factors_stay_at_least_one(states, lengths, ops, i);
    factors_stay_at_least_one(states, lengths, ops, i + 1);
    schedule_keeps_settings(states, lengths, ops, i);
    schedule_keeps_settings(states, lengths, ops, i + 1);
    assert(states[i].pauses(ops, lengths[i], states[i + 1]));
    assert(states[i + 1].pauses(ops, lengths[i + 1], states[i + 2]));
}

/// A run under settings starts with the pauses that were asked for, as many of them as there are
/// retries, with the delay, the jitter and the longest pause of the settings, and a factor of 1.
pub proof fn start_is_as_configured(settings: Settings, backoff: Backoff, state: BackoffState)
    requires
        settings.starts(backoff, state),
    ensures
        state.backoff == backoff,
        state.current@ == 0x3FF0_0000_0000_0000,
        state.jitter == settings.jitter,
        state.delay == settings.delay,
        state.max_delay == settings.max_delay,
        state.left == settings.max_retries,
{
}

/// A pause can be computed exactly where `multiply` takes the current factor and an exponent,
/// `scale` takes the delay and the factor, and `jitter`, if there is any, takes whatever span
/// `scale` may give.
pub proof fn pause_needs_its_operations<M, S, J>(state: BackoffState, ops: &FloatOps<M, S, J>) where
    M: Fn(Factor, Factor) -> Factor,
    S: Fn(Duration, Factor) -> Duration,
    J: Fn(Duration) -> u64,

    ensures
        state.computable(ops) <==> {
            &&& state.backoff matches Backoff::Exponential { exponent } ==> call_requires(
                ops.multiply,
                (state.current, exponent),
            )
            &&& call_requires(ops.scale, (state.delay, state.current))
            &&& state.jitter ==> forall|scaled: Duration|
                call_ensures(ops.scale, (state.delay, state.current), scaled)
                    ==> #[trigger] call_requires(ops.jitter, (scaled,))
        },
{
    if state.computable(ops) && state.jitter {
        assert forall|scaled: Duration|
            call_ensures(ops.scale, (state.delay, state.current), scaled) implies #[trigger]
        call_requires(ops.jitter, (scaled,)) by {
            assert(ops.scaled(state.delay, state.current, scaled));
        }
    }
}

/// Without jitter, a pause is as long as `scale` makes the delay with the current factor, or as
/// the longest pause allowed where that is shorter.
pub proof fn plain_pause_is_the_scaled_delay<M, S, J>(
    before: BackoffState,
    ops: &FloatOps<M, S, J>,
    length: nat,
    after: BackoffState,
) where
    M: Fn(Factor, Factor) -> Factor,
    S: Fn(Duration, Factor) -> Duration,
    J: Fn(Duration) -> u64,

    requires
        before.pauses(ops, length, after),
        !before.jitter,
    ensures
        before.max_delay matches Some(max) ==> length <= max@,
        exists|scaled: Duration| #[trigger]
            call_ensures(ops.scale, (before.delay, before.current), scaled) && length <= scaled@
                && (length == scaled@ || (before.max_delay matches Some(max) && length == max@)),
{
    let (product, scaled, millis) = choose|product: Factor, scaled: Duration, millis: u64|
        #[trigger]
        before.pauses_with(ops, product, scaled, millis, length, after);
    assert(call_ensures(ops.scale, (before.delay, before.current), scaled));
}

/// With jitter, a pause is as many milliseconds long as `jitter` makes of what `scale` makes of
/// the delay with the current factor, or as the longest pause allowed where that is shorter.
/// That holds of fixed and of exponential backoffs.
pub proof fn jittered_pause_is_the_drawn_one<M, S, J>(
    before: BackoffState,
    ops: &FloatOps<M, S, J>,
    length: nat,
    after: BackoffState,
) where
    M: Fn(Factor, Factor) -> Factor,
    S: Fn(Duration, Factor) -> Duration,
    J: Fn(Duration) -> u64,

    requires
        before.pauses(ops, length, after),
        before.jitter,
    ensures
        before.max_delay matches Some(max) ==> length <= max@,
        exists|scaled: Duration, millis: u64| #[trigger]
            call_ensures(ops.scale, (before.delay, before.current), scaled) && #[trigger]
            call_ensures(ops.jitter, (scaled,), millis) && length <= millis * 1_000_000 && (length
                == millis * 1_000_000 || (before.max_delay matches Some(max) && length == max@)),
{
    let (product, scaled, millis) = choose|product: Factor, scaled: Duration, millis: u64|
        #[trigger]
        before.pauses_with(ops, product, scaled, millis, length, after);
    assert(call_ensures(ops.scale, (before.delay, before.current), scaled));
    assert(call_ensures(ops.jitter, (scaled,), millis));
}

/// The factor of the pause after the next one is the same with a fixed backoff, and with an
/// exponential one what `multiply` makes of it and the exponent.
pub proof fn pause_moves_the_factor_on<M, S, J>(
    before: BackoffState,
    ops: &FloatOps<M, S, J>,
    length: nat,
    after: BackoffState,
) where
    M: Fn(Factor, Factor) -> Factor,
    S: Fn(Duration, Factor) -> Duration,
    J: Fn(Duration) -> u64,

    requires
        before.pauses(ops, length, after),
    ensures
        match before.backoff {
            Backoff::Fixed => after.current == before.current,
            Backoff::Exponential { exponent } => call_ensures(
                ops.multiply,
                (before.current, exponent),
                after.current,
            ),
        },
{
}

/// What the pauses under settings are. Their factors start at 1, stay there with a fixed backoff
/// and are multiplied by the exponent of the settings with an exponential one. A pause is the
/// delay of the settings scaled by its factor, jittered where they say so, and at most their
/// longest pause. There are at most as many pauses as retries.
pub proof fn pauses_are_as_configured<M, S, J>(
    settings: Settings,
    states: Seq<BackoffState>,
    lengths: Seq<nat>,
    ops: &FloatOps<M, S, J>,
    i: int,
) where
    M: Fn(Factor, Factor) -> Factor,
    S: Fn(Duration, Factor) -> Duration,
    J: Fn(Duration) -> u64,

    requires
        is_schedule(states, lengths, ops),
        settings.starts(settings.backoff, states[0]),
        0 <= i < lengths.len(),
    ensures
        lengths.len() <= settings.max_retries,
        states[0].current@ == 0x3FF0_0000_0000_0000,
        match settings.backoff {
            Backoff::Fixed => states[i + 1].current == states[i].current,
            Backoff::Exponential { exponent } => call_ensures(
                ops.multiply,
                (states[i].current, exponent),
                states[i + 1].current,
            ),
        },
        settings.max_delay matches Some(max) ==> lengths[i] <= max@,
        !settings.jitter ==> exists|scaled: Duration| #[trigger]
            call_ensures(ops.scale, (settings.delay, states[i].current), scaled) && lengths[i]
                <= scaled@ && (lengths[i] == scaled@ || (settings.max_delay matches Some(max)
                && lengths[i] == max@)),
        settings.jitter ==> exists|scaled: Duration, millis: u64| #[trigger]
            call_ensures(ops.scale, (settings.delay, states[i].current), scaled) && #[trigger]
            call_ensures(ops.jitter, (scaled,), millis) && lengths[i] <= millis * 1_000_000 && (
            lengths[i] == millis * 1_000_000 || (settings.max_delay matches Some(max)
                && lengths[i] == max@)),
{
    start_is_as_configured(settings, settings.backoff, states[0]);
    schedule_is_bounded(states, lengths, ops);
    schedule_keeps_settings(states, lengths, ops, i);
    let (before, length, after) = (states[i], lengths[i], states[i + 1]);
    assert(before.pauses(ops, length, after));
    pause_moves_the_factor_on(before, ops, length, after);
    if settings.jitter {
        jittered_pause_is_the_drawn_one(before, ops, length, after);
    } else {
        plain_pause_is_the_scaled_delay(before, ops, length, after);
    }
}

/// A run takes pauses until there were as many as retries, and no longer.
pub proof fn pauses_are_as_many_as_retries<M, S, J>(
    settings: Settings,
    states: Seq<BackoffState>,
    lengths: Seq<nat>,
    ops: &FloatOps<M, S, J>,
) where
    M: Fn(Factor, Factor) -> Factor,
    S: Fn(Duration, Factor) -> Duration,
    J: Fn(Duration) -> u64,

    requires
        is_schedule(states, lengths, ops),
        settings.starts(settings.backoff, states[0]),
    ensures
        lengths.len() <= settings.max_retries,
        lengths.len() == settings.max_retries <==> states.last().left == 0,
{
    schedule_is_bounded(states, lengths, ops);
}

/// Under settings with a fixed backoff and no jitter, where scaling by 1 keeps the delay as it
/// is, every pause is the delay of the settings, or their longest pause if that is shorter.
pub proof fn fixed_pauses_are_the_delay<M, S, J>(
    settings: Settings,
    states: Seq<BackoffState>,
    lengths: Seq<nat>,
    ops: &FloatOps<M, S, J>,
    i: int,
) where
    M: Fn(Factor, Factor) -> Factor,
    S: Fn(Duration, Factor) -> Duration,
    J: Fn(Duration) -> u64,

    requires
        is_schedule(states, lengths, ops),
        settings.starts(settings.backoff, states[0]),
        settings.backoff == Backoff::Fixed,
        !settings.jitter,
        forall|one: Factor, scaled: Duration|
            one@ == 0x3FF0_0000_0000_0000 && #[trigger] call_ensures(
                ops.scale,
                (settings.delay, one),
                scaled,
            ) ==> scaled@ == settings.delay@,
        0 <= i < lengths.len(),
    ensures
        settings.max_delay is None ==> lengths[i] == settings.delay@,
        settings.max_delay matches Some(max) ==> lengths[i] == vstd::math::min(
            settings.delay@ as int,
            max@ as int,
        ),
{
    fixed_factor_is_constant(states, lengths, ops, i);
    schedule_keeps_settings(states, lengths, ops, i);
    assert(states[i].pauses(ops, lengths[i], states[i + 1]));
    plain_pause_is_the_scaled_delay(states[i], ops, lengths[i], states[i + 1]);
}

/// Under settings with a backoff that doubles and no jitter, where the arithmetic on powers of
/// two is exact, the pauses are the delay of the settings times 1, 2, 4 and so on, or their
/// longest pause if that is shorter.
pub proof fn doubling_pauses_are_multiples_of_the_delay<M, S, J>(
    settings: Settings,
    states: Seq<BackoffState>,
    lengths: Seq<nat>,
    ops: &FloatOps<M, S, J>,
    i: int,
) where
    M: Fn(Factor, Factor) -> Factor,
    S: Fn(Duration, Factor) -> Duration,
    J: Fn(Duration) -> u64,

    requires
        is_schedule(states, lengths, ops),
        settings.starts(settings.backoff, states[0]),
        settings.backoff matches Backoff::Exponential { exponent } && exponent@
            == 0x4000_0000_0000_0000,
        !settings.jitter,
        doubles_exactly(ops, lengths.len() as int),
        scales_exactly(ops, settings.delay, lengths.len() as int),
        0 <= i < lengths.len(),
    ensures
        settings.max_delay is None ==> lengths[i] == settings.delay@
            * vstd::arithmetic::power2::pow2(i as nat),
        settings.max_delay matches Some(max) ==> lengths[i] == vstd::math::min(
            (settings.delay@ * vstd::arithmetic::power2::pow2(i as nat)) as int,
            max@ as int,
        ),
{
    doubling_pauses(states, lengths, ops, i);
}

/// The longest pause allowed only cuts, and the number of retries changes no pause: without
/// jitter, and where `multiply` and `scale` give one result for the same arguments, the pauses
/// under settings are those under others with the same backoff and delay and no longest pause,
/// each cut to the longest one, as far as both go.
pub proof fn max_delay_only_cuts<M, S, J>(
    settings: Settings,
    states: Seq<BackoffState>,
    lengths: Seq<nat>,
    uncut_settings: Settings,
    uncut_states: Seq<BackoffState>,
    uncut_lengths: Seq<nat>,
    ops: &FloatOps<M, S, J>,
    i: int,
) where
    M: Fn(Factor, Factor) -> Factor,
    S: Fn(Duration, Factor) -> Duration,
    J: Fn(Duration) -> u64,

    requires
        is_schedule(states, lengths, ops),
        settings.starts(settings.backoff, states[0]),
        is_schedule(uncut_states, uncut_lengths, ops),
        uncut_settings.starts(uncut_settings.backoff, uncut_states[0]),
        settings.backoff == uncut_settings.backoff,
        settings.delay == uncut_settings.delay,
        !settings.jitter,
        !uncut_settings.jitter,
        uncut_settings.max_delay is None,
        is_function(ops),
        0 <= i < lengths.len(),
        i < uncut_lengths.len(),
    ensures
        settings.max_delay is None ==> lengths[i] == uncut_lengths[i],
        settings.max_delay matches Some(max) ==> lengths[i] == vstd::math::min(
            uncut_lengths[i] as int,
            max@ as int,
        ),
{
    start_is_as_configured(settings, settings.backoff, states[0]);
    start_is_as_configured(uncut_settings, uncut_settings.backoff, uncut_states[0]);
    factors_agree(states, lengths, uncut_states, uncut_lengths, ops, i);
    schedule_keeps_settings(states, lengths, ops, i);
    schedule_keeps_settings(uncut_states, uncut_lengths, ops, i);
    assert(states[i].pauses(ops, lengths[i], states[i + 1]));
    assert(uncut_states[i].pauses(ops, uncut_lengths[i], uncut_states[i + 1]));
    plain_pause_is_the_scaled_delay(states[i], ops, lengths[i], states[i + 1]);
    plain_pause_is_the_scaled_delay(
        uncut_states[i],
        ops,
        uncut_lengths[i],
        uncut_states[i + 1],
    );
    let (delay, factor) = (settings.delay, states[i].current);
    assert(forall|p: Duration, q: Duration| #[trigger]
        call_ensures(ops.scale, (delay, factor), p) && #[trigger] call_ensures(
            ops.scale,
            (delay, factor),
            q,
        ) ==> ops.scaled(delay, factor, p) && ops.scaled(delay, factor, q));
}

/// Two schedules with the same backoff and first factor have the same factors.
proof fn factors_agree<M, S, J>(
    states: Seq<BackoffState>,
    lengths: Seq<nat>,
    other_states: Seq<BackoffState>,
    other_lengths: Seq<nat>,
    ops: &FloatOps<M, S, J>,
    i: int,
) where
    M: Fn(Factor, Factor) -> Factor,
    S: Fn(Duration, Factor) -> Duration,
    J: Fn(Duration) -> u64,

    requires
        is_schedule(states, lengths, ops),
        is_schedule(other_states, other_lengths, ops),
        states[0].backoff == other_states[0].backoff,
        states[0].current@ == other_states[0].current@,
        is_function(ops),
        0 <= i <= lengths.len(),
        i <= other_lengths.len(),
    ensures
        states[i].current == other_states[i].current,
    decreases i,
{
    if i > 0 {
        factors_agree(states, lengths, other_states, other_lengths, ops, i - 1);
        schedule_keeps_settings(states, lengths, ops, i - 1);
        schedule_keeps_settings(other_states, other_lengths, ops, i - 1);
        assert(states[i - 1].pauses(ops, lengths[i - 1], states[i]));
        assert(other_states[i - 1].pauses(ops, other_lengths[i - 1], other_states[i]));
    }
    crate::numeric::factor_is_its_bits(states[i].current, other_states[i].current);
}

} // verus!
