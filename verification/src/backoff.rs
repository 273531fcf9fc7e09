//! Backoff: how many times to go on, and how long to pause before each.

use crate::duration::{Duration, NANOS_PER_MILLI};
use crate::numeric::{Factor, FloatOps};
use vstd::prelude::*;

verus! {

/// How the pauses develop.
#[derive(Clone, Copy)]
pub enum Backoff {
    /// Every pause is the configured delay.
    Fixed,
    /// Every pause is `exponent` times the one before.
    Exponential { exponent: Factor },
}

impl Backoff {
    /// Exponential backoff with an exponent of 2.
    pub open spec fn is_doubling(self) -> bool {
        self matches Backoff::Exponential { exponent } && exponent@ == crate::numeric::pow2_bits(1)
    }
}

impl Default for Backoff {
    fn default() -> (backoff: Self)
        ensures
            backoff.is_doubling(),
            backoff matches Backoff::Exponential { exponent } && exponent@
                == 0x4000_0000_0000_0000,
    {
        Backoff::Exponential { exponent: Factor::two() }
    }
}

/// The pauses that are still to come. The view of a `BackoffIter`.
pub struct BackoffState {
    pub backoff: Backoff,
    /// The factor of the next pause.
    pub current: Factor,
    pub jitter: bool,
    pub delay: Duration,
    pub max_delay: Option<Duration>,
    /// How many pauses are left.
    pub left: nat,
}

impl BackoffState {
    /// `length`, or the longest pause allowed where that is shorter, in nanoseconds.
    pub open spec fn bounded(self, length: nat) -> nat {
        match self.max_delay {
            Some(max) if max@ < length => max@,
            _ => length,
        }
    }

    /// The length of the next pause in nanoseconds, where the scaled delay is `scaled` and, if
    /// there is jitter, the jittered one is `millis` milliseconds.
    pub open spec fn pause(self, scaled: Duration, millis: u64) -> nat {
        self.bounded(
            if self.jitter {
                (millis * NANOS_PER_MILLI) as nat
            } else {
                scaled@
            },
        )
    }

    /// The pauses to come after the next one, where `product` is the product of the current
    /// factor and the exponent.
    pub open spec fn after_pause(self, product: Factor) -> Self {
        BackoffState {
            current: match self.backoff {
                Backoff::Fixed => self.current,
                Backoff::Exponential { .. } => product,
            },
            left: (self.left - 1) as nat,
            ..self
        }
    }

    /// The operations of `ops` are defined on what the next pause needs of them.
    pub open spec fn computable<M, S, J>(self, ops: &FloatOps<M, S, J>) -> bool where
        M: Fn(Factor, Factor) -> Factor,
        S: Fn(Duration, Factor) -> Duration,
        J: Fn(Duration) -> u64,
     {
        &&& self.backoff matches Backoff::Exponential { exponent } ==> call_requires(
            ops.multiply,
            (self.current, exponent),
        )
        &&& call_requires(ops.scale, (self.delay, self.current))
        &&& self.jitter ==> forall|scaled: Duration|
            #[trigger] ops.scaled(self.delay, self.current, scaled) ==> call_requires(
                ops.jitter,
                (scaled,),
            )
    }

    /// With `product`, `scaled` and `millis` from `ops`, the next pause is `pause` long, and
    /// `after` is what is left then.
    pub open spec fn pauses_with<M, S, J>(
        self,
        ops: &FloatOps<M, S, J>,
        product: Factor,
        scaled: Duration,
        millis: u64,
        pause: nat,
        after: Self,
    ) -> bool where
        M: Fn(Factor, Factor) -> Factor,
        S: Fn(Duration, Factor) -> Duration,
        J: Fn(Duration) -> u64,
     {
        &&& self.left > 0
        &&& self.backoff matches Backoff::Exponential { exponent } ==> ops.multiplied(
            self.current,
            exponent,
            product,
        )
        &&& ops.scaled(self.delay, self.current, scaled)
        &&& self.jitter ==> ops.jittered(scaled, millis)
        &&& pause == self.pause(scaled, millis)
        &&& after == self.after_pause(product)
    }

    /// The next pause may be `pause` long, with `after` left then.
    pub open spec fn pauses<M, S, J>(
        self,
        ops: &FloatOps<M, S, J>,
        pause: nat,
        after: Self,
    ) -> bool where
        M: Fn(Factor, Factor) -> Factor,
        S: Fn(Duration, Factor) -> Duration,
        J: Fn(Duration) -> u64,
     {
        exists|product: Factor, scaled: Duration, millis: u64| #[trigger]
            self.pauses_with(ops, product, scaled, millis, pause, after)
    }
}

/// The pauses of one run, each computed when it is due.
pub struct BackoffIter {
    backoff: Backoff,
    current: Factor,
    jitter: bool,
    delay: Duration,
    max_delay: Option<Duration>,
    max_retries: usize,
}

impl View for BackoffIter {
    type V = BackoffState;

    closed spec fn view(&self) -> BackoffState {
        BackoffState {
            backoff: self.backoff,
            current: self.current,
            jitter: self.jitter,
            delay: self.delay,
            max_delay: self.max_delay,
            left: self.max_retries as nat,
        }
    }
}

impl BackoffIter {
    /// The pauses of a run of which none was taken yet: the first factor is 1.
    pub(crate) fn new(
        backoff: Backoff,
        jitter: bool,
        delay: Duration,
        max_delay: Option<Duration>,
        max_retries: usize,
    ) -> (pauses: Self)
        ensures
            pauses@.backoff == backoff,
            pauses@.current@ == crate::numeric::pow2_bits(0),
            pauses@.jitter == jitter,
            pauses@.delay == delay,
            pauses@.max_delay == max_delay,
            pauses@.left == max_retries,
    {
        BackoffIter { backoff, current: Factor::one(), jitter, delay, max_delay, max_retries }
    }

    /// The length of a pause that was to be `length` long: no longer than the longest pause
    /// allowed.
    pub fn bound(&self, length: Duration) -> (pause: Duration)
        ensures
            pause@ == self@.bounded(length@),
            pause@ <= length@,
            self@.max_delay is None ==> pause == length,
            self@.max_delay matches Some(max) ==> pause@ <= max@ && (pause == length || pause
                == max),
    {
        match self.max_delay {
            Some(max) => length.min(max),
            None => length,
        }
    }

    /// The next pause, or `None` when there are none left.
    pub fn next<M, S, J>(&mut self, ops: &FloatOps<M, S, J>) -> (pause: Option<Duration>) where
        M: Fn(Factor, Factor) -> Factor,
        S: Fn(Duration, Factor) -> Duration,
        J: Fn(Duration) -> u64,

        requires
            old(self)@.left > 0 ==> old(self)@.computable(ops),
        ensures
            match pause {
                Some(length) => old(self)@.pauses(ops, length@, final(self)@),
                None => old(self)@.left == 0 && final(self)@ == old(self)@,
            },
    {
        if self.max_retries > 0 {
            let ghost before = self@;
            let factor = self.current;
            let ghost mut product = factor;
            if let Backoff::Exponential { exponent } = self.backoff {
                let next_factor = (ops.multiply)(factor, exponent);
                self.current = next_factor;
                proof {
                    product = next_factor;
                }
            }
            let scaled = (ops.scale)(self.delay, factor);
            let mut length = scaled;
            let ghost mut drawn = 0u64;
            if self.jitter {
                assert(ops.scaled(before.delay, before.current, scaled));
                let millis = (ops.jitter)(scaled);
                length = jitter(millis);
                proof {
                    drawn = millis;
                }
            }
            let pause = self.bound(length);
            self.max_retries -= 1;
            proof {
                assert(before.pauses_with(ops, product, scaled, drawn, pause@, self@));
            }
            return Some(pause);
        }
        None
    }
}

/// Two iterators with the same pauses to come are the same.
pub proof fn iter_is_its_state(a: BackoffIter, b: BackoffIter)
    requires
        a@ == b@,
    ensures
        a == b,
{
}

/// The span that a jittered delay of `millis` milliseconds lasts.
pub fn jitter(millis: u64) -> (duration: Duration)
    ensures
        duration@ == millis * NANOS_PER_MILLI,
{
    Duration::from_millis(millis)
}

} // verus!
