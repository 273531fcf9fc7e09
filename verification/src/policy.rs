//! Retry policies.

use crate::backoff::{Backoff, BackoffIter, BackoffState};
use crate::duration::{Duration, NANOS_PER_SEC};
use crate::numeric::Factor;
use vstd::prelude::*;

verus! {

/// How many pauses a policy allows unless told otherwise.
pub const DEFAULT_MAX_RETRIES: usize = 5;

/// What a policy is configured to. The view of a `RetryPolicy`.
pub struct Settings {
    pub backoff: Backoff,
    pub jitter: bool,
    pub delay: Duration,
    pub max_delay: Option<Duration>,
    pub max_retries: usize,
}

impl Settings {
    /// Five pauses, without jitter and without a longest one.
    pub open spec fn is_plain(self) -> bool {
        &&& !self.jitter
        &&& self.max_delay is None
        &&& self.max_retries == DEFAULT_MAX_RETRIES
    }

    /// Five pauses that double, the first of one second.
    pub open spec fn is_default(self) -> bool {
        &&& self.backoff.is_doubling()
        &&& self.delay@ == NANOS_PER_SEC
        &&& self.delay == Duration::of_nanos(NANOS_PER_SEC as nat)
        &&& self.is_plain()
    }

    /// `state` is that of a run under these settings, but with the pauses developing as
    /// `backoff` says, before the first pause: its factor is 1.
    pub open spec fn starts(self, backoff: Backoff, state: BackoffState) -> bool {
        &&& state.backoff == backoff
        &&& state.current@ == crate::numeric::pow2_bits(0)
        &&& state.jitter == self.jitter
        &&& state.delay == self.delay
        &&& state.max_delay == self.max_delay
        &&& state.left == self.max_retries
    }

    /// These settings with the exponent of an exponential backoff replaced.
    pub open spec fn with_exponent(self, exponent: Factor) -> Self {
        Settings {
            backoff: match self.backoff {
                Backoff::Fixed => Backoff::Fixed,
                Backoff::Exponential { .. } => Backoff::Exponential { exponent },
            },
            ..self
        }
    }
}

/// A template for configuring retry behavior
pub struct RetryPolicy {
    backoff: Backoff,
    jitter: bool,
    delay: Duration,
    max_delay: Option<Duration>,
    max_retries: usize,
}

impl View for RetryPolicy {
    type V = Settings;

    closed spec fn view(&self) -> Settings {
        Settings {
            backoff: self.backoff,
            jitter: self.jitter,
            delay: self.delay,
            max_delay: self.max_delay,
            max_retries: self.max_retries,
        }
    }
}

impl Clone for RetryPolicy {
    fn clone(&self) -> (copy: Self)
        ensures
            copy@ == self@,
    {
        RetryPolicy {
            backoff: self.backoff,
            jitter: self.jitter,
            delay: self.delay,
            max_delay: self.max_delay,
            max_retries: self.max_retries,
        }
    }
}

impl Default for RetryPolicy {
    fn default() -> (policy: Self)
        ensures
            policy@.is_default(),
    {
        RetryPolicy {
            backoff: Backoff::default(),
            delay: Duration::from_secs(1),
            jitter: false,
            max_delay: None,
            max_retries: DEFAULT_MAX_RETRIES,
        }
    }
}

impl Backoff {
    /// The pauses of a run under `policy`, but developing as `self` says.
    pub fn iter(self, policy: &RetryPolicy) -> (pauses: BackoffIter)
        ensures
            policy@.starts(self, pauses@),
    {
        BackoffIter::new(
            self,
            policy.jitter,
            policy.delay,
            policy.max_delay,
            policy.max_retries,
        )
    }
}

impl RetryPolicy {
    /// The pauses of one run under this policy.
    pub fn backoffs(&self) -> (pauses: BackoffIter)
        ensures
            self@.starts(self@.backoff, pauses@),
    {
        self.backoff.iter(self)
    }

    /// A policy with pauses that double, from `delay` on.
    pub fn exponential(delay: Duration) -> (policy: Self)
        ensures
            policy@.backoff.is_doubling(),
            policy@.delay == delay,
            policy@.is_plain(),
            policy@.backoff matches Backoff::Exponential { exponent } && exponent@
                == 0x4000_0000_0000_0000,
            !policy@.jitter,
            policy@.max_delay is None,
            policy@.max_retries == 5,
    {
        RetryPolicy {
            backoff: Backoff::Exponential { exponent: Factor::two() },
            delay,
            ..RetryPolicy::default()
        }
    }

    /// A policy with pauses that are all `delay`.
    pub fn fixed(delay: Duration) -> (policy: Self)
        ensures
            policy@.backoff == Backoff::Fixed,
            policy@.delay == delay,
            policy@.is_plain(),
            !policy@.jitter,
            policy@.max_delay is None,
            policy@.max_retries == 5,
    {
        RetryPolicy { backoff: Backoff::Fixed, delay, ..RetryPolicy::default() }
    }

    /// This policy with another exponent, if its backoff is exponential.
    pub fn with_backoff_exponent(self, exp: Factor) -> (policy: Self)
        ensures
            policy@ == self@.with_exponent(exp),
            policy@.jitter == self@.jitter,
            policy@.delay == self@.delay,
            policy@.max_delay == self@.max_delay,
            policy@.max_retries == self@.max_retries,
            self@.backoff == Backoff::Fixed ==> policy@ == self@,
            self@.backoff is Exponential ==> policy@.backoff == (Backoff::Exponential {
                exponent: exp,
            }),
    {
        if let Backoff::Exponential { .. } = self.backoff {
            RetryPolicy { backoff: Backoff::Exponential { exponent: exp }, ..self }
        } else {
            self
        }
    }

    /// This policy with or without jitter.
    pub fn with_jitter(self, jitter: bool) -> (policy: Self)
        ensures
            policy@ == (Settings { jitter, ..self@ }),
    {
        RetryPolicy { jitter, ..self }
    }

    /// This policy with no pause longer than `max`.
    pub fn with_max_delay(self, max: Duration) -> (policy: Self)
        ensures
            policy@ == (Settings { max_delay: Some(max), ..self@ }),
    {
        RetryPolicy { max_delay: Some(max), ..self }
    }

    /// This policy with at most `max` pauses.
    pub fn with_max_retries(self, max: usize) -> (policy: Self)
        ensures
            policy@ == (Settings { max_retries: max, ..self@ }),
    {
        RetryPolicy { max_retries: max, ..self }
    }
}

/// There is one default.
pub proof fn default_settings_are_the_same(a: Settings, b: Settings)
    requires
        a.is_default(),
        b.is_default(),
    ensures
        a == b,
{
    crate::numeric::factor_is_its_bits(a.backoff->exponent, b.backoff->exponent);
}

/// Every run under the same settings starts with the same pauses to come, however far another
/// one got.
pub proof fn settings_fix_the_start(
    settings: Settings,
    backoff: Backoff,
    a: BackoffState,
    b: BackoffState,
)
    requires
        settings.starts(backoff, a),
        settings.starts(backoff, b),
    ensures
        a == b,
{
    crate::numeric::factor_is_its_bits(a.current, b.current);
}

/// The default is five pauses, the first of one second and each twice the one before, without
/// jitter and without a longest one.
pub proof fn default_is_five_doubling_pauses(settings: Settings)
    requires
        settings.is_default(),
    ensures
        settings.backoff matches Backoff::Exponential { exponent } && exponent@
            == 0x4000_0000_0000_0000,
        settings.delay@ == 1_000_000_000,
        !settings.jitter,
        settings.max_delay is None,
        settings.max_retries == 5,
{
}

/// Another exponent changes nothing but the exponent of an exponential backoff, and of two in a
/// row only the second counts.
pub proof fn last_exponent_counts(settings: Settings, first: Factor, second: Factor)
    ensures
        settings.with_exponent(first).with_exponent(second) == settings.with_exponent(second),
        settings.backoff == Backoff::Fixed ==> settings.with_exponent(first) == settings,
        settings.backoff is Exponential ==> settings.with_exponent(first) == (Settings {
            backoff: Backoff::Exponential { exponent: first },
            ..settings
        }),
{
}

} // verus!
