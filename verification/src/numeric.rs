//! Floating-point numbers, as far as a backoff needs them.
//!
//! A backoff multiplies its delay by a binary64 factor. The library carries such a number by
//! its bit pattern and never looks inside; the few operations on it come from the caller.

use crate::duration::Duration;
use vstd::prelude::*;

verus! {

/// The bit pattern of 1.
pub const ONE_BITS: u64 = 0x3FF0_0000_0000_0000;

/// The bit pattern of 2.
pub const TWO_BITS: u64 = 0x4000_0000_0000_0000;

/// The bit pattern of infinity.
pub const INFINITY_BITS: u64 = 0x7FF0_0000_0000_0000;

/// The bit pattern of the binary64 number that is 2 to the power of `k`: a zero sign and
/// fraction, and the biased exponent in between.
pub open spec fn pow2_bits(k: int) -> int
    recommends
        -1023 < k < 1024,
{
    (1023 + k) * 0x10_0000_0000_0000
}

/// A binary64 number, carried by its bit pattern.
#[derive(Clone, Copy, Debug, PartialEq, Eq, Structural)]
pub struct Factor {
    bits: u64,
}

impl View for Factor {
    type V = u64;

    closed spec fn view(&self) -> u64 {
        self.bits
    }
}

impl Factor {
    /// The number with the given bit pattern.
    pub fn from_bits(bits: u64) -> (factor: Self)
        ensures
            factor@ == bits,
    {
        Factor { bits }
    }

    /// The bit pattern of the number.
    pub fn to_bits(self) -> (bits: u64)
        ensures
            bits == self@,
    {
        self.bits
    }

    /// The number 1.
    pub fn one() -> (factor: Self)
        ensures
            factor@ == pow2_bits(0),
            factor@ == 0x3FF0_0000_0000_0000,
    {
        Factor { bits: ONE_BITS }
    }

    /// The number 2.
    pub fn two() -> (factor: Self)
        ensures
            factor@ == pow2_bits(1),
            factor@ == 0x4000_0000_0000_0000,
    {
        Factor { bits: TWO_BITS }
    }
}

/// Two numbers with the same bit pattern are the same.
pub proof fn factor_is_its_bits(a: Factor, b: Factor)
    requires
        a@ == b@,
    ensures
        a == b,
{
}

/// The operations on factors that a backoff calls.
///
/// * `multiply` is the product of two factors.
/// * `scale` is a span of time multiplied by a factor.
/// * `jitter` is a span of time multiplied by a random number between 0 and 1, in whole
///   milliseconds.
pub struct FloatOps<M, S, J> {
    pub multiply: M,
    pub scale: S,
    pub jitter: J,
}

impl<M, S, J> FloatOps<M, S, J> where
    M: Fn(Factor, Factor) -> Factor,
    S: Fn(Duration, Factor) -> Duration,
    J: Fn(Duration) -> u64,
 {
    /// `product` is what `multiply` may make of `a` and `b`.
    pub open spec fn multiplied(&self, a: Factor, b: Factor, product: Factor) -> bool {
        call_ensures(self.multiply, (a, b), product)
    }

    /// `scaled` is what `scale` may make of `span` and `factor`.
    pub open spec fn scaled(&self, span: Duration, factor: Factor, scaled: Duration) -> bool {
        call_ensures(self.scale, (span, factor), scaled)
    }

    /// `millis` is what `jitter` may make of `span`.
    pub open spec fn jittered(&self, span: Duration, millis: u64) -> bool {
        call_ensures(self.jitter, (span,), millis)
    }
}

} // verus!
