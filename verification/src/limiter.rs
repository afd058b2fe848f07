//! Token-bucket rate limiters in front of inbound processing.
//!
//! A limiter is consulted once per message and never waits. What it answers
//! depends on the clock, so nothing is stated of a single answer: the code
//! that asks is verified for both.

use vstd::prelude::*;

verus! {

/// Nanoseconds in the minute over which a quota is replenished.
pub const MINUTE_NANOS: u64 = 60_000_000_000;

/// The largest product of replenish interval and burst that a limiter is built
/// with: half of what the limiter's 64-bit nanosecond counter holds.
pub const MAX_WINDOW_NANOS: u64 = 0x7fff_ffff_ffff_ffff;

/// A direct (un-keyed) in-memory rate limiter on the real-time clock.
///
/// The limiter's type is generic over traits of its own crate, so it is held
/// here as an opaque field.
#[verifier::external_body]
pub struct Limiter {
    inner: governor::DefaultDirectRateLimiter,
}

/// The quota that a limiter was made with: the cells it replenishes each
/// minute, and the cells it lets through in one burst.
pub uninterp spec fn quota_of(limiter: Limiter) -> (u32, u32);

/// Whether a limiter can be built that replenishes `per_minute` cells a minute
/// and lets through bursts of `burst`.
pub open spec fn quota_fits(per_minute: u32, burst: u32) -> bool {
    &&& per_minute > 0
    &&& burst > 0
    &&& (MINUTE_NANOS as int / per_minute as int) * burst as int <= MAX_WINDOW_NANOS as int
}

/// `governor::Quota::per_minute`, `Quota::allow_burst` and
/// `governor::RateLimiter::direct`: a fresh limiter. Both numbers must be
/// non-zero. The limiter multiplies the replenish interval, in nanoseconds, by
/// the burst and adds the product to the time since it was made, in a `u64`
/// without a check; `quota_fits` keeps the product under half of that range.
/// The limiter that comes back has the quota it was asked for, and nothing
/// else is claimed of it.
#[verifier::external_body]
pub(crate) fn limiter_new(per_minute: u32, burst: u32) -> (limiter: Limiter)
    requires
        quota_fits(per_minute, burst),
    ensures
        quota_of(limiter) == (per_minute, burst),
{
    let rate = std::num::NonZeroU32::new(per_minute).unwrap();
    let burst = std::num::NonZeroU32::new(burst).unwrap();
    Limiter { inner: governor::RateLimiter::direct(governor::Quota::per_minute(rate).allow_burst(burst)) }
}

/// `governor::RateLimiter::check`: whether one more cell conforms right now.
/// The answer depends on the clock and on earlier checks, so nothing is
/// claimed of it.
#[verifier::external_body]
pub(crate) fn limiter_check(limiter: &Limiter) -> (allowed: bool)
{
    limiter.inner.check().is_ok()
}

impl Limiter {
    /// A limiter that replenishes `per_minute` cells a minute and lets through
    /// bursts of `burst`, where such a limiter can be built.
    pub fn new(per_minute: u32, burst: u32) -> (limiter: Option<Limiter>)
        ensures
            limiter is Some <==> quota_fits(per_minute, burst),
            limiter matches Some(made) ==> quota_of(made) == (per_minute, burst),
    {
        if per_minute == 0 || burst == 0 {
            return None;
        }
        let interval: u64 = MINUTE_NANOS / (per_minute as u64);
        if interval > MAX_WINDOW_NANOS / (burst as u64) {
            proof {
                lemma_window(interval, burst as u64);
            }
            return None;
        }
        proof {
            lemma_window(interval, burst as u64);
        }
        Some(limiter_new(per_minute, burst))
    }

    /// Asks the limiter for one cell. A denial consumes nothing.
    pub fn check(&self) -> (allowed: bool) {
        limiter_check(self)
    }
}

/// `interval * burst` fits the window exactly when `interval` is at most the
/// window divided by `burst`.
proof fn lemma_window(interval: u64, burst: u64)
    requires
        burst > 0,
    ensures
        interval <= MAX_WINDOW_NANOS / burst <==> interval as int * burst as int
            <= MAX_WINDOW_NANOS as int,
{
    let w = MAX_WINDOW_NANOS as int;
    let b = burst as int;
    let i = interval as int;
    let q = w / b;
    assert(w == b * q + w % b && 0 <= w % b < b) by (nonlinear_arith)
        requires
            b > 0,
            q == w / b,
    ;
    if i <= q {
        assert(i * b <= q * b) by (nonlinear_arith)
            requires
                i <= q,
                b > 0,
        ;
        assert(q * b == b * q) by (nonlinear_arith);
    } else {
        assert(i * b >= (q + 1) * b) by (nonlinear_arith)
            requires
                i >= q + 1,
                b > 0,
        ;
        assert((q + 1) * b == b * q + b) by (nonlinear_arith);
    }
}

} // verus!
