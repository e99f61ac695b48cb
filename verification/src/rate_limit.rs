//! Per-user rate limiting: a keyed token bucket that admits a bounded
//! number of requests per second for each user.
//!
//! The bucket state and clock live in the governor crate; whether a
//! given call is admitted depends on real time, so nothing is promised
//! of a single outcome — admission handles both answers, and the
//! contracts downstream are conditional on the answer.

use vstd::prelude::*;

verus! {

/// Keyed token-bucket rate limiter over user ids.
#[verifier::external_body]
pub struct UserRateLimiter {
    limiter: std::sync::Arc<
        governor::RateLimiter<
            u128,
            governor::state::keyed::DashMapStateStore<u128>,
            governor::clock::DefaultClock,
        >,
    >,
}

impl UserRateLimiter {
    /// Relies on `governor::Quota::per_second` and
    /// `governor::RateLimiter::keyed`: a fresh keyed limiter refilling
    /// `requests_per_second` tokens per second per key.  The quota
    /// constructor takes a non-zero rate, so zero is excluded here.
    #[verifier::external_body]
    pub fn new(requests_per_second: u32) -> (limiter: UserRateLimiter)
        requires
            requests_per_second >= 1,
    {
        let quota = governor::Quota::per_second(
            std::num::NonZeroU32::new(requests_per_second).unwrap(),
        );
        UserRateLimiter { limiter: std::sync::Arc::new(governor::RateLimiter::keyed(quota)) }
    }

    /// Relies on `governor::RateLimiter::check_key`: true exactly when
    /// a token was available for this user and was consumed.  The
    /// answer depends on the clock and on the bucket's state, so no
    /// single outcome is promised.
    #[verifier::external_body]
    pub fn check(&self, user_id: u128) -> bool {
        self.limiter.check_key(&user_id).is_ok()
    }
}

} // verus!
