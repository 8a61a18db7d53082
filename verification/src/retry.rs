//! The retry/backoff policy shared by all remote calls.
//!
//! Every transport or non-2xx failure is retryable.  The delay before a
//! retry is the current base plus a uniformly drawn jitter in
//! `[0, retry_backoff_ms)`; after each failure the base grows by
//! `retry_backoff_ms`, capped at `retry_ceiling_ms`.  After
//! `max_num_retries` failed attempts the call gives up, carrying the
//! chain of every recorded cause.
//!
//! The state machine here makes the decisions; the caller performs the
//! attempt and the sleep.

use vstd::prelude::*;

verus! {

/// The value `fastrange` maps a machine word to: `(x * n) >> 64`, a
/// near-uniform reduction of `x` into `[0, n)`.
pub open spec fn fastrange_spec(x: u64, n: u64) -> int {
    ((x as int) * (n as int)) / 0x10000000000000000
}

/// Relies on `fastrange_rs::fastrange_64`: it returns
/// `((x as u128 * n as u128) >> 64) as u64`, a pure function of its
/// arguments.
#[verifier::external_body]
fn fastrange_word(x: u64, n: u64) -> (r: u64)
    ensures
        r == fastrange_spec(x, n),
{
    fastrange_rs::fastrange_64(x, n)
}

/// Relies on `rand::random`: a uniformly drawn machine word; nothing is
/// assumed of the value.
#[verifier::external_body]
fn random_word() -> u64 {
    rand::random()
}

/// The multiply-shift reduction lands strictly below `n`, and at zero
/// when `n` is zero.
pub proof fn lemma_fastrange_bound(x: u64, n: u64)
    ensures
        n > 0 ==> 0 <= fastrange_spec(x, n) < n,
        n == 0 ==> fastrange_spec(x, n) == 0,
{
    if n > 0 {
        assert((x as int) * (n as int) < 0x10000000000000000 * (n as int)) by (nonlinear_arith)
            requires
                x <= 0xffffffffffffffffu64,
                n > 0,
        ;
        assert(0 <= (x as int) * (n as int)) by (nonlinear_arith)
            requires
                x >= 0,
                n >= 0,
        ;
        assert(((x as int) * (n as int)) / 0x10000000000000000 < n) by (nonlinear_arith)
            requires
                0 <= (x as int) * (n as int) < 0x10000000000000000 * (n as int),
        ;
    }
}

/// The retry delay base after `i` failed attempts: the configured base
/// grown by one backoff step per failure, capped at the ceiling.  The
/// cap is not applied before the first attempt, which always waits the
/// configured base.
pub open spec fn base_after(base0: u64, backoff: u64, ceiling: u64, i: nat) -> int {
    if i == 0 {
        base0 as int
    } else {
        vstd::math::min(base0 + i * backoff, ceiling as int)
    }
}

/// The decision state of one retried remote call.
///
/// The caller attempts the call while [`RetryState::may_attempt`] holds;
/// after a failure it records the cause with [`RetryState::after_failure`]
/// and sleeps for the returned number of milliseconds.
#[derive(Debug, Clone)]
pub struct RetryState {
    /// Delay base of the next retry, in milliseconds.
    pub base: u64,
    /// Number of failed attempts recorded so far.
    pub attempts_failed: u64,
    /// One recorded cause per failed attempt, oldest first.
    pub causes: Vec<String>,
    /// Configured delay base of the first retry.
    pub retry_base_ms: u64,
    /// Configured growth of the base per failure, and jitter width.
    pub retry_backoff_ms: u64,
    /// Configured cap on the delay base.
    pub retry_ceiling_ms: u64,
    /// Configured number of attempts before giving up.
    pub max_num_retries: u64,
}

impl RetryState {
    /// The state invariant: the base follows the documented schedule and
    /// the cause chain holds one entry per failure.
    pub open spec fn wf(&self) -> bool {
        &&& self.attempts_failed <= self.max_num_retries
        &&& self.causes@.len() == self.attempts_failed
        &&& self.base == base_after(
            self.retry_base_ms,
            self.retry_backoff_ms,
            self.retry_ceiling_ms,
            self.attempts_failed as nat,
        )
    }

    /// A fresh state for one remote call.
    pub fn new(base_ms: u64, backoff_ms: u64, ceiling_ms: u64, max_retries: u64) -> (r: RetryState)
        ensures
            r.wf(),
            r.attempts_failed == 0,
            r.causes@.len() == 0,
            r.base == base_ms,
            r.retry_base_ms == base_ms,
            r.retry_backoff_ms == backoff_ms,
            r.retry_ceiling_ms == ceiling_ms,
            r.max_num_retries == max_retries,
    {
        RetryState {
            base: base_ms,
            attempts_failed: 0,
            causes: Vec::new(),
            retry_base_ms: base_ms,
            retry_backoff_ms: backoff_ms,
            retry_ceiling_ms: ceiling_ms,
            max_num_retries: max_retries,
        }
    }

    /// Whether the retry budget still allows an attempt.
    pub fn may_attempt(&self) -> (r: bool)
        ensures
            r == (self.attempts_failed < self.max_num_retries),
    {
        self.attempts_failed < self.max_num_retries
    }

    /// Records a failed attempt and returns the delay, in milliseconds,
    /// to sleep before the next one: the current base plus a drawn
    /// jitter below `retry_backoff_ms`.
    pub fn after_failure(&mut self, cause: String) -> (delay: u64)
        requires
            old(self).wf(),
            old(self).attempts_failed < old(self).max_num_retries,
        ensures
            final(self).wf(),
            final(self).attempts_failed == old(self).attempts_failed + 1,
            final(self).causes@ == old(self).causes@.push(cause),
            final(self).retry_base_ms == old(self).retry_base_ms,
            final(self).retry_backoff_ms == old(self).retry_backoff_ms,
            final(self).retry_ceiling_ms == old(self).retry_ceiling_ms,
            final(self).max_num_retries == old(self).max_num_retries,
            delay >= old(self).base,
            old(self).retry_backoff_ms > 0 ==> (delay as int) < old(self).base
                + old(self).retry_backoff_ms,
            old(self).retry_backoff_ms == 0 ==> delay == old(self).base,
    {
        let word = random_word();
        let jitter = fastrange_word(word, self.retry_backoff_ms);
        proof {
            lemma_fastrange_bound(word, self.retry_backoff_ms);
        }
        let delay = if self.base > u64::MAX - jitter {
            u64::MAX
        } else {
            self.base + jitter
        };

        self.causes.push(cause);
        let ghost i = self.attempts_failed as nat;
        self.attempts_failed = self.attempts_failed + 1;

        let grown = if self.base > u64::MAX - self.retry_backoff_ms {
            u64::MAX
        } else {
            self.base + self.retry_backoff_ms
        };
        self.base = if grown < self.retry_ceiling_ms {
            grown
        } else {
            self.retry_ceiling_ms
        };

        proof {
            lemma_base_step(
                self.retry_base_ms,
                self.retry_backoff_ms,
                self.retry_ceiling_ms,
                i,
            );
        }
        delay
    }
}

/// One capped-growth step takes the schedule from `i` failures to
/// `i + 1`.
proof fn lemma_base_step(base0: u64, backoff: u64, ceiling: u64, i: nat)
    ensures
        base_after(base0, backoff, ceiling, i + 1) == vstd::math::min(
            vstd::math::min(base_after(base0, backoff, ceiling, i) + backoff, u64::MAX as int),
            ceiling as int,
        ),
{
    assert((i + 1) * backoff == i * backoff + backoff) by (nonlinear_arith);
    assert(i * backoff >= 0) by (nonlinear_arith);
    if i == 0 {
        assert(i * backoff == 0) by (nonlinear_arith)
            requires
                i == 0,
        ;
        assert(base_after(base0, backoff, ceiling, i) == base0 as int);
        assert(base_after(base0, backoff, ceiling, i + 1) == vstd::math::min(
            base0 + backoff,
            ceiling as int,
        ));
    } else {
        assert(base_after(base0, backoff, ceiling, i) == vstd::math::min(
            base0 + i * backoff,
            ceiling as int,
        ));
        assert(base_after(base0, backoff, ceiling, i + 1) == vstd::math::min(
            base0 + i * backoff + backoff,
            ceiling as int,
        ));
    }
}

/// Law: once every attempt of the budget has failed, no further attempt
/// is allowed, and the cause chain holds exactly one entry per attempt.
pub proof fn lemma_retry_exhaustion(s: RetryState)
    requires
        s.wf(),
        s.attempts_failed == s.max_num_retries,
    ensures
        !(s.attempts_failed < s.max_num_retries),
        s.causes@.len() == s.max_num_retries,
{
}

/// Law: when the configured base does not exceed the ceiling, the delay
/// drawn before retry `i + 1` (after `i` failures) lies in
/// `[min(retry_base_ms + i * retry_backoff_ms, retry_ceiling_ms),
///   retry_ceiling_ms + retry_backoff_ms)`.
pub proof fn lemma_backoff_bound(s: RetryState, delay: u64)
    requires
        s.wf(),
        s.retry_base_ms <= s.retry_ceiling_ms,
        s.retry_backoff_ms > 0,
        delay >= s.base,
        (delay as int) < s.base + s.retry_backoff_ms,
    ensures
        delay >= vstd::math::min(
            s.retry_base_ms + s.attempts_failed * s.retry_backoff_ms,
            s.retry_ceiling_ms as int,
        ),
        (delay as int) < s.retry_ceiling_ms + s.retry_backoff_ms,
{
    let i = s.attempts_failed as nat;
    assert(i * s.retry_backoff_ms >= 0) by (nonlinear_arith);
    if i == 0 {
        assert(0 * s.retry_backoff_ms == 0) by (nonlinear_arith);
    }
}

} // verus!
