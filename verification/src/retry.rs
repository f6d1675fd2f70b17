//! Retry strategies and backoff logic.
//!
//! Backoffs are whole milliseconds: the base backoff times the multiplier to
//! the power `attempt - 1`, capped at the maximum backoff, and, with jitter,
//! scaled by a random factor in [0.5, 1.5) (drawn in thousandths) and capped again.

use std::time::Duration;
use vstd::prelude::*;

use crate::error::ConnectorError;

verus! {

/// `b` to the power `e`.
pub open spec fn power(b: nat, e: nat) -> nat
    decreases e,
{
    if e == 0 {
        1
    } else {
        b * power(b, (e - 1) as nat)
    }
}

pub open spec fn min_nat(a: nat, b: nat) -> nat {
    if a <= b {
        a
    } else {
        b
    }
}

/// The `Duration` of `Duration::from_millis(ms)`.
pub uninterp spec fn duration_of_millis(ms: u64) -> Duration;

/// Calls `Duration::from_millis`.
#[verifier::external_body]
pub(crate) fn millis(ms: u64) -> (d: Duration)
    ensures
        d == duration_of_millis(ms),
{
    Duration::from_millis(ms)
}

/// Calls `rand::rng().random_range(lo..hi)`: a random number drawn from the
/// half-open range, which must not be empty. Every outcome lies in the range;
/// which one comes is left open.
#[verifier::external_body]
fn random_between(lo: u64, hi: u64) -> (p: u64)
    requires
        lo < hi,
    ensures
        lo <= p < hi,
{
    rand::Rng::random_range(&mut rand::rng(), lo..hi)
}

/// Configuration for retry behavior.
#[derive(Debug, Clone, Copy)]
pub struct RetryConfig {
    /// Maximum number of retry attempts
    pub max_retries: u32,
    /// Base backoff duration in milliseconds
    pub base_backoff_ms: u64,
    /// Maximum backoff duration in milliseconds
    pub max_backoff_ms: u64,
    /// Backoff multiplier for exponential backoff
    pub multiplier: u32,
    /// Add jitter to backoff to avoid thundering herd
    pub jitter: bool,
}

/// The backoff before jitter for an attempt (1-indexed; attempt 0 waits nothing).
pub open spec fn plain_backoff(c: RetryConfig, attempt: nat) -> nat {
    if attempt == 0 {
        0
    } else {
        min_nat(
            c.base_backoff_ms as nat * power(c.multiplier as nat, (attempt - 1) as nat),
            c.max_backoff_ms as nat,
        )
    }
}

/// A backoff scaled by a jitter factor of `permille` thousandths, capped at `max`.
pub open spec fn jittered(backoff: nat, permille: nat, max: nat) -> nat {
    min_nat(backoff * permille / 1000, max)
}

/// The backoffs an attempt may wait: exactly the plain backoff without
/// jitter, and with jitter the plain backoff scaled by some factor in [0.5, 1.5).
pub open spec fn backoff_allowed(c: RetryConfig, attempt: nat, ms: nat) -> bool {
    if attempt == 0 || !c.jitter {
        ms == plain_backoff(c, attempt)
    } else {
        exists|p: nat| 500 <= p < 1500 && ms == jittered(plain_backoff(c, attempt), p, c.max_backoff_ms as nat)
    }
}

proof fn lemma_power_positive(b: nat, e: nat)
    requires
        b >= 1,
    ensures
        power(b, e) >= 1,
    decreases e,
{
    if e > 0 {
        lemma_power_positive(b, (e - 1) as nat);
        assert(b * power(b, (e - 1) as nat) >= 1) by (nonlinear_arith)
            requires b >= 1, power(b, (e - 1) as nat) >= 1;
    }
}

proof fn lemma_power_grows(b: nat, e1: nat, e2: nat)
    requires
        b >= 1,
        e1 <= e2,
    ensures
        power(b, e1) <= power(b, e2),
    decreases e2,
{
    if e1 < e2 {
        lemma_power_grows(b, e1, (e2 - 1) as nat);
        lemma_power_positive(b, (e2 - 1) as nat);
        let x = power(b, (e2 - 1) as nat);
        assert(x <= b * x) by (nonlinear_arith)
            requires b >= 1, x >= 1;
    }
}

/// Once the capped backoff reaches the cap, later attempts stay at the cap.
proof fn lemma_capped_stays(c: RetryConfig, k: nat, j: nat)
    requires
        c.multiplier >= 1,
        1 <= k <= j,
        plain_backoff(c, k) == c.max_backoff_ms,
    ensures
        plain_backoff(c, j) == c.max_backoff_ms,
{
    lemma_power_grows(c.multiplier as nat, (k - 1) as nat, (j - 1) as nat);
    let a = power(c.multiplier as nat, (k - 1) as nat);
    let b = power(c.multiplier as nat, (j - 1) as nat);
    let base = c.base_backoff_ms as nat;
    assert(base * a <= base * b) by (nonlinear_arith)
        requires a <= b;
}

/// A backoff of `plain` milliseconds scaled by a jitter factor of `permille`
/// thousandths (rounded down) and capped at `max`.
pub fn jittered_backoff_ms(plain: u64, permille: u64, max: u64) -> (ms: u64)
    ensures
        ms == jittered(plain as nat, permille as nat, max as nat),
        ms <= max,
{
    assert((plain as u128) * (permille as u128) <= 0xffff_ffff_ffff_ffffu128 * 0xffff_ffff_ffff_ffffu128)
        by (nonlinear_arith)
        requires plain <= 0xffff_ffff_ffff_ffffu64, permille <= 0xffff_ffff_ffff_ffffu64;
    let scaled: u128 = (plain as u128) * (permille as u128) / 1000;
    if scaled <= max as u128 {
        scaled as u64
    } else {
        max
    }
}

impl RetryConfig {
    /// Create a new retry configuration (exponential, doubling, with jitter).
    pub fn new(max_retries: u32, base_backoff_ms: u64, max_backoff_ms: u64) -> (c: Self)
        ensures
            c.max_retries == max_retries,
            c.base_backoff_ms == base_backoff_ms,
            c.max_backoff_ms == max_backoff_ms,
            c.multiplier == 2,
            c.jitter,
    {
        RetryConfig { max_retries, base_backoff_ms, max_backoff_ms, multiplier: 2, jitter: true }
    }

    /// Create exponential backoff configuration: 1 s doubling up to 30 s, with jitter.
    pub fn exponential(max_retries: u32) -> (c: Self)
        ensures
            c.max_retries == max_retries,
            c.base_backoff_ms == 1000,
            c.max_backoff_ms == 30000,
            c.multiplier == 2,
            c.jitter,
    {
        RetryConfig {
            max_retries,
            base_backoff_ms: 1000,
            max_backoff_ms: 30000,
            multiplier: 2,
            jitter: true,
        }
    }

    /// Create linear backoff configuration: a constant backoff, no jitter.
    pub fn linear(max_retries: u32, backoff_ms: u64) -> (c: Self)
        ensures
            c.max_retries == max_retries,
            c.base_backoff_ms == backoff_ms,
            c.max_backoff_ms == backoff_ms,
            c.multiplier == 1,
            !c.jitter,
    {
        RetryConfig {
            max_retries,
            base_backoff_ms: backoff_ms,
            max_backoff_ms: backoff_ms,
            multiplier: 1,
            jitter: false,
        }
    }

    /// Create fixed delay configuration.
    pub fn fixed(max_retries: u32, delay_ms: u64) -> (c: Self)
        ensures
            c.max_retries == max_retries,
            c.base_backoff_ms == delay_ms,
            c.max_backoff_ms == delay_ms,
            c.multiplier == 1,
            !c.jitter,
    {
        RetryConfig {
            max_retries,
            base_backoff_ms: delay_ms,
            max_backoff_ms: delay_ms,
            multiplier: 1,
            jitter: false,
        }
    }

    /// Create a configuration from all of its settings.
    pub fn from_parts(
        max_retries: u32,
        base_backoff_ms: u64,
        max_backoff_ms: u64,
        multiplier: u32,
        jitter: bool,
    ) -> (c: Self)
        ensures
            c.max_retries == max_retries,
            c.base_backoff_ms == base_backoff_ms,
            c.max_backoff_ms == max_backoff_ms,
            c.multiplier == multiplier,
            c.jitter == jitter,
    {
        RetryConfig { max_retries, base_backoff_ms, max_backoff_ms, multiplier, jitter }
    }

    /// Disable jitter.
    pub fn without_jitter(self) -> (c: Self)
        ensures
            c == (RetryConfig { jitter: false, ..self }),
    {
        RetryConfig { jitter: false, ..self }
    }

    /// Set a custom (whole) multiplier.
    pub fn with_multiplier(self, multiplier: u32) -> (c: Self)
        ensures
            c == (RetryConfig { multiplier, ..self }),
    {
        RetryConfig { multiplier, ..self }
    }

    /// The maximum number of retry attempts.
    pub fn max_retries(&self) -> (r: u32)
        ensures
            r == self.max_retries,
    {
        self.max_retries
    }

    /// The base backoff in milliseconds.
    pub fn base_backoff_ms(&self) -> (r: u64)
        ensures
            r == self.base_backoff_ms,
    {
        self.base_backoff_ms
    }

    /// The maximum backoff in milliseconds.
    pub fn max_backoff_ms(&self) -> (r: u64)
        ensures
            r == self.max_backoff_ms,
    {
        self.max_backoff_ms
    }

    /// The backoff multiplier.
    pub fn multiplier(&self) -> (r: u32)
        ensures
            r == self.multiplier,
    {
        self.multiplier
    }

    /// Whether jitter is added.
    pub fn jitter(&self) -> (r: bool)
        ensures
            r == self.jitter,
    {
        self.jitter
    }
}

impl Default for RetryConfig {
    fn default() -> (c: Self)
        ensures
            c == RetryConfig::spec_exponential(3),
    {
        RetryConfig::exponential(3)
    }
}

impl RetryConfig {
    pub open spec fn spec_exponential(max_retries: u32) -> RetryConfig {
        RetryConfig {
            max_retries,
            base_backoff_ms: 1000,
            max_backoff_ms: 30000,
            multiplier: 2,
            jitter: true,
        }
    }
}

/// Retry strategy: when to retry, and how long to wait before each retry.
#[derive(Debug, Clone, Copy)]
pub struct RetryStrategy {
    pub config: RetryConfig,
}

/// What to do after a failed attempt.
#[derive(Debug)]
pub enum RetryDecision {
    /// Wait `backoff`, then make retry number `attempt`.
    Retry { attempt: u32, backoff_ms: u64, backoff: Duration },
    /// Stop and report the error.
    GiveUp,
}

impl RetryStrategy {
    /// Create a new retry strategy.
    pub fn new(config: RetryConfig) -> (s: Self)
        ensures
            s.config == config,
    {
        RetryStrategy { config }
    }

    /// Create an exponential backoff strategy.
    pub fn exponential_backoff(max_retries: u32) -> (s: Self)
        ensures
            s.config == RetryConfig::spec_exponential(max_retries),
    {
        RetryStrategy::new(RetryConfig::exponential(max_retries))
    }

    /// Create a linear backoff strategy.
    pub fn linear_backoff(max_retries: u32, backoff_ms: u64) -> (s: Self)
        ensures
            s.config.max_retries == max_retries,
            s.config.base_backoff_ms == backoff_ms,
            s.config.max_backoff_ms == backoff_ms,
            s.config.multiplier == 1,
            !s.config.jitter,
    {
        RetryStrategy::new(RetryConfig::linear(max_retries, backoff_ms))
    }

    /// Create a fixed delay strategy.
    pub fn fixed_delay(max_retries: u32, delay_ms: u64) -> (s: Self)
        ensures
            s.config.max_retries == max_retries,
            s.config.base_backoff_ms == delay_ms,
            s.config.max_backoff_ms == delay_ms,
            s.config.multiplier == 1,
            !s.config.jitter,
    {
        RetryStrategy::new(RetryConfig::fixed(max_retries, delay_ms))
    }

    /// The backoff without jitter, in milliseconds, for an attempt (1-indexed).
    pub fn plain_backoff_ms(&self, attempt: u32) -> (ms: u64)
        ensures
            ms == plain_backoff(self.config, attempt as nat),
    {
        let c = self.config;
        let ghost cap = c.max_backoff_ms as nat;
        let ghost base = c.base_backoff_ms as nat;
        let ghost m = c.multiplier as nat;
        if attempt == 0 {
            return 0;
        }
        if c.base_backoff_ms == 0 {
            assert(0 * power(m, (attempt - 1) as nat) == 0) by (nonlinear_arith);
            return 0;
        }
        if c.multiplier == 0 {
            if attempt == 1 {
                assert(power(m, 0) == 1);
                assert(base * 1 == base);
                return if c.base_backoff_ms <= c.max_backoff_ms { c.base_backoff_ms } else { c.max_backoff_ms };
            } else {
                assert(power(0, (attempt - 1) as nat) == 0 * power(0, (attempt - 2) as nat));
                assert(base * 0 == 0);
                return 0;
            }
        }
        if c.multiplier == 1 {
            assert(power(1, (attempt - 1) as nat) == 1) by {
                lemma_power_grows(1, 0, (attempt - 1) as nat);
                lemma_power_one((attempt - 1) as nat);
            }
            assert(base * 1 == base);
            return if c.base_backoff_ms <= c.max_backoff_ms { c.base_backoff_ms } else { c.max_backoff_ms };
        }
        // multiplier >= 2: the backoff at least doubles until it reaches the cap
        let mut b: u64 = if c.base_backoff_ms <= c.max_backoff_ms { c.base_backoff_ms } else { c.max_backoff_ms };
        let mut i: u32 = 1;
        assert(power(m, 0) == 1);
        assert(base * 1 == base);
        while i < attempt
            invariant
                1 <= i <= attempt,
                m >= 2,
                c == self.config,
                cap == c.max_backoff_ms,
                base == c.base_backoff_ms,
                m == c.multiplier,
                b == plain_backoff(c, i as nat),
            decreases attempt - i,
        {
            if b == c.max_backoff_ms {
                proof {
                    lemma_capped_stays(c, i as nat, attempt as nat);
                }
                return b;
            }
            let ghost x = base * power(m, (i - 1) as nat);
            assert(x < cap);
            assert(b == x);
            assert((b as u128) * (c.multiplier as u128) <= 0xffff_ffff_ffff_ffff * 0xffff_ffffu128) by (nonlinear_arith)
                requires b <= 0xffff_ffff_ffff_ffffu64, c.multiplier <= 0xffff_ffffu32;
            let prod: u128 = (b as u128) * (c.multiplier as u128);
            assert(prod == base * power(m, i as nat)) by {
                assert(power(m, i as nat) == m * power(m, (i - 1) as nat));
                assert(x * m == base * (m * power(m, (i - 1) as nat))) by (nonlinear_arith)
                    requires x == base * power(m, (i - 1) as nat);
            }
            b = if prod <= c.max_backoff_ms as u128 { prod as u64 } else { c.max_backoff_ms };
            i = i + 1;
        }
        b
    }

    /// Calculate the backoff, in milliseconds, for a given attempt (1-indexed).
    ///
    /// It never exceeds the maximum backoff.
    pub fn calculate_backoff_ms(&self, attempt: u32) -> (ms: u64)
        ensures
            backoff_allowed(self.config, attempt as nat, ms as nat),
            ms <= self.config.max_backoff_ms,
    {
        let plain = self.plain_backoff_ms(attempt);
        if attempt == 0 || !self.config.jitter {
            return plain;
        }
        let p = random_between(500, 1500);
        jittered_backoff_ms(plain, p, self.config.max_backoff_ms)
    }

    /// Calculate the backoff duration for a given attempt (1-indexed).
    pub fn calculate_backoff(&self, attempt: u32) -> (d: Duration)
        ensures
            exists|ms: u64|
                backoff_allowed(self.config, attempt as nat, ms as nat) && ms
                    <= self.config.max_backoff_ms && d == duration_of_millis(ms),
    {
        let ms = self.calculate_backoff_ms(attempt);
        millis(ms)
    }

    /// Get the maximum number of retries.
    pub fn max_retries(&self) -> (r: u32)
        ensures
            r == self.config.max_retries,
    {
        self.config.max_retries
    }

    /// Check if should retry based on attempt count.
    pub fn should_retry(&self, attempt: u32) -> (r: bool)
        ensures
            r == (attempt < self.config.max_retries),
    {
        attempt < self.config.max_retries
    }

    /// Decides what follows a failed attempt: a retry when the error is
    /// retryable and fewer than `max_retries` retries were made (`attempt`
    /// counts them), after the backoff for the next retry; otherwise stop.
    /// A retry's number never exceeds `max_retries`.
    pub fn decide(&self, error: &ConnectorError, attempt: u32) -> (d: RetryDecision)
        ensures
            (d is Retry) == (error is Retryable && attempt < self.config.max_retries),
            d matches RetryDecision::Retry { attempt: next, backoff_ms, backoff } ==> {
                &&& next == attempt + 1
                &&& next <= self.config.max_retries
                &&& backoff_allowed(self.config, next as nat, backoff_ms as nat)
                &&& backoff_ms <= self.config.max_backoff_ms
                &&& backoff == duration_of_millis(backoff_ms)
            },
    {
        if error.is_retryable() && self.should_retry(attempt) {
            let next = attempt + 1;
            let ms = self.calculate_backoff_ms(next);
            RetryDecision::Retry { attempt: next, backoff_ms: ms, backoff: millis(ms) }
        } else {
            RetryDecision::GiveUp
        }
    }
}

proof fn lemma_power_one(e: nat)
    ensures
        power(1, e) == 1,
    decreases e,
{
    if e > 0 {
        lemma_power_one((e - 1) as nat);
    }
}

/// Without jitter, a later attempt never waits less than an earlier one
/// (for a multiplier of at least 1), and no attempt waits more than the cap.
pub proof fn lemma_backoff_monotone(c: RetryConfig, a: nat, b: nat)
    requires
        c.multiplier >= 1,
        a <= b,
    ensures
        plain_backoff(c, a) <= plain_backoff(c, b),
        plain_backoff(c, b) <= c.max_backoff_ms,
{
    if a >= 1 {
        lemma_power_grows(c.multiplier as nat, (a - 1) as nat, (b - 1) as nat);
        let x = power(c.multiplier as nat, (a - 1) as nat);
        let y = power(c.multiplier as nat, (b - 1) as nat);
        let base = c.base_backoff_ms as nat;
        assert(base * x <= base * y) by (nonlinear_arith)
            requires x <= y;
    }
}

/// A jittered backoff lies between half the plain backoff (capped) and the cap.
pub proof fn lemma_jitter_bounds(backoff: nat, permille: nat, max: nat)
    requires
        500 <= permille < 1500,
        backoff <= max,
    ensures
        backoff / 2 <= jittered(backoff, permille, max) <= max,
{
    assert(backoff * 500 <= backoff * permille) by (nonlinear_arith)
        requires 500 <= permille;
    assert(backoff / 2 == (backoff * 500) / 1000);
    assert((backoff * 500) / 1000 <= (backoff * permille) / 1000) by (nonlinear_arith)
        requires backoff * 500 <= backoff * permille;
}

impl Default for RetryStrategy {
    fn default() -> (s: Self)
        ensures
            s.config == RetryConfig::spec_exponential(3),
    {
        RetryStrategy::exponential_backoff(3)
    }
}

} // verus!
