//! Retry policy with exponential backoff and jitter.
//!
//! Only `RpcError::TransportRetryable` failures are retried. Each retry waits
//! for the current backoff delay, scaled by a random factor in `[0.75, 1.25)`;
//! after each wait the delay is multiplied by the configured multiplier and
//! capped at `max_delay`. Durations are whole nanoseconds and the multiplier
//! is given in thousandths (2000 stands for a factor of 2).

use crate::error::RpcError;
use vstd::prelude::*;

verus! {

/// Retry configuration with exponential backoff.
#[derive(Debug, Clone, Copy)]
pub struct RetryConfig {
    /// Maximum number of retries after the first attempt (0: no retry).
    pub max_attempts: u32,
    /// Backoff multiplier in thousandths, applied to the delay after each retry.
    pub multiplier_permille: u32,
    /// Delay before the first retry, in nanoseconds.
    pub initial_delay_nanos: u64,
    /// Cap on the delay between retries, in nanoseconds.
    pub max_delay_nanos: u64,
}

/// The smaller of two naturals.
pub open spec fn min_nat(a: nat, b: nat) -> nat {
    if a <= b { a } else { b }
}

/// `delay` scaled by the jitter factor `(1500 + r) / 2000`, that is
/// `0.75 + r / 2000` for a random `r` below 1000.
pub open spec fn jittered(delay: nat, r: nat) -> nat {
    delay * (1500 + r) / 2000
}

/// A jittered delay as a `u64` count of nanoseconds (saturating).
pub open spec fn jittered_u64(delay: nat, r: nat) -> nat {
    min_nat(jittered(delay, r), u64::MAX as nat)
}

/// Whether `d` is a possible jittered value of `base`.
pub open spec fn is_jitter_of(d: nat, base: nat) -> bool {
    exists|r: nat| r < 1000 && d == #[trigger] jittered_u64(base, r)
}

impl RetryConfig {
    /// The delay that follows `delay`: scaled by the multiplier, capped at `max_delay`.
    pub open spec fn step(self, delay: nat) -> nat {
        min_nat(delay * (self.multiplier_permille as nat) / 1000, self.max_delay_nanos as nat)
    }

    /// The undithered delay before retry number `k + 1` (`k` counted from 0).
    pub open spec fn backoff(self, k: nat) -> nat
        decreases k,
    {
        if k == 0 {
            self.initial_delay_nanos as nat
        } else {
            self.step(self.backoff((k - 1) as nat))
        }
    }

    /// The delay that follows `current`.
    pub fn next_delay(&self, current: u64) -> (r: u64)
        ensures
            r == self.step(current as nat),
    {
        let c: u128 = current as u128;
        let m: u128 = self.multiplier_permille as u128;
        proof {
            assert(c * m <= 0xffff_ffff_ffff_ffffu128 * 0xffff_ffffu128) by (nonlinear_arith)
                requires
                    c <= 0xffff_ffff_ffff_ffffu128,
                    m <= 0xffff_ffffu128,
            ;
        }
        let scaled: u128 = c * m / 1000;
        if scaled <= self.max_delay_nanos as u128 {
            scaled as u64
        } else {
            self.max_delay_nanos
        }
    }
}

impl Default for RetryConfig {
    /// Three retries, doubling from 100 ms up to 5 s.
    fn default() -> (r: Self)
        ensures
            r.max_attempts == 3,
            r.multiplier_permille == 2000,
            r.initial_delay_nanos == 100_000_000,
            r.max_delay_nanos == 5_000_000_000,
    {
        RetryConfig {
            max_attempts: 3,
            multiplier_permille: 2000,
            initial_delay_nanos: 100_000_000,
            max_delay_nanos: 5_000_000_000,
        }
    }
}

/// Progress of a retry sequence: retries taken so far and the current delay.
#[derive(Debug, Clone, Copy)]
pub struct RetryState {
    /// Number of retryable failures seen so far.
    pub attempt: u64,
    /// Undithered delay to wait before the next retry, in nanoseconds.
    pub current_delay_nanos: u64,
}

impl RetryState {
    /// The state before the first attempt.
    pub fn start(config: &RetryConfig) -> (r: Self)
        ensures
            r.attempt == 0,
            r.current_delay_nanos == config.initial_delay_nanos,
            r.tracks(*config),
    {
        RetryState { attempt: 0, current_delay_nanos: config.initial_delay_nanos }
    }

    /// The state follows `config`: its delay is the backoff for its attempt count.
    pub open spec fn tracks(self, config: RetryConfig) -> bool {
        &&& self.attempt <= config.max_attempts as nat + 1
        &&& self.current_delay_nanos as nat == config.backoff(self.attempt as nat)
    }
}

/// The state after one more retryable failure, and whether the driver then
/// waits (rather than giving up).
pub open spec fn retry_transition(config: RetryConfig, s: RetryState) -> (RetryState, bool) {
    let next = RetryState {
        attempt: (s.attempt + 1) as u64,
        current_delay_nanos: config.step(s.current_delay_nanos as nat) as u64,
    };
    (next, next.attempt <= config.max_attempts)
}

/// The state after `n` consecutive retryable failures from the start.
pub open spec fn state_after_failures(config: RetryConfig, n: nat) -> RetryState
    decreases n,
{
    if n == 0 {
        RetryState { attempt: 0, current_delay_nanos: config.initial_delay_nanos }
    } else {
        retry_transition(config, state_after_failures(config, (n - 1) as nat)).0
    }
}

/// What the driver of a retried operation does after an attempt.
#[derive(Debug, Clone, Copy, PartialEq, Eq, Structural)]
pub enum RetryAction {
    /// Return the attempt's outcome to the caller.
    Finish,
    /// Sleep this many nanoseconds, then run the operation again.
    Wait { delay_nanos: u64 },
}

/// Decides, after one attempt, whether to return its outcome or retry.
///
/// Without a configuration, or on success, or on an error that is not
/// retryable, the outcome is returned. A retryable failure counts one attempt;
/// once the count exceeds `max_attempts` the failure is returned, otherwise
/// the driver waits for the jittered current delay and the delay advances.
pub fn after_attempt<T>(
    config: Option<&RetryConfig>,
    state: &mut RetryState,
    outcome: &Result<T, RpcError>,
) -> (action: RetryAction)
    requires
        config.is_some() ==> old(state).tracks(*config.unwrap()),
        config.is_some() ==> old(state).attempt <= config.unwrap().max_attempts,
    ensures
        config.is_none() ==> action == RetryAction::Finish && *final(state) == *old(state),
        outcome.is_ok() ==> action == RetryAction::Finish && *final(state) == *old(state),
        (outcome matches Err(e) && !e.is_retryable()) ==> action == RetryAction::Finish
            && *final(state) == *old(state),
        (outcome matches Err(e) && !(e is TransportRetryable)) ==> action == RetryAction::Finish
            && *final(state) == *old(state),
        config.is_some() && (outcome matches Err(e) && e is TransportRetryable)
            ==> final(state).attempt == old(state).attempt + 1,
        config.is_some() && (outcome matches Err(e) && e.is_retryable()) ==> {
            let cfg = *config.unwrap();
            &&& final(state).attempt == old(state).attempt + 1
            &&& *final(state) == retry_transition(cfg, *old(state)).0
            &&& (action is Wait) == retry_transition(cfg, *old(state)).1
            &&& final(state).tracks(cfg)
            &&& (final(state).attempt > cfg.max_attempts ==> action == RetryAction::Finish)
            &&& (final(state).attempt <= cfg.max_attempts ==> {
                &&& action matches RetryAction::Wait { delay_nanos }
                &&& is_jitter_of(delay_nanos as nat, old(state).current_delay_nanos as nat)
                &&& final(state).current_delay_nanos as nat == cfg.step(
                    old(state).current_delay_nanos as nat,
                )
            })
        },
{
    let cfg = match config {
        Some(c) => c,
        None => {
            return RetryAction::Finish;
        },
    };
    let retryable = match outcome {
        Ok(_) => false,
        Err(e) => e.retryable(),
    };
    if !retryable {
        return RetryAction::Finish;
    }
    let current = state.current_delay_nanos;
    state.attempt = state.attempt + 1;
    state.current_delay_nanos = cfg.next_delay(current);
    if state.attempt > cfg.max_attempts as u64 {
        return RetryAction::Finish;
    }
    RetryAction::Wait { delay_nanos: apply_jitter(current) }
}

/// `delay` scaled by `(1500 + r) / 2000`, saturating at `u64::MAX`.
pub fn jitter_with(delay: u64, r: u64) -> (d: u64)
    requires
        r < 1000,
    ensures
        d == jittered_u64(delay as nat, r as nat),
{
    let f: u128 = 1500 + r as u128;
    let x: u128 = delay as u128;
    proof {
        assert(x * f <= 0xffff_ffff_ffff_ffffu128 * 2500u128) by (nonlinear_arith)
            requires
                x <= 0xffff_ffff_ffff_ffffu128,
                f <= 2500u128,
        ;
    }
    let j: u128 = x * f / 2000;
    if j <= u64::MAX as u128 {
        j as u64
    } else {
        u64::MAX
    }
}

/// Scales `delay` by a random factor in `[0.75, 1.25)` so that clients that
/// failed together do not retry together.
pub fn apply_jitter(delay: u64) -> (d: u64)
    ensures
        is_jitter_of(d as nat, delay as nat),
{
    let seed = random_seed();
    let r = seed % 1000;
    let d = jitter_with(delay, r);
    assert(jittered_u64(delay as nat, r as nat) == d as nat);
    d
}

/// A pseudo-random number from a freshly keyed hasher applied to the clock.
fn random_seed() -> u64 {
    let state = fresh_random_state();
    let now = system_time_now();
    hash_time(&state, now)
}

/// `std::time::SystemTime`: a wall-clock instant.
#[verifier::external_type_specification]
#[verifier::external_body]
pub struct ExSystemTime(std::time::SystemTime);

/// Calls `std::collections::hash_map::RandomState::new`, whose keys are
/// random; nothing is claimed about the result.
#[verifier::external_body]
fn fresh_random_state() -> std::collections::hash_map::RandomState {
    std::collections::hash_map::RandomState::new()
}

/// Calls `std::time::SystemTime::now`; nothing is claimed about the result.
#[verifier::external_body]
fn system_time_now() -> std::time::SystemTime {
    std::time::SystemTime::now()
}

/// Calls `std::hash::BuildHasher::hash_one` of `state` on `t`; the hash of a
/// randomly keyed hasher, about which nothing is claimed.
#[verifier::external_body]
fn hash_time(state: &std::collections::hash_map::RandomState, t: std::time::SystemTime) -> u64 {
    std::hash::BuildHasher::hash_one(state, t)
}

/// A jittered delay lies within 25% of its base: between three quarters and
/// five quarters of it (rounded down).
pub proof fn lemma_jitter_range(delay: nat, r: nat)
    requires
        r < 1000,
    ensures
        delay * 3 / 4 <= jittered(delay, r),
        jittered(delay, r) <= delay * 5 / 4,
{
    assert(delay * 1500 <= delay * (1500 + r)) by (nonlinear_arith)
        requires r >= 0;
    assert(delay * (1500 + r) <= delay * 2500) by (nonlinear_arith)
        requires r < 1000;
    assert(delay * 3 / 4 == (delay * 1500) / 2000);
    assert(delay * 5 / 4 == (delay * 2500) / 2000);
    assert((delay * 1500) / 2000 <= (delay * (1500 + r)) / 2000) by (nonlinear_arith)
        requires delay * 1500 <= delay * (1500 + r);
    assert((delay * (1500 + r)) / 2000 <= (delay * 2500) / 2000) by (nonlinear_arith)
        requires delay * (1500 + r) <= delay * 2500;
}

/// Retry budget: under failures that are all retryable, the state after `n`
/// of them has counted `n` attempts and holds the `n`-th backoff delay, and
/// the driver waits after failure number `n + 1` exactly when
/// `n + 1 <= max_attempts`. Hence the operation runs `max_attempts + 1`
/// times before the failure is returned.
pub proof fn lemma_retry_budget(config: RetryConfig, n: nat)
    requires
        n <= config.max_attempts,
    ensures
        state_after_failures(config, n).attempt == n,
        state_after_failures(config, n).current_delay_nanos == config.backoff(n),
        state_after_failures(config, n).tracks(config),
        retry_transition(config, state_after_failures(config, n)).1 <==> n + 1
            <= config.max_attempts,
    decreases n,
{
    if n > 0 {
        lemma_retry_budget(config, (n - 1) as nat);
        let prev = state_after_failures(config, (n - 1) as nat);
        lemma_step_fits(config, prev.current_delay_nanos as nat);
    }
}

/// A delay produced by `step` fits in a `u64`.
proof fn lemma_step_fits(config: RetryConfig, d: nat)
    ensures
        config.step(d) <= config.max_delay_nanos,
{
}

/// Every delay after the first is capped by `max_delay`.
pub proof fn lemma_backoff_capped(config: RetryConfig, k: nat)
    requires
        k >= 1,
    ensures
        config.backoff(k) <= config.max_delay_nanos,
{
}

/// With a multiplier of at least one and a first delay within the cap, the
/// delays never decrease.
pub proof fn lemma_backoff_monotone(config: RetryConfig, k: nat)
    requires
        config.multiplier_permille >= 1000,
        config.initial_delay_nanos <= config.max_delay_nanos,
    ensures
        config.backoff(k) <= config.backoff(k + 1),
        config.backoff(k) <= config.max_delay_nanos,
    decreases k,
{
    let d = config.backoff(k);
    if k > 0 {
        lemma_backoff_monotone(config, (k - 1) as nat);
    }
    assert(d <= d * (config.multiplier_permille as nat) / 1000) by (nonlinear_arith)
        requires config.multiplier_permille >= 1000;
}

} // verus!
