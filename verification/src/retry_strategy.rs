//! Retry policies: the pluggable strategy interface and the default jittered
//! exponential backoff.

use rand::rngs::StdRng;
use rand::Rng;
use rand::SeedableRng;
use vstd::prelude::*;

verus! {

#[verifier::external_type_specification]
#[verifier::external_body]
pub struct ExStdRng(StdRng);

/// Relies on rand's `SeedableRng::from_os_rng`: a generator freshly seeded
/// from the operating system's entropy source. Nothing is assumed of the
/// values it will produce. It aborts only if the operating system cannot
/// provide entropy, which is a configuration fault of the machine, not an
/// input of this library.
#[verifier::external_body]
fn rng_from_os() -> StdRng {
    StdRng::from_os_rng()
}

/// Relies on rand's `Rng::random_range` over `0..1000`: the range is not
/// empty, so the call returns a value of the range and does not panic.
/// Nothing further is assumed of which value comes back.
#[verifier::external_body]
fn draw_jitter_ms(rng: &mut StdRng) -> (r: u64)
    ensures
        r < 1000,
{
    rng.random_range(0..1000u64)
}

/// A retry strategy decides, after each failed attempt, whether the request
/// is retried and how many milliseconds to wait first.
///
/// `attempt` counts the failures so far, starting at 0. `None` means give up
/// and surface the error; `Some(wait_ms)` means wait that long and retry. Any
/// implementation may be plugged into a request driver; nothing is assumed of
/// what it answers.
pub trait RetryStrategy {
    fn should_retry_after(&mut self, attempt: usize) -> Option<u64>;
}

/// The largest wait in milliseconds that a jittered backoff may pick after
/// `attempt` failed attempts: `2 ^ attempt` seconds, saturating at `u64::MAX`
/// milliseconds.
pub open spec fn spec_backoff_ms(attempt: nat) -> nat
    decreases attempt,
{
    if attempt == 0 {
        1000
    } else if 2 * spec_backoff_ms((attempt - 1) as nat) > u64::MAX {
        u64::MAX as nat
    } else {
        2 * spec_backoff_ms((attempt - 1) as nat)
    }
}

pub proof fn lemma_backoff_at_least_a_second(attempt: nat)
    ensures
        1000 <= spec_backoff_ms(attempt) <= u64::MAX,
    decreases attempt,
{
    if attempt > 0 {
        lemma_backoff_at_least_a_second((attempt - 1) as nat);
    }
}

/// The saturating doubling sequence `1000, 2000, 4000, ...` up to `attempt`.
fn backoff_base_ms(attempt: usize) -> (r: u64)
    ensures
        r == spec_backoff_ms(attempt as nat),
{
    let mut base: u64 = 1000;
    let mut i: usize = 0;
    while i < attempt
        invariant
            i <= attempt,
            base == spec_backoff_ms(i as nat),
        decreases attempt - i,
    {
        proof {
            lemma_backoff_at_least_a_second(i as nat);
        }
        if base > u64::MAX / 2 {
            base = u64::MAX;
        } else {
            base = base * 2;
        }
        i += 1;
    }
    base
}

/// The default retry strategy: jittered exponential backoff.
///
/// After `attempt` failures the wait is `2 ^ attempt` seconds minus a random
/// jitter of less than one second, and after `max_retry` failures the
/// strategy gives up. The jitter spreads out the retries of concurrent
/// callers so they do not arrive in lockstep.
pub struct JitteredBackoff {
    /// How many retries are attempted before giving up.
    pub max_retry: usize,
    /// The jitter source; fresh operating-system entropy by default.
    pub rng: StdRng,
}

impl JitteredBackoff {
    /// Decides whether to retry after `retry_count` failed attempts.
    ///
    /// Gives up exactly when `retry_count` has reached `max_retry`, whatever
    /// the state of the jitter source; otherwise the wait is positive, within
    /// one second below `2 ^ retry_count` seconds, and never larger than it.
    pub fn should_retry_after(&mut self, retry_count: usize) -> (r: Option<u64>)
        ensures
            final(self).max_retry == old(self).max_retry,
            r is None <==> retry_count >= old(self).max_retry,
            (r matches Some(d) ==> spec_backoff_ms(retry_count as nat) - 1000 < d
                <= spec_backoff_ms(retry_count as nat)),
    {
        if retry_count >= self.max_retry {
            return None;
        }
        let jitter = draw_jitter_ms(&mut self.rng);
        let base = backoff_base_ms(retry_count);
        proof {
            lemma_backoff_at_least_a_second(retry_count as nat);
        }
        Some(base - jitter)
    }

    /// A backoff that gives up after `max_retry` retries, with a fresh
    /// operating-system-seeded jitter source.
    pub fn new(max_retry: usize) -> (r: Self)
        ensures
            r.max_retry == max_retry,
    {
        JitteredBackoff { max_retry, rng: rng_from_os() }
    }
}

impl RetryStrategy for JitteredBackoff {
    fn should_retry_after(&mut self, attempt: usize) -> Option<u64> {
        JitteredBackoff::should_retry_after(self, attempt)
    }
}

/// How many retries a `JitteredBackoff` makes when none is configured.
pub const DEFAULT_MAX_RETRY: usize = 5;

impl Default for JitteredBackoff {
    /// A backoff with the default maximum number of retries.
    fn default() -> (r: Self)
        ensures
            r.max_retry == DEFAULT_MAX_RETRY,
    {
        JitteredBackoff::new(DEFAULT_MAX_RETRY)
    }
}

/// Builds a `JitteredBackoff`, field by field; every field has a default.
pub struct JitteredBackoffBuilder {
    pub max_retry: Option<usize>,
}

impl Default for JitteredBackoffBuilder {
    fn default() -> (r: Self)
        ensures
            r.max_retry is None,
    {
        JitteredBackoffBuilder { max_retry: None }
    }
}

impl JitteredBackoffBuilder {
    /// Sets the maximum number of retries.
    pub fn max_retry(self, max_retry: usize) -> (r: Self)
        ensures
            r.max_retry == Some(max_retry),
    {
        JitteredBackoffBuilder { max_retry: Some(max_retry) }
    }

    /// Finalizes the builder. Every field has a default, so building always
    /// succeeds: the configured retry ceiling is kept, and the default one
    /// stands in where none was set.
    pub fn build(self) -> (r: JitteredBackoff)
        ensures
            (match self.max_retry {
                Some(m) => r.max_retry == m,
                None => r.max_retry == DEFAULT_MAX_RETRY,
            }),
    {
        match self.max_retry {
            Some(m) => JitteredBackoff::new(m),
            None => JitteredBackoff::new(DEFAULT_MAX_RETRY),
        }
    }
}

} // verus!
