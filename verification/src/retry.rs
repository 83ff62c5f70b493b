//! When and after how long a failed operation is tried again.

use vstd::prelude::*;
use std::time::Duration;
use crate::error::{is_permanent, ZinitError};
use crate::foreign::{
    duration_as_millis, duration_from_millis, duration_from_secs, duration_millis, millis_duration,
    secs_duration,
};

verus! {

/// `2` to the power `e`.
pub open spec fn two_pow(e: nat) -> nat
    decreases e,
{
    if e == 0 {
        1
    } else {
        2 * two_pow((e - 1) as nat)
    }
}

/// Exponential backoff before retry number `attempt` (counting from 1):
/// `base * 2^(attempt - 1)`, capped at `max`.
pub open spec fn backoff_ms(base: int, max: int, attempt: int) -> int {
    let exp = base * two_pow((attempt - 1) as nat);
    if exp <= max {
        exp
    } else {
        max
    }
}

/// How long to wait before the next attempt.
#[derive(Debug, Clone, Copy, PartialEq, Eq, Structural)]
pub enum RetryDelay {
    /// Wait exactly this many milliseconds.
    Exact(u64),
    /// Wait about this many milliseconds, scaled by a random factor in
    /// `[0.8, 1.2)`.
    Jittered(u128),
}

/// Strategy for retrying operations.
#[derive(Debug, Clone, Copy)]
pub struct RetryStrategy {
    /// Maximum number of retry attempts
    max_retries: usize,
    /// Base delay between retries
    base_delay: Duration,
    /// Maximum delay between retries
    max_delay: Duration,
    /// Whether to add jitter to retry delays
    jitter: bool,
}

impl RetryStrategy {
    pub closed spec fn spec_max_retries(&self) -> usize {
        self.max_retries
    }

    pub closed spec fn spec_base_delay(&self) -> Duration {
        self.base_delay
    }

    pub closed spec fn spec_max_delay(&self) -> Duration {
        self.max_delay
    }

    pub closed spec fn spec_jitter(&self) -> bool {
        self.jitter
    }

    /// The backoff before retry number `attempt`, in milliseconds.
    pub open spec fn spec_backoff(&self, attempt: int) -> int {
        backoff_ms(
            duration_millis(self.spec_base_delay()) as int,
            duration_millis(self.spec_max_delay()) as int,
            attempt,
        )
    }

    /// The backoff before retry number `attempt` can be computed in `u128`.
    pub open spec fn backoff_fits(&self, attempt: int) -> bool {
        &&& 1 <= attempt <= 128
        &&& duration_millis(self.spec_base_delay()) * two_pow((attempt - 1) as nat) <= u128::MAX
    }

    /// The delay that `calculate_delay` gives for `attempt`.
    pub open spec fn spec_delay(&self, attempt: int) -> RetryDelay {
        if self.spec_jitter() {
            RetryDelay::Jittered(self.spec_backoff(attempt) as u128)
        } else {
            RetryDelay::Exact(self.spec_backoff(attempt) as u64)
        }
    }

    /// Create a new retry strategy.
    pub fn new(max_retries: usize, base_delay: Duration, max_delay: Duration, jitter: bool) -> (r:
        Self)
        ensures
            r.spec_max_retries() == max_retries,
            r.spec_base_delay() == base_delay,
            r.spec_max_delay() == max_delay,
            r.spec_jitter() == jitter,
    {
        RetryStrategy { max_retries, base_delay, max_delay, jitter }
    }

    /// Maximum number of retry attempts.
    pub fn max_retries(&self) -> (r: usize)
        ensures
            r == self.spec_max_retries(),
    {
        self.max_retries
    }

    /// Whether delays are jittered.
    pub fn jitter(&self) -> (r: bool)
        ensures
            r == self.spec_jitter(),
    {
        self.jitter
    }

    /// Whether the backoff before retry number `attempt` can be computed
    /// without overflow; where it cannot, computing it panics.
    pub fn can_compute_delay(&self, attempt: usize) -> (r: bool)
        ensures
            r == self.backoff_fits(attempt as int),
    {
        if attempt < 1 || attempt > 128 {
            return false;
        }
        let base = duration_as_millis(&self.base_delay);
        let mut p: u128 = 1;
        let mut k: usize = 1;
        while k < attempt
            invariant
                1 <= k <= attempt <= 128,
                p == two_pow((k - 1) as nat),
            decreases attempt - k,
        {
            proof {
                lemma_two_pow_shift(k as nat);
            }
            p = p * 2;
            k += 1;
        }
        proof {
            lemma_two_pow_pos((attempt - 1) as nat);
            let m = u128::MAX as int;
            assert((base <= m / (p as int)) == (base * p <= m)) by (nonlinear_arith)
                requires
                    p >= 1,
                    m >= 0,
                    base >= 0,
            ;
        }
        base <= u128::MAX / p
    }

    /// The backoff before retry number `attempt`, in milliseconds:
    /// `base_delay * 2^(attempt - 1)`, capped at `max_delay`.
    pub fn backoff(&self, attempt: usize) -> (r: u128)
        requires
            self.backoff_fits(attempt as int),
        ensures
            r == self.spec_backoff(attempt as int),
    {
        let base = duration_as_millis(&self.base_delay);
        let max = duration_as_millis(&self.max_delay);
        let mut p: u128 = 1;
        let mut k: usize = 1;
        while k < attempt
            invariant
                1 <= k <= attempt <= 128,
                p == two_pow((k - 1) as nat),
            decreases attempt - k,
        {
            proof {
                lemma_two_pow_shift(k as nat);
            }
            p = p * 2;
            k += 1;
        }
        let exp = base * p;
        if exp <= max {
            exp
        } else {
            max
        }
    }

    /// The delay before retry number `attempt`: the backoff, exact or to be jittered.
    pub fn calculate_delay(&self, attempt: usize) -> (r: RetryDelay)
        requires
            self.backoff_fits(attempt as int),
        ensures
            r == self.spec_delay(attempt as int),
    {
        let capped = self.backoff(attempt);
        if self.jitter {
            RetryDelay::Jittered(capped)
        } else {
            RetryDelay::Exact(capped as u64)
        }
    }

    /// What to do after attempt number `attempt` failed with `err`: give up
    /// with `err` when a retry cannot cure it, give up with
    /// `RetryLimitReached` once `attempt` exceeds the retry limit, else wait
    /// the delay and try again.
    pub fn after_failure(&self, attempt: usize, err: ZinitError) -> (r: Result<
        RetryDelay,
        ZinitError,
    >)
        requires
            attempt >= 1,
            !is_permanent(err) && attempt <= self.spec_max_retries() ==> self.backoff_fits(
                attempt as int,
            ),
        ensures
            is_permanent(err) ==> r == Err::<RetryDelay, ZinitError>(err),
            !is_permanent(err) && attempt > self.spec_max_retries() ==> (r matches Err(
                ZinitError::RetryLimitReached(n),
            ) && n == self.spec_max_retries()),
            !is_permanent(err) && attempt <= self.spec_max_retries() ==> r == Ok::<
                RetryDelay,
                ZinitError,
            >(self.spec_delay(attempt as int)),
            (err is ConnectionError || err is TimeoutError) && attempt <= self.spec_max_retries()
                ==> r == Ok::<RetryDelay, ZinitError>(self.spec_delay(attempt as int)),
    {
        proof {
            crate::error::lemma_permanent_errors(err);
        }
        if err.is_permanent() {
            return Err(err);
        }
        if attempt > self.max_retries {
            return Err(ZinitError::RetryLimitReached(self.max_retries));
        }
        Ok(self.calculate_delay(attempt))
    }
}

impl Default for RetryStrategy {
    /// Three retries, from 100 ms up to 5 s, with jitter.
    fn default() -> (r: Self)
        ensures
            r.spec_max_retries() == 3,
            r.spec_base_delay() == millis_duration(100),
            r.spec_max_delay() == secs_duration(5),
            duration_millis(r.spec_base_delay()) == 100,
            duration_millis(r.spec_max_delay()) == 5000,
            r.spec_jitter(),
    {
        RetryStrategy {
            max_retries: 3,
            base_delay: duration_from_millis(100),
            max_delay: duration_from_secs(5),
            jitter: true,
        }
    }
}

pub proof fn lemma_two_pow_pos(e: nat)
    ensures
        two_pow(e) >= 1,
    decreases e,
{
    if e > 0 {
        lemma_two_pow_pos((e - 1) as nat);
    }
}

/// Powers of two grow with the exponent.
pub proof fn lemma_two_pow_monotone(e: nat, f: nat)
    requires
        e <= f,
    ensures
        two_pow(e) <= two_pow(f),
    decreases f,
{
    if e < f {
        lemma_two_pow_monotone(e, (f - 1) as nat);
        lemma_two_pow_pos((f - 1) as nat);
    }
}

/// Below 128, `2^e` is the `u128` with bit `e` set.
pub proof fn lemma_two_pow_shift(e: nat)
    requires
        e < 128,
    ensures
        two_pow(e) == (1u128 << (e as u128)),
    decreases e,
{
    if e == 0 {
        assert((1u128 << 0u128) == 1u128) by (bit_vector);
    } else {
        lemma_two_pow_shift((e - 1) as nat);
        let x = (e - 1) as u128;
        assert((1u128 << (x + 1)) == 2 * (1u128 << x)) by (bit_vector)
            requires
                x < 127,
        ;
    }
}

/// The first retry waits the base delay (when it is within the maximum), and
/// each further retry waits twice as long as the one before, until the
/// doubled wait would pass the maximum, from where on it waits the maximum.
pub proof fn lemma_backoff_doubles(base: int, max: int, a: int)
    requires
        0 <= base,
        0 <= max,
        1 <= a,
    ensures
        base <= max ==> backoff_ms(base, max, 1) == base,
        backoff_ms(base, max, a + 1) == (if 2 * backoff_ms(base, max, a) <= max {
            2 * backoff_ms(base, max, a)
        } else {
            max
        }),
{
    assert(two_pow(0) == 1);
    assert(((1 - 1) as nat) == 0);
    assert(base * two_pow(0) == base);
    let p = two_pow((a - 1) as nat);
    assert(two_pow(a as nat) == 2 * p);
    lemma_two_pow_pos((a - 1) as nat);
    assert(base * (2 * p) == 2 * (base * p)) by (nonlinear_arith);
    assert(base * p >= 0) by (nonlinear_arith)
        requires
            0 <= base,
            p >= 1,
    ;
}

/// The backoff never exceeds the maximum delay, and never decreases from
/// one attempt to the next.
pub proof fn lemma_backoff_capped_and_monotone(base: int, max: int, a: int, b: int)
    requires
        0 <= base,
        1 <= a <= b,
    ensures
        backoff_ms(base, max, a) <= max,
        backoff_ms(base, max, a) <= backoff_ms(base, max, b),
{
    let pa = two_pow((a - 1) as nat);
    let pb = two_pow((b - 1) as nat);
    lemma_two_pow_monotone((a - 1) as nat, (b - 1) as nat);
    assert(base * pa <= base * pb) by (nonlinear_arith)
        requires
            0 <= base,
            pa <= pb,
    ;
}

} // verus!
