//! Retry policy of the job worker. The worker's polling, claiming and row
//! updates are driven by the application; what happens to a finished job is
//! decided here.
use vstd::prelude::*;

verus! {

pub const MAX_BACKOFF_SECONDS: i64 = 60 * 60;

pub open spec fn pow2(n: nat) -> int
    decreases n,
{
    if n == 0 {
        1
    } else {
        2 * pow2((n - 1) as nat)
    }
}

/// The exponent of the backoff after `attempt` attempts: `attempt - 1`,
/// clamped to `0..=16`.
pub open spec fn backoff_exponent(attempt: i32) -> nat {
    if attempt - 1 < 0 {
        0
    } else if attempt - 1 > 16 {
        16
    } else {
        (attempt - 1) as nat
    }
}

/// Exponential backoff: 30s, 60s, 120s, ... capped at one hour.
pub open spec fn spec_backoff_seconds(attempt: i32) -> int {
    let b = 30 * pow2(backoff_exponent(attempt));
    if b < 3600 {
        b
    } else {
        3600
    }
}

proof fn lemma_pow2_monotone(a: nat, b: nat)
    requires
        a <= b,
    ensures
        1 <= pow2(a) <= pow2(b),
    decreases b,
{
    if b > 0 {
        if a < b {
            lemma_pow2_monotone(a, (b - 1) as nat);
        } else {
            lemma_pow2_monotone((a - 1) as nat, (b - 1) as nat);
        }
    }
}

proof fn lemma_pow2_16(n: nat)
    requires
        n <= 16,
    ensures
        pow2(n) <= 65536,
{
    lemma_pow2_monotone(n, 16);
    reveal_with_fuel(pow2, 17);
    assert(pow2(16) == 65536);
}

/// Exponential backoff: 30s, 60s, 120s, ... capped at one hour.
pub fn backoff_seconds(attempt: i32) -> (r: i64)
    ensures
        r == spec_backoff_seconds(attempt),
{
    let exponent: u32 = if attempt <= 1 {
        0
    } else if attempt - 1 > 16 {
        16
    } else {
        (attempt - 1) as u32
    };
    let mut power: i64 = 1;
    let mut i: u32 = 0;
    proof {
        lemma_pow2_16(exponent as nat);
    }
    while i < exponent
        invariant
            i <= exponent <= 16,
            power == pow2(i as nat),
            pow2(exponent as nat) <= 65536,
        decreases exponent - i,
    {
        proof {
            lemma_pow2_monotone((i + 1) as nat, exponent as nat);
        }
        power = power * 2;
        i += 1;
    }
    assert(i == exponent);
    assert(power <= 65536);
    proof {
        lemma_pow2_monotone(0, i as nat);
    }
    let backoff = 30 * power;
    if backoff < MAX_BACKOFF_SECONDS {
        backoff
    } else {
        MAX_BACKOFF_SECONDS
    }
}

/// Every retry waits between 30 seconds and one hour.
pub proof fn backoff_is_bounded(attempt: i32)
    ensures
        30 <= spec_backoff_seconds(attempt) <= 3600,
{
    lemma_pow2_monotone(0, backoff_exponent(attempt));
}

/// A later attempt never waits less than an earlier one.
pub proof fn backoff_never_shrinks(a: i32, b: i32)
    requires
        a <= b,
    ensures
        spec_backoff_seconds(a) <= spec_backoff_seconds(b),
{
    lemma_pow2_monotone(backoff_exponent(a), backoff_exponent(b));
}

/// The first retry waits 30 seconds and each later one twice as long as the
/// one before, until the wait reaches one hour, where it stays.
pub proof fn backoff_doubles_up_to_an_hour(attempt: i32)
    requires
        attempt < i32::MAX,
    ensures
        attempt <= 1 ==> spec_backoff_seconds(attempt) == 30,
        attempt >= 1 ==> spec_backoff_seconds((attempt + 1) as i32) == (if 2 * spec_backoff_seconds(
            attempt,
        ) < 3600 {
            2 * spec_backoff_seconds(attempt)
        } else {
            3600
        }),
{
    let e = backoff_exponent(attempt);
    if attempt >= 1 {
        if attempt <= 16 {
            assert(backoff_exponent((attempt + 1) as i32) == e + 1);
            assert(pow2(e + 1) == 2 * pow2(e));
            lemma_pow2_monotone(0, e);
        } else {
            lemma_pow2_monotone(7, 16);
            reveal_with_fuel(pow2, 8);
            assert(pow2(7) == 128);
        }
    }
}

/// What happens to a job after one run.
#[derive(Debug, Clone, Copy, PartialEq, Eq, Structural)]
pub enum JobOutcome {
    /// The job succeeded: mark it `SUCCEEDED`.
    Succeeded,
    /// The job failed on its last allowed attempt: mark it `DEAD`.
    Dead,
    /// The job failed: make it `PENDING` again, due after the backoff.
    Retry { backoff_seconds: i64 },
}

/// The outcome of a run that `succeeded` or not, on attempt `attempts` of at
/// most `max_attempts`.
pub fn job_outcome(succeeded: bool, attempts: i32, max_attempts: i32) -> (r: JobOutcome)
    ensures
        succeeded ==> r == JobOutcome::Succeeded,
        !succeeded && attempts >= max_attempts ==> r == JobOutcome::Dead,
        !succeeded && attempts < max_attempts ==> r == (JobOutcome::Retry {
            backoff_seconds: spec_backoff_seconds(attempts) as i64,
        }),
{
    if succeeded {
        JobOutcome::Succeeded
    } else if attempts >= max_attempts {
        JobOutcome::Dead
    } else {
        JobOutcome::Retry { backoff_seconds: backoff_seconds(attempts) }
    }
}

} // verus!
