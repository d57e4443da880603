//! The retry orchestrator's core: classification of transient failures,
//! the linear backoff schedule, the retry loop itself run against a
//! sequence of attempt outcomes, and the jittered exponential backoff used
//! by per-tool retries.
//!
//! The surrounding host drives the asynchronous loop — it invokes the
//! pipeline on a worker and sleeps between attempts — but every decision
//! it takes comes from here.

use vstd::prelude::*;
use crate::error::ExecError;
use crate::json::Json;
use crate::text::{spec_starts_with, str_starts_with};

verus! {

/// An error is transient exactly when it is a runner timeout or a
/// tool-reported error whose code starts with `transient.`.
pub open spec fn spec_is_transient(e: ExecError) -> bool {
    ||| e matches ExecError::Runner { source, .. } && source is Timeout
    ||| e matches ExecError::Tool { code, .. } && spec_starts_with(code@, "transient."@)
}

pub fn is_transient_error(err: &ExecError) -> (r: bool)
    ensures
        r == spec_is_transient(*err),
{
    match err {
        ExecError::Runner { source, .. } => matches!(source, crate::error::RunnerError::Timeout { .. }),
        ExecError::Tool { code, .. } => str_starts_with(code.as_str(), "transient."),
        _ => false,
    }
}

/// At least one attempt is always made.
pub open spec fn spec_effective_attempts(max_attempts: u32) -> u32 {
    if max_attempts < 1 {
        1u32
    } else {
        max_attempts
    }
}

/// The linear schedule: after attempt `n` the orchestrator sleeps
/// `base * n` milliseconds, saturating on overflow.
pub open spec fn spec_linear_backoff(base_ms: u64, attempt: int) -> int {
    if base_ms as int * attempt > u64::MAX as int {
        u64::MAX as int
    } else {
        base_ms as int * attempt
    }
}

pub fn linear_backoff(base_ms: u64, attempt: u32) -> (r: u64)
    ensures
        r as int == spec_linear_backoff(base_ms, attempt as int),
{
    match base_ms.checked_mul(attempt as u64) {
        Some(v) => v,
        None => u64::MAX,
    }
}

/// What the orchestrator does after a failed attempt.
pub enum RetryDecision {
    /// Return the error to the caller.
    GiveUp,
    /// Sleep this many milliseconds and try again.
    RetryAfterMs(u64),
}

/// A failure is retried exactly when it is transient and attempts remain;
/// the sleep before the next attempt follows the linear schedule.
pub fn retry_decision(err: &ExecError, attempt: u32, max_attempts: u32, base_backoff_ms: u64) -> (d:
    RetryDecision)
    requires
        attempt >= 1,
    ensures
        (d is GiveUp) == (attempt >= spec_effective_attempts(max_attempts) || !spec_is_transient(
            *err,
        )),
        d matches RetryDecision::RetryAfterMs(ms) ==> ms as int == spec_linear_backoff(
            base_backoff_ms,
            attempt as int,
        ),
{
    let eff: u32 = if max_attempts < 1 {
        1
    } else {
        max_attempts
    };
    if attempt >= eff || !is_transient_error(err) {
        RetryDecision::GiveUp
    } else {
        RetryDecision::RetryAfterMs(linear_backoff(base_backoff_ms, attempt))
    }
}

/// The whole run the orchestrator makes against a sequence of attempt
/// outcomes: the outcome it returns, how many attempts it used, and the
/// backoff it accumulated.
#[verifier::ext_equal]
pub struct SpecRetryRun {
    pub result: Result<Json, ExecError>,
    pub attempts: int,
    pub total_backoff_ms: int,
}

/// The retry loop from attempt `attempt` on: the first success, fatal
/// failure or exhausted attempt ends the run; transient failures with
/// attempts remaining add the linear backoff and continue.
pub open spec fn spec_retry_from(
    outcomes: Seq<Result<Json, ExecError>>,
    eff: int,
    base_ms: u64,
    attempt: int,
) -> SpecRetryRun
    recommends
        1 <= attempt <= eff <= outcomes.len(),
    decreases eff - attempt,
{
    let o = outcomes[attempt - 1];
    match o {
        Ok(_) => SpecRetryRun { result: o, attempts: attempt, total_backoff_ms: 0 },
        Err(e) => {
            if attempt >= eff || !spec_is_transient(e) {
                SpecRetryRun { result: o, attempts: attempt, total_backoff_ms: 0 }
            } else {
                let rest = spec_retry_from(outcomes, eff, base_ms, attempt + 1);
                SpecRetryRun {
                    result: rest.result,
                    attempts: rest.attempts,
                    total_backoff_ms: spec_linear_backoff(base_ms, attempt) + rest.total_backoff_ms,
                }
            }
        },
    }
}

/// The retry loop, run to completion against pre-recorded attempt
/// outcomes: outcome `k` stands for what the pipeline would return on
/// attempt `k+1`.  Returns the final outcome, the number of attempts made,
/// and the total backoff slept, saturated to `u64`.
pub fn exec_with_retries_script(
    outcomes: Vec<Result<Json, ExecError>>,
    max_attempts: u32,
    base_backoff_ms: u64,
) -> (r: (Result<Json, ExecError>, u32, u64))
    requires
        outcomes@.len() >= spec_effective_attempts(max_attempts),
    ensures
        ({
            let run = spec_retry_from(
                outcomes@,
                spec_effective_attempts(max_attempts) as int,
                base_backoff_ms,
                1,
            );
            &&& r.0 == run.result
            &&& r.1 as int == run.attempts
            &&& r.2 as int == (if run.total_backoff_ms > u64::MAX as int {
                u64::MAX as int
            } else {
                run.total_backoff_ms
            })
        }),
{
    let eff: u32 = if max_attempts < 1 {
        1
    } else {
        max_attempts
    };
    let mut outcomes = outcomes;
    let mut attempt: u32 = 1;
    let mut total_backoff: u64 = 0;
    let ghost full = spec_retry_from(outcomes@, eff as int, base_backoff_ms, 1);
    let ghost mut sum: int = 0;
    loop
        invariant
            1 <= attempt <= eff,
            eff == spec_effective_attempts(max_attempts),
            outcomes@.len() >= eff,
            full == spec_retry_from(outcomes@, eff as int, base_backoff_ms, 1),
            ({
                let cont = spec_retry_from(outcomes@, eff as int, base_backoff_ms, attempt as int);
                &&& full.result == cont.result
                &&& full.attempts == cont.attempts
                &&& full.total_backoff_ms == sum + cont.total_backoff_ms
            }),
            sum >= 0,
            total_backoff as int == (if sum > u64::MAX as int {
                u64::MAX as int
            } else {
                sum
            }),
        ensures
            1 <= attempt <= eff,
            ({
                let cont = spec_retry_from(outcomes@, eff as int, base_backoff_ms, attempt as int);
                &&& cont.result == outcomes@[attempt - 1]
                &&& cont.attempts == attempt as int
                &&& cont.total_backoff_ms == 0
                &&& full.result == cont.result
                &&& full.attempts == cont.attempts
                &&& full.total_backoff_ms == sum
            }),
            total_backoff as int == (if sum > u64::MAX as int {
                u64::MAX as int
            } else {
                sum
            }),
        decreases eff - attempt,
    {
        let idx: usize = (attempt - 1) as usize;
        let finish = match &outcomes[idx] {
            Ok(_) => true,
            Err(e) => attempt >= eff || !is_transient_error(e),
        };
        if finish {
            break;
        }
        let b = linear_backoff(base_backoff_ms, attempt);
        proof {
            sum = sum + b as int;
        }
        total_backoff = total_backoff.saturating_add(b);
        attempt = attempt + 1;
    }
    let idx: usize = (attempt - 1) as usize;
    let result = outcomes.remove(idx);
    (result, attempt, total_backoff)
}

/// Retry law: against a pipeline that fails transiently on its first
/// `k - 1` calls and succeeds on the `k`-th, the orchestrator succeeds
/// exactly when the policy allows at least `k` attempts.
pub proof fn lemma_retry_success_iff(
    outcomes: Seq<Result<Json, ExecError>>,
    max_attempts: u32,
    base_backoff_ms: u64,
    k: int,
)
    requires
        1 <= k <= outcomes.len(),
        1 <= spec_effective_attempts(max_attempts) <= outcomes.len(),
        forall|i: int|
            0 <= i < k - 1 ==> ((#[trigger] outcomes[i]) matches Err(e) && spec_is_transient(e)),
        outcomes[k - 1] is Ok,
    ensures
        spec_retry_from(
            outcomes,
            spec_effective_attempts(max_attempts) as int,
            base_backoff_ms,
            1,
        ).result is Ok <==> spec_effective_attempts(max_attempts) >= k,
{
    lemma_retry_from_success(
        outcomes,
        spec_effective_attempts(max_attempts) as int,
        base_backoff_ms,
        1,
        k,
    );
}

proof fn lemma_retry_from_success(
    outcomes: Seq<Result<Json, ExecError>>,
    eff: int,
    base_ms: u64,
    attempt: int,
    k: int,
)
    requires
        1 <= attempt <= k <= outcomes.len(),
        attempt <= eff <= outcomes.len(),
        forall|i: int|
            0 <= i < k - 1 ==> ((#[trigger] outcomes[i]) matches Err(e) && spec_is_transient(e)),
        outcomes[k - 1] is Ok,
    ensures
        spec_retry_from(outcomes, eff, base_ms, attempt).result is Ok <==> eff >= k,
    decreases k - attempt,
{
    if attempt < k {
        assert(outcomes[attempt - 1] matches Err(e) && spec_is_transient(e));
        if attempt < eff {
            lemma_retry_from_success(outcomes, eff, base_ms, attempt + 1, k);
        }
    }
}

/// Immediate-failure law: with a single allowed attempt, any failure is
/// returned at once — one attempt, no backoff, the first outcome verbatim.
pub proof fn lemma_single_attempt_immediate(
    outcomes: Seq<Result<Json, ExecError>>,
    base_backoff_ms: u64,
)
    requires
        outcomes.len() >= 1,
        outcomes[0] is Err,
    ensures
        ({
            let run = spec_retry_from(
                outcomes,
                spec_effective_attempts(1) as int,
                base_backoff_ms,
                1,
            );
            &&& run.result == outcomes[0]
            &&& run.attempts == 1
            &&& run.total_backoff_ms == 0
        }),
{
}

/// Powers of two, for the exponential schedule.
pub open spec fn spec_pow2(n: int) -> int
    decreases n,
{
    if n <= 0 {
        1
    } else {
        2 * spec_pow2(n - 1)
    }
}

proof fn lemma_pow2_pos(n: int)
    ensures
        spec_pow2(n) >= 1,
    decreases n,
{
    if n > 0 {
        lemma_pow2_pos(n - 1);
    }
}

proof fn lemma_pow2_mono(a: int, b: int)
    requires
        a <= b,
    ensures
        spec_pow2(a) <= spec_pow2(b),
    decreases b - a,
{
    if a < b {
        lemma_pow2_mono(a, b - 1);
        lemma_pow2_pos(b - 1);
    }
}

fn pow2_16(shift: u32) -> (r: u64)
    requires
        shift <= 16,
    ensures
        r as int == spec_pow2(shift as int),
        r <= 65536,
{
    let mut acc: u64 = 1;
    let mut i: u32 = 0;
    while i < shift
        invariant
            i <= shift <= 16,
            acc as int == spec_pow2(i as int),
            acc <= 65536,
        decreases shift - i,
    {
        proof {
            lemma_pow2_mono(i as int, 15);
            reveal_with_fuel(spec_pow2, 17);
            assert(spec_pow2(15) == 32768);
        }
        acc = acc * 2;
        i = i + 1;
    }
    proof {
        lemma_pow2_mono(shift as int, 16);
        reveal_with_fuel(spec_pow2, 17);
        assert(spec_pow2(16) == 65536);
    }
    acc
}

/// The jittered exponential backoff used by per-tool retries:
/// `base * 2^min(attempt, 16)`, saturated to `u64`, scaled by the jitter
/// factor (given in thousandths, drawn from [0.5, 1.5]), rounded, and
/// clamped to [1 ms, u64::MAX ms].
pub open spec fn spec_backoff_ms(base_ms: u64, attempt: u32, jitter_permille: u64) -> int {
    let base: int = if base_ms == 0 {
        1
    } else {
        base_ms as int
    };
    let shift: int = if attempt > 16 {
        16
    } else {
        attempt as int
    };
    let scaled = base * spec_pow2(shift);
    let capped: int = if scaled > u64::MAX as int {
        u64::MAX as int
    } else {
        scaled
    };
    let jittered = (capped * jitter_permille as int + 500) / 1000;
    if jittered < 1 {
        1
    } else if jittered > u64::MAX as int {
        u64::MAX as int
    } else {
        jittered
    }
}

/// The backoff for a drawn jitter factor.  Every decision after the draw
/// is verified here against the schedule above.
pub fn backoff_with(base_ms: u64, attempt: u32, jitter_permille: u64) -> (r: u64)
    requires
        500 <= jitter_permille <= 1500,
    ensures
        r as int == spec_backoff_ms(base_ms, attempt, jitter_permille),
        r >= 1,
{
    let base: u64 = if base_ms == 0 {
        1
    } else {
        base_ms
    };
    let shift: u32 = if attempt > 16 {
        16
    } else {
        attempt
    };
    let mult: u64 = pow2_16(shift);
    proof {
        assert(base as int * mult as int <= u64::MAX as int * 65536) by (nonlinear_arith)
            requires
                base <= u64::MAX,
                0 <= mult <= 65536,
                base >= 0,
        ;
    }
    let scaled: u128 = (base as u128) * (mult as u128);
    let capped: u64 = if scaled > u64::MAX as u128 {
        u64::MAX
    } else {
        scaled as u64
    };
    proof {
        assert(capped as int * jitter_permille as int <= u64::MAX as int * 1500) by (
        nonlinear_arith)
            requires
                capped <= u64::MAX,
                0 <= jitter_permille <= 1500,
                capped >= 0,
        ;
    }
    let prod: u128 = (capped as u128) * (jitter_permille as u128);
    let jittered: u128 = (prod + 500) / 1000;
    if jittered < 1 {
        1
    } else if jittered > u64::MAX as u128 {
        u64::MAX
    } else {
        jittered as u64
    }
}

/// Relies on `rand::random_range` (rand): the draw lies in the given
/// range.  Nothing else is assumed of it.
#[verifier::external_body]
fn draw_jitter_permille() -> (r: u64)
    ensures
        500 <= r <= 1500,
{
    rand::random_range(500u64..=1500u64)
}

/// Exponential backoff with jitter: the result follows the schedule of
/// [`spec_backoff_ms`] for some jitter factor in [0.5, 1.5].
pub fn backoff(base_ms: u64, attempt: u32) -> (r: u64)
    ensures
        exists|j: u64|
            500 <= j <= 1500 && r as int == spec_backoff_ms(base_ms, attempt, j),
        r >= 1,
{
    let j = draw_jitter_permille();
    let r = backoff_with(base_ms, attempt, j);
    proof {
        assert(500 <= j <= 1500 && r as int == spec_backoff_ms(base_ms, attempt, j));
    }
    r
}

} // verus!
