//! The retry policy: a failure is transient exactly when a 5xx status came
//! back, or no status at all and the transport timed out. A transient
//! failure is retried with exponentially growing delay, up to five attempts
//! in all; any other failure propagates at once.

use vstd::prelude::*;

verus! {

/// The most attempts one call ever makes: the first, plus up to four
/// retries.
pub const MAX_ATTEMPTS: u32 = 5;

/// The model of one transport failure: the HTTP status if a response came
/// back, and whether the failure was a timeout.
#[derive(Debug, Clone, Copy, PartialEq, Eq, Structural)]
pub struct TransportError {
    /// The HTTP status carried by the failure, if any.
    pub status: Option<u16>,
    /// Whether the failure was a timeout.
    pub timeout: bool,
}

/// A failure is transient exactly when its status class is 5xx, or no
/// status is present and the failure is a timeout.
pub open spec fn retryable_spec(e: TransportError) -> bool {
    match e.status {
        Some(s) => 500 <= s < 600,
        None => e.timeout,
    }
}

/// Decide whether a failure is transient: 5xx when a status is present,
/// a timeout otherwise. A 4xx, a malformed request, or a failure that is
/// neither is terminal.
pub fn is_retryable(e: &TransportError) -> (r: bool)
    ensures
        r == retryable_spec(*e),
{
    match e.status {
        Some(s) => 500 <= s && s < 600,
        None => e.timeout,
    }
}

/// Two to the given power.
pub open spec fn pow2_spec(n: nat) -> nat
    decreases n,
{
    if n == 0 {
        1
    } else {
        2 * pow2_spec((n - 1) as nat)
    }
}

/// Doubling never shrinks: the power function grows with its argument.
pub proof fn lemma_pow2_mono(a: nat, b: nat)
    requires
        a <= b,
    ensures
        pow2_spec(a) <= pow2_spec(b),
        1 <= pow2_spec(a),
    decreases b,
{
    if b > 0 {
        if a == b {
            lemma_pow2_mono((a - 1) as nat, (b - 1) as nat);
        } else {
            lemma_pow2_mono(a, (b - 1) as nat);
        }
    }
}

/// The exponent is clamped so that the delay always fits.
pub open spec fn backoff_exponent(attempt: u32) -> nat {
    if attempt > 20 {
        20
    } else {
        attempt as nat
    }
}

/// The delay before the retry that follows failed attempt number
/// `attempt + 1`: one second doubled per failed attempt, clamped.
pub open spec fn backoff_ms_spec(attempt: u32) -> nat {
    1000 * pow2_spec(backoff_exponent(attempt))
}

/// The clamped power stays small enough for the delay to fit in 64 bits.
proof fn lemma_pow2_20()
    ensures
        pow2_spec(20) == 1048576,
{
    reveal_with_fuel(pow2_spec, 21);
}

/// Compute the backoff delay, in milliseconds, before the retry that
/// follows failed attempt number `attempt + 1`.
pub fn backoff_delay_ms(attempt: u32) -> (r: u64)
    ensures
        r == backoff_ms_spec(attempt),
{
    let e: u32 = if attempt > 20 {
        20
    } else {
        attempt
    };
    let mut d: u64 = 1000;
    let mut i: u32 = 0;
    while i < e
        invariant
            0 <= i <= e <= 20,
            d == 1000 * pow2_spec(i as nat),
        decreases e - i,
    {
        proof {
            lemma_pow2_mono(i as nat, 19);
            lemma_pow2_20();
        }
        d = d * 2;
        i += 1;
    }
    d
}

/// Delays never shrink between attempts: a later retry waits at least as
/// long as an earlier one.
pub proof fn lemma_backoff_monotone(a: u32, b: u32)
    requires
        a <= b,
    ensures
        backoff_ms_spec(a) <= backoff_ms_spec(b),
{
    lemma_pow2_mono(backoff_exponent(a), backoff_exponent(b));
}

/// What the policy does after a failed attempt.
#[derive(Debug, Clone, Copy, PartialEq, Eq, Structural)]
pub enum RetryDecision {
    /// Try again after this many milliseconds.
    Retry { delay_ms: u64 },
    /// Stop and propagate the failure.
    GiveUp,
}

/// Decide what follows failed attempt number `attempts_made`: retry with
/// the backoff delay exactly when the failure is transient and the attempt
/// ceiling is not reached, give up otherwise.
pub fn retry_decision(attempts_made: u32, e: &TransportError) -> (r: RetryDecision)
    requires
        attempts_made >= 1,
    ensures
        (retryable_spec(*e) && attempts_made < MAX_ATTEMPTS) ==> r == (RetryDecision::Retry {
            delay_ms: (backoff_ms_spec((attempts_made - 1) as u32) as u64),
        }),
        !(retryable_spec(*e) && attempts_made < MAX_ATTEMPTS) ==> r == RetryDecision::GiveUp,
{
    if attempts_made < MAX_ATTEMPTS && is_retryable(e) {
        let d = backoff_delay_ms(attempts_made - 1);
        RetryDecision::Retry { delay_ms: d }
    } else {
        RetryDecision::GiveUp
    }
}

/// What one attempt came back with: a response, or a transport failure.
#[derive(Debug, Clone, Copy, PartialEq, Eq, Structural)]
pub enum AttemptOutcome {
    /// The attempt produced a response.
    Success,
    /// The attempt failed this way.
    Failure(TransportError),
}

/// How many attempts a retry sequence makes when the attempts come back as
/// given: it stops at the first response or terminal failure, and never
/// exceeds its budget.
pub open spec fn attempts_used(outcomes: Seq<AttemptOutcome>, budget: nat) -> nat
    decreases budget,
{
    if budget <= 1 || outcomes.len() == 0 {
        1
    } else {
        match outcomes[0] {
            AttemptOutcome::Success => 1,
            AttemptOutcome::Failure(e) => if retryable_spec(e) {
                (1 + attempts_used(outcomes.drop_first(), (budget - 1) as nat)) as nat
            } else {
                1
            },
        }
    }
}

/// Walk the retry sequence over the outcomes the transport would return,
/// one per attempt, starting at `from` with `budget` attempts left.
fn retry_loop(outcomes: &Vec<AttemptOutcome>, from: usize, budget: u32) -> (r: (
    usize,
    AttemptOutcome,
))
    requires
        1 <= budget,
        from + budget <= outcomes@.len(),
    ensures
        r.0 == attempts_used(outcomes@.skip(from as int), budget as nat),
        1 <= r.0 <= budget,
        r.1 == outcomes@[from + r.0 - 1],
    decreases budget,
{
    let n = outcomes.len();
    let o = outcomes[from];
    proof {
        assert(outcomes@.skip(from as int)[0] == outcomes@[from as int]);
        assert(from + 1 <= n);
    }
    match o {
        AttemptOutcome::Success => (1, o),
        AttemptOutcome::Failure(e) => {
            if budget == 1 || !is_retryable(&e) {
                (1, o)
            } else {
                let (n, last) = retry_loop(outcomes, from + 1, budget - 1);
                proof {
                    assert(outcomes@.skip(from as int).drop_first() =~= outcomes@.skip(
                        from as int + 1,
                    ));
                }
                (n + 1, last)
            }
        },
    }
}

/// Run a whole retry sequence over the outcomes the transport would
/// return, one per attempt: the pair of how many attempts were made and
/// what the last attempt came back with — the response that ended the
/// sequence, or the error that is propagated verbatim.
pub fn run_retries(outcomes: &Vec<AttemptOutcome>) -> (r: (usize, AttemptOutcome))
    requires
        outcomes@.len() >= MAX_ATTEMPTS,
    ensures
        r.0 == attempts_used(outcomes@, MAX_ATTEMPTS as nat),
        1 <= r.0 <= MAX_ATTEMPTS,
        r.1 == outcomes@[r.0 - 1],
{
    let r = retry_loop(outcomes, 0, MAX_ATTEMPTS);
    proof {
        assert(outcomes@.skip(0) =~= outcomes@);
    }
    r
}

/// Exactly one attempt is made when the first response is a client error
/// or a non-timeout transport failure: nothing terminal is retried.
pub proof fn lemma_terminal_failure_single_attempt(outcomes: Seq<AttemptOutcome>, budget: nat)
    requires
        outcomes.len() >= 1,
        outcomes[0] matches AttemptOutcome::Failure(e) && !retryable_spec(e),
    ensures
        attempts_used(outcomes, budget) == 1,
{
}

/// Exactly one attempt is made when the first attempt succeeds.
pub proof fn lemma_success_single_attempt(outcomes: Seq<AttemptOutcome>, budget: nat)
    requires
        outcomes.len() >= 1,
        outcomes[0] is Success,
    ensures
        attempts_used(outcomes, budget) == 1,
{
}

/// When every attempt keeps failing with a server error, exactly the
/// whole budget of attempts is spent before the last error is returned.
pub proof fn lemma_server_errors_exhaust_attempts(outcomes: Seq<AttemptOutcome>, budget: nat)
    requires
        budget >= 1,
        outcomes.len() >= budget,
        forall|i: int|
            0 <= i < budget ==> ((#[trigger] outcomes[i]) matches AttemptOutcome::Failure(e)
                && retryable_spec(e)),
    ensures
        attempts_used(outcomes, budget) == budget,
    decreases budget,
{
    if budget > 1 {
        assert(outcomes[0] matches AttemptOutcome::Failure(e) && retryable_spec(e));
        assert(forall|i: int|
            0 <= i < budget - 1 ==> outcomes.drop_first()[i] == outcomes[i + 1]);
        lemma_server_errors_exhaust_attempts(outcomes.drop_first(), (budget - 1) as nat);
    }
}

} // verus!
