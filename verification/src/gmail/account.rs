//! The retry policy of the exchanges with Gmail: an answer 401 asks for a
//! new access token, transient errors are retried a few times with a
//! doubling pause, anything else fails.
use vstd::prelude::*;

verus! {

/// What to do after an exchange with Gmail failed.
#[derive(Debug, Clone, Copy, PartialEq, Eq)]
pub enum RetryDecision {
    /// Gmail refused the access token: report it, do not retry.
    Unauthorized,
    /// Reconnect and try again after this many milliseconds.
    Retry { wait_ms: u64 },
    /// Report the error.
    GiveUp,
}

/// The retries made so far for one exchange.
#[derive(Debug, Clone, Copy, PartialEq, Eq)]
pub struct RetryState {
    /// The number of retries already made.
    pub attempt: u32,
    /// The pause before the next retry, in milliseconds.
    pub backoff_ms: u64,
}

/// The most retries of one exchange.
pub const MAX_RETRIES: u32 = 4;

/// The pause before the first retry, in milliseconds.
pub const FIRST_BACKOFF_MS: u64 = 250;

/// Twice the pause, saturating.
pub open spec fn doubled(b: u64) -> u64 {
    if 2 * b > u64::MAX {
        u64::MAX
    } else {
        (2 * b) as u64
    }
}

/// The decision after a failure with the HTTP status `status` (if Gmail
/// answered) that is or is not `retryable`, and the state after it.
pub open spec fn retry_step(s: RetryState, status: Option<u16>, retryable: bool) -> (
    RetryDecision,
    RetryState,
) {
    if status == Some(401u16) {
        (RetryDecision::Unauthorized, s)
    } else if retryable && s.attempt < MAX_RETRIES {
        (
            RetryDecision::Retry { wait_ms: s.backoff_ms },
            RetryState { attempt: (s.attempt + 1) as u32, backoff_ms: doubled(s.backoff_ms) },
        )
    } else {
        (RetryDecision::GiveUp, s)
    }
}

/// The state after `n` retried failures from the start.
pub open spec fn after_retries(n: nat) -> RetryState
    decreases n,
{
    if n == 0 {
        RetryState { attempt: 0, backoff_ms: FIRST_BACKOFF_MS }
    } else {
        retry_step(after_retries((n - 1) as nat), Some(503u16), true).1
    }
}

/// The pause before retry `n` (counted from 0): 250 ms doubled `n` times.
pub open spec fn backoff_before(n: nat) -> int
    decreases n,
{
    if n == 0 {
        250
    } else {
        2 * backoff_before((n - 1) as nat)
    }
}

impl RetryState {
    /// No retry made yet; the first pause is 250 ms.
    pub fn new() -> (r: Self)
        ensures
            r == after_retries(0),
    {
        RetryState { attempt: 0, backoff_ms: FIRST_BACKOFF_MS }
    }

    /// Decides what to do after a failed exchange (see `retry_step`) and
    /// records the retry.
    pub fn on_failure(&mut self, status: Option<u16>, retryable: bool) -> (d: RetryDecision)
        ensures
            (d, *final(self)) == retry_step(*old(self), status, retryable),
    {
        if status == Some(401u16) {
            return RetryDecision::Unauthorized;
        }
        if retryable && self.attempt < MAX_RETRIES {
            let wait_ms = self.backoff_ms;
            self.attempt = self.attempt + 1;
            self.backoff_ms = if self.backoff_ms > u64::MAX / 2 {
                u64::MAX
            } else {
                2 * self.backoff_ms
            };
            return RetryDecision::Retry { wait_ms };
        }
        RetryDecision::GiveUp
    }
}

/// A run of retryable failures is retried four times, after pauses of
/// 250, 500, 1000 and 2000 ms; the fifth failure is reported.
pub proof fn lemma_retry_schedule(n: nat)
    requires
        n <= 4,
    ensures
        after_retries(n).attempt == n,
        after_retries(n).backoff_ms == backoff_before(n),
        n < 4 ==> retry_step(after_retries(n), Some(503u16), true).0 == (RetryDecision::Retry {
            wait_ms: backoff_before(n) as u64,
        }),
        n == 4 ==> retry_step(after_retries(n), Some(503u16), true).0 is GiveUp,
    decreases n,
{
    if n > 0 {
        lemma_retry_schedule((n - 1) as nat);
    }
    assert(backoff_before(4) == 4000) by {
        reveal_with_fuel(backoff_before, 5);
    }
    assert(backoff_before(n) <= 4000) by {
        reveal_with_fuel(backoff_before, 5);
    }
}

/// However many failures come, a state reached by retrying never holds
/// more than four retries, and an answer 401 is never retried.
pub proof fn lemma_retries_bounded(s: RetryState, status: Option<u16>, retryable: bool)
    requires
        s.attempt <= MAX_RETRIES,
    ensures
        retry_step(s, status, retryable).1.attempt <= MAX_RETRIES,
        status == Some(401u16) ==> retry_step(s, status, retryable).0 is Unauthorized,
        retry_step(s, status, retryable).0 is Retry ==> retry_step(s, status, retryable).1.attempt
            == s.attempt + 1,
{
}

} // verus!
