//! Retry policy decisions: how many attempts a request gets, and how long to
//! wait before the next one.

use vstd::prelude::*;
use crate::http::error::{retryable, ReqwestError};
use crate::http::headers::Headers;

verus! {

/// The server's per-key rate limit: 100 requests per minute.
pub const DEFAULT_RATE_LIMIT_PER_MINUTE: u32 = 100;

/// Client-side rate limiting via a token bucket sized to `requests_per_minute`:
/// bursts up to a minute's allowance, then holds that rate.
#[derive(Debug, Clone, Copy)]
pub struct RateLimit {
    pub requests_per_minute: u32,
}

impl Default for RateLimit {
    fn default() -> (r: Self)
        ensures
            r.requests_per_minute == DEFAULT_RATE_LIMIT_PER_MINUTE,
    {
        RateLimit { requests_per_minute: DEFAULT_RATE_LIMIT_PER_MINUTE }
    }
}

/// The number of attempts a policy with `max_attempts` allows: the first
/// attempt is always made, so a limit of `0` still allows one.
pub open spec fn attempts_allowed(max_attempts: nat) -> nat {
    if max_attempts == 0 {
        1
    } else {
        max_attempts
    }
}

/// After attempt number `attempt` failed: the number of the next attempt, or
/// `None` when the failure is final (not transient, or no attempts left).
pub open spec fn next_attempt(attempt: nat, max_attempts: nat, transient: bool) -> Option<nat> {
    if attempt < max_attempts && transient {
        Some(attempt + 1)
    } else {
        None
    }
}

/// The number of the last attempt made when every attempt from `attempt` on
/// fails transiently.
pub open spec fn last_attempt_when_failing(attempt: nat, max_attempts: nat) -> nat
    decreases max_attempts - attempt,
{
    match next_attempt(attempt, max_attempts, true) {
        Some(n) => last_attempt_when_failing(n, max_attempts),
        None => attempt,
    }
}

/// What to do after a failed attempt.
#[derive(Debug, Clone, Copy, PartialEq, Eq, Structural)]
pub enum RetryDecision {
    /// Wait the backoff for failed attempt number `attempt`, then try again.
    Retry { attempt: u32 },
    /// Return the failure to the caller.
    GiveUp,
}

/// What to do once an attempt has settled.
#[derive(Debug)]
pub enum AttemptStep {
    /// The request is over with this outcome.
    Finished(Result<String, ReqwestError>),
    /// Wait the backoff for failed attempt number `attempt`, then try again.
    Retry { attempt: u32 },
}

/// The attempt counter of one request.
#[derive(Debug)]
pub struct RetryLoop {
    attempt: u32,
    max_attempts: u32,
}

impl RetryLoop {
    /// The number of the attempt in flight (1-based).
    pub closed spec fn current_attempt(&self) -> nat {
        self.attempt as nat
    }

    /// The policy's `max_attempts`.
    pub closed spec fn attempt_limit(&self) -> nat {
        self.max_attempts as nat
    }

    /// The counter never passes the number of attempts the policy allows.
    pub open spec fn within_budget(&self) -> bool {
        1 <= self.current_attempt() <= attempts_allowed(self.attempt_limit())
    }

    #[verifier::type_invariant]
    closed spec fn counter_in_budget(&self) -> bool {
        1 <= self.attempt && self.attempt as nat <= attempts_allowed(self.max_attempts as nat)
    }

    /// A counter at the first attempt of a request.
    pub fn new(max_attempts: u32) -> (r: Self)
        ensures
            r.within_budget(),
            r.current_attempt() == 1,
            r.attempt_limit() == max_attempts,
    {
        RetryLoop { attempt: 1, max_attempts }
    }

    /// The number of the attempt in flight.
    pub fn attempt(&self) -> (a: u32)
        ensures
            a == self.current_attempt(),
            self.within_budget(),
    {
        proof {
            use_type_invariant(self);
        }
        self.attempt
    }

    /// Decides after the attempt in flight failed with `err`: retry when the
    /// failure is transient and attempts remain, otherwise give up. A retry
    /// moves the counter to the next attempt.
    pub fn decide(&mut self, err: &ReqwestError) -> (d: RetryDecision)
        ensures
            final(self).within_budget(),
            final(self).attempt_limit() == old(self).attempt_limit(),
            match next_attempt(
                old(self).current_attempt(),
                old(self).attempt_limit(),
                retryable(*err),
            ) {
                Some(n) => d == RetryDecision::Retry { attempt: old(self).current_attempt() as u32 }
                    && final(self).current_attempt() == n,
                None => d == RetryDecision::GiveUp && final(self).current_attempt()
                    == old(self).current_attempt(),
            },
            !retryable(*err) ==> d == RetryDecision::GiveUp && final(self).current_attempt()
                == old(self).current_attempt(),
            retryable(*err) && old(self).current_attempt() < old(self).attempt_limit() ==> d
                == (RetryDecision::Retry { attempt: old(self).current_attempt() as u32 })
                && final(self).current_attempt() == old(self).current_attempt() + 1,
            old(self).current_attempt() >= old(self).attempt_limit() ==> d == RetryDecision::GiveUp,
    {
        proof {
            use_type_invariant(&*self);
        }
        if self.attempt < self.max_attempts && err.is_retryable() {
            let failed = self.attempt;
            self.attempt = self.attempt + 1;
            RetryDecision::Retry { attempt: failed }
        } else {
            RetryDecision::GiveUp
        }
    }
}

impl RetryLoop {
    /// Settles the attempt in flight: a response is returned at once; a
    /// failure is retried when transient and attempts remain, otherwise
    /// returned.
    pub fn settle(&mut self, outcome: Result<String, ReqwestError>) -> (step: AttemptStep)
        ensures
            final(self).within_budget(),
            final(self).attempt_limit() == old(self).attempt_limit(),
            match outcome {
                Ok(body) => step == AttemptStep::Finished(Ok(body)) && final(self).current_attempt()
                    == old(self).current_attempt(),
                Err(e) => match next_attempt(
                    old(self).current_attempt(),
                    old(self).attempt_limit(),
                    retryable(e),
                ) {
                    Some(n) => step == AttemptStep::Retry {
                        attempt: old(self).current_attempt() as u32,
                    } && final(self).current_attempt() == n,
                    None => step == AttemptStep::Finished(Err(e))
                        && final(self).current_attempt() == old(self).current_attempt(),
                },
            },
            match outcome {
                Err(e) => !retryable(e) ==> step == AttemptStep::Finished(Err(e))
                    && final(self).current_attempt() == old(self).current_attempt(),
                Ok(_) => true,
            },
    {
        proof {
            use_type_invariant(&*self);
        }
        match outcome {
            Ok(body) => AttemptStep::Finished(Ok(body)),
            Err(e) => match self.decide(&e) {
                RetryDecision::Retry { attempt } => AttemptStep::Retry { attempt },
                RetryDecision::GiveUp => AttemptStep::Finished(Err(e)),
            },
        }
    }
}

/// The headers of an optional header set, as a map.
pub open spec fn headers_view(h: Option<Headers>) -> Option<Map<Seq<char>, Seq<char>>> {
    match h {
        Some(m) => Some(m@),
        None => None,
    }
}

/// One request on its way through its attempts: the headers it carries,
/// which are the same on every attempt (an idempotency key among them rides
/// every retry unchanged), and its attempt counter.
#[derive(Debug)]
pub struct Exchange {
    headers: Option<Headers>,
    attempts: RetryLoop,
}

impl Exchange {
    /// The headers every attempt carries.
    pub closed spec fn carried(&self) -> Option<Map<Seq<char>, Seq<char>>> {
        headers_view(self.headers)
    }

    /// The attempt counter.
    pub closed spec fn counter(&self) -> RetryLoop {
        self.attempts
    }

    /// A request carrying `headers`, at its first attempt.
    pub fn new(headers: Option<Headers>, max_attempts: u32) -> (x: Self)
        ensures
            x.carried() == headers_view(headers),
            x.counter().current_attempt() == 1,
            x.counter().attempt_limit() == max_attempts,
            x.counter().within_budget(),
    {
        Exchange { headers, attempts: RetryLoop::new(max_attempts) }
    }

    /// The headers to send with the attempt in flight.
    pub fn headers(&self) -> (h: Option<&Headers>)
        ensures
            match h {
                Some(m) => self.carried() == Some(m@),
                None => self.carried() is None,
            },
    {
        match &self.headers {
            Some(m) => Some(m),
            None => None,
        }
    }

    /// Settles the attempt in flight (see `RetryLoop::settle`); the headers
    /// carried by later attempts stay as they were.
    pub fn settle(&mut self, outcome: Result<String, ReqwestError>) -> (step: AttemptStep)
        ensures
            final(self).carried() == old(self).carried(),
            final(self).counter().within_budget(),
            final(self).counter().attempt_limit() == old(self).counter().attempt_limit(),
            match outcome {
                Ok(body) => step == AttemptStep::Finished(Ok(body))
                    && final(self).counter().current_attempt()
                    == old(self).counter().current_attempt(),
                Err(e) => match next_attempt(
                    old(self).counter().current_attempt(),
                    old(self).counter().attempt_limit(),
                    retryable(e),
                ) {
                    Some(n) => step == AttemptStep::Retry {
                        attempt: old(self).counter().current_attempt() as u32,
                    } && final(self).counter().current_attempt() == n,
                    None => step == AttemptStep::Finished(Err(e))
                        && final(self).counter().current_attempt()
                        == old(self).counter().current_attempt(),
                },
            },
            match outcome {
                Err(e) => !retryable(e) ==> step == AttemptStep::Finished(Err(e))
                    && final(self).counter().current_attempt()
                    == old(self).counter().current_attempt(),
                Ok(_) => true,
            },
    {
        self.attempts.settle(outcome)
    }
}

/// A failure that is not transient ends the request at whatever attempt it
/// comes, and a retry only ever moves to the very next attempt, within the
/// limit, after a transient failure.
pub proof fn lemma_final_failures_end_the_request(attempt: nat, max_attempts: nat, transient: bool)
    ensures
        next_attempt(attempt, max_attempts, false) is None,
        next_attempt(attempt, max_attempts, transient) matches Some(n) ==> transient && n
            == attempt + 1 && n <= max_attempts,
        transient && attempt < max_attempts ==> next_attempt(attempt, max_attempts, transient)
            == Some(attempt + 1),
{
}

/// Of the HTTP statuses, exactly `429`, `500`, `502`, `503` and `504` are
/// worth another attempt: every other client error (`4xx`), `501`, `505` and
/// up, and any non-error status end the request.
pub proof fn lemma_transient_statuses(status: u16, body: String)
    ensures
        retryable((ReqwestError::Status { status, body })) <==> (status == 429 || status == 500 || (
        502 <= status && status <= 504)),
        400 <= status < 500 && status != 429 ==> !retryable((ReqwestError::Status { status, body })),
        status < 400 ==> !retryable((ReqwestError::Status { status, body })),
{
}

/// When every attempt fails transiently, a request uses exactly the number of
/// attempts its policy allows.
pub proof fn lemma_transient_failures_use_every_attempt(max_attempts: nat)
    ensures
        last_attempt_when_failing(1, max_attempts) == attempts_allowed(max_attempts),
{
    lemma_last_attempt(1, max_attempts);
}

proof fn lemma_last_attempt(attempt: nat, max_attempts: nat)
    requires
        1 <= attempt,
        attempt <= attempts_allowed(max_attempts),
    ensures
        last_attempt_when_failing(attempt, max_attempts) == attempts_allowed(max_attempts),
    decreases max_attempts - attempt,
{
    if attempt < max_attempts {
        lemma_last_attempt(attempt + 1, max_attempts);
    }
}

/// The wait before the next attempt, and where it came from.
#[derive(Debug, Clone, Copy, PartialEq, Eq, Structural)]
pub enum RetryDelay {
    /// The computed exponential backoff, in milliseconds.
    Backoff { millis: u64 },
    /// The server's `Retry-After`, in seconds.
    RetryAfter { secs: u64 },
}

impl RetryDelay {
    /// The wait in milliseconds.
    pub open spec fn millis(self) -> int {
        match self {
            RetryDelay::Backoff { millis } => millis as int,
            RetryDelay::RetryAfter { secs } => secs * 1000,
        }
    }
}

/// The computed backoff clamped to the policy's `max_backoff`.
pub fn capped_backoff_ms(exponential_ms: u64, max_backoff_ms: u64) -> (r: u64)
    ensures
        r <= max_backoff_ms,
        r <= exponential_ms,
        r == exponential_ms || r == max_backoff_ms,
{
    if exponential_ms < max_backoff_ms {
        exponential_ms
    } else {
        max_backoff_ms
    }
}

/// The wait before the next attempt: the (jittered) backoff, unless the
/// server sent a `Retry-After` that is honoured and at least as long, in
/// which case that wins.
pub fn retry_delay(backoff_ms: u64, respect_retry_after: bool, retry_after: Option<u64>) -> (d:
    RetryDelay)
    ensures
        match retry_after {
            Some(secs) if respect_retry_after && secs * 1000 >= backoff_ms => d
                == RetryDelay::RetryAfter { secs },
            _ => d == RetryDelay::Backoff { millis: backoff_ms },
        },
        d.millis() >= backoff_ms,
        respect_retry_after && retry_after is Some ==> d.millis() >= retry_after->0 * 1000,
        !respect_retry_after ==> d.millis() == backoff_ms,
{
    match retry_after {
        Some(secs) if respect_retry_after && secs as u128 * 1000 >= backoff_ms as u128 => {
            RetryDelay::RetryAfter { secs }
        },
        _ => RetryDelay::Backoff { millis: backoff_ms },
    }
}

} // verus!
