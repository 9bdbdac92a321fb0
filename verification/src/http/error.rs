//! Failures of a single request and their classification.

use vstd::prelude::*;

verus! {

/// What the transport reported when a request could not complete: whether it
/// was a timeout, whether it was a failure to connect, and its description.
#[derive(Debug)]
pub struct TransportFailure {
    pub timeout: bool,
    pub connect: bool,
    pub detail: String,
}

/// Failure of one HTTP exchange.
#[derive(Debug)]
pub enum ReqwestError {
    /// The request did not produce a response (network error, timeout, ...).
    Client(TransportFailure),
    /// Non-2xx response. `body` is the raw payload; for this API a JSON error
    /// object that callers can decode into an `ApiErrorEnvelope`.
    Status { status: u16, body: String },
    /// The retry budget elapsed; the in-flight request was cancelled.
    Timeout { after: std::time::Duration },
}

/// The name under which the rest of the crate refers to a transport failure.
pub type HttpError = ReqwestError;

/// HTTP statuses worth another attempt: `429`, `500`, `502`, `503`, `504`.
pub open spec fn transient_status(status: u16) -> bool {
    status == 429 || status == 500 || status == 502 || status == 503 || status == 504
}

/// Whether a failure is transient. Decided by the failure alone: network
/// timeouts and connection failures, and the transient statuses. The budget
/// timeout is final.
pub open spec fn retryable(err: ReqwestError) -> bool {
    match err {
        ReqwestError::Client(f) => f.timeout || f.connect,
        ReqwestError::Status { status, .. } => transient_status(status),
        ReqwestError::Timeout { .. } => false,
    }
}

/// A status in the success class `200..=299`.
pub open spec fn success_status(status: u16) -> bool {
    200 <= status <= 299
}

/// Every status from `200` to `299` is a success, `202 Accepted` and
/// `204 No Content` among them, and no status outside that range is: a
/// `1xx`, a redirect, a client error or a server error is a failure.
pub proof fn lemma_success_class(status: u16)
    ensures
        success_status(status) <==> 200 <= status && status <= 299,
        success_status(200) && success_status(202) && success_status(204) && success_status(299),
        !success_status(199) && !success_status(300) && !success_status(404) && !success_status(503),
{
}

impl ReqwestError {
    /// Whether this failure is transient and worth retrying. The request's
    /// method and idempotency key play no part: callers make a mutating retry
    /// safe by supplying a key, which is re-sent on every attempt.
    pub fn is_retryable(&self) -> (r: bool)
        ensures
            r == retryable(*self),
    {
        match self {
            ReqwestError::Client(f) => f.timeout || f.connect,
            ReqwestError::Status { status, .. } => {
                *status == 429 || *status == 500 || *status == 502 || *status == 503
                    || *status == 504
            },
            ReqwestError::Timeout { .. } => false,
        }
    }
}

/// The outcome of one exchange that produced a response: the body on a 2xx
/// status, otherwise a `Status` failure carrying the status and raw body.
pub fn response_outcome(status: u16, body: String) -> (r: Result<String, ReqwestError>)
    ensures
        200 <= status <= 299 ==> r == Ok::<String, ReqwestError>(body),
        (status < 200 || status > 299) ==> r == Err::<String, ReqwestError>(
            (ReqwestError::Status { status, body }),
        ),
        r is Ok <==> success_status(status),
{
    if 200 <= status && status <= 299 {
        Ok(body)
    } else {
        Err(ReqwestError::Status { status, body })
    }
}

} // verus!
