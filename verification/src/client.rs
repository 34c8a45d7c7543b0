//! The decisions of the loop that sends a request until it succeeds, fails
//! for good, or runs out of time.

use vstd::prelude::*;
use crate::error::{
    details_from, header_value, headers_view, retry_after_of, GroqApiError, GroqError,
    TOO_MANY_REQUESTS,
};
use crate::types::opt_text;
use crate::json::json_parse;
use crate::rate_limit::{BackoffState, RateLimiter};

verus! {

/// What a failed attempt means for the loop.
#[derive(Debug, Clone)]
pub enum RetryClass {
    /// Sending again will not help: the failure is final.
    Permanent(GroqError),
    /// Sending again may help. `err` is the failure to report if the retries
    /// run out, `retry_after` the wait that the server asked for.
    Transient { err: GroqError, retry_after: Option<u64> },
}

/// What the loop does after a failed attempt.
#[derive(Debug, Clone)]
pub enum RetryDecision {
    /// Wait this many milliseconds, then send again.
    Retry { wait: u64 },
    /// Stop, with this failure.
    Fail(GroqError),
}

/// The class of a failure. A response that asks to slow down is transient
/// and stands for a rate limit, with the wait the server asked for. A failure
/// of the connection is transient only where the caller has said so. All
/// else is permanent.
pub open spec fn failure_class(err: GroqError, retry_transport_errors: bool) -> RetryClass {
    match err {
        GroqError::Api(api) => if api.status == TOO_MANY_REQUESTS {
            RetryClass::Transient { err: GroqError::RateLimited, retry_after: api.retry_after }
        } else {
            RetryClass::Permanent(err)
        },
        GroqError::Transport(_) => if retry_transport_errors {
            RetryClass::Transient { err, retry_after: None }
        } else {
            RetryClass::Permanent(err)
        },
        _ => RetryClass::Permanent(err),
    }
}

/// What the loop does about a failure of class `class`, `elapsed`
/// milliseconds into the operation: a permanent failure stops it; a
/// transient one stops it with that failure once the operation has run
/// longer than its limit, whether or not the server named a wait; before
/// that it waits as the backoff policy answers, and stops once the policy
/// gives up.
pub open spec fn decision(state: BackoffState, class: RetryClass, elapsed: u64) -> RetryDecision {
    match class {
        RetryClass::Permanent(err) => RetryDecision::Fail(err),
        RetryClass::Transient { err, retry_after } => if state.past_limit(elapsed) {
            RetryDecision::Fail(err)
        } else {
            match state.answer(retry_after, elapsed) {
                Some(wait) => RetryDecision::Retry { wait },
                None => RetryDecision::Fail(err),
            }
        },
    }
}

/// The state of the backoff policy after that decision.
pub open spec fn state_after(state: BackoffState, class: RetryClass, elapsed: u64) -> BackoffState {
    match class {
        RetryClass::Permanent(_) => state,
        RetryClass::Transient { err, retry_after } => if state.past_limit(elapsed) {
            state
        } else {
            state.after_answer(retry_after, elapsed)
        },
    }
}

/// No retry loop runs on past the limit of its policy: whatever the failure,
/// and whatever wait the server names, the loop stops once the operation has
/// run longer than its limit.
pub proof fn lemma_retry_loop_ends(
    state: BackoffState,
    err: GroqError,
    retry_transport_errors: bool,
    elapsed: u64,
)
    requires
        state.past_limit(elapsed),
    ensures
        decision(state, failure_class(err, retry_transport_errors), elapsed) is Fail,
        state_after(state, failure_class(err, retry_transport_errors), elapsed) == state,
{
}

/// A failure that is no rate limit and, unless the caller asked for it, no
/// failure of the connection, is never sent again.
pub proof fn lemma_permanent_failure_stops(
    state: BackoffState,
    err: GroqError,
    retry_transport_errors: bool,
    elapsed: u64,
)
    requires
        !(err matches GroqError::Api(api) && api.status == TOO_MANY_REQUESTS),
        !(err is Transport && retry_transport_errors),
    ensures
        decision(state, failure_class(err, retry_transport_errors), elapsed) == RetryDecision::Fail(
            err,
        ),
        state_after(state, failure_class(err, retry_transport_errors), elapsed) == state,
{
}

/// Within the limit of the policy, a response that asks to slow down and
/// names a wait is sent again after exactly that wait.
pub proof fn lemma_rate_limit_waits_as_asked(
    state: BackoffState,
    api: GroqApiError,
    retry_transport_errors: bool,
    elapsed: u64,
)
    requires
        api.status == TOO_MANY_REQUESTS,
        api.retry_after is Some,
        !state.past_limit(elapsed),
    ensures
        decision(state, failure_class(GroqError::Api(api), retry_transport_errors), elapsed)
            == (RetryDecision::Retry { wait: api.retry_after->0 }),
{
}

/// Finds the class of a failure.
pub fn classify_failure(err: GroqError, retry_transport_errors: bool) -> (r: RetryClass)
    ensures
        r == failure_class(err, retry_transport_errors),
{
    match err {
        GroqError::Api(api) => {
            if api.status == TOO_MANY_REQUESTS {
                RetryClass::Transient { err: GroqError::RateLimited, retry_after: api.retry_after }
            } else {
                RetryClass::Permanent(GroqError::Api(api))
            }
        },
        GroqError::Transport(e) => {
            if retry_transport_errors {
                RetryClass::Transient { err: GroqError::Transport(e), retry_after: None }
            } else {
                RetryClass::Permanent(GroqError::Transport(e))
            }
        },
        other => RetryClass::Permanent(other),
    }
}

/// The retry loop of one request: its own backoff policy, and whether
/// failures of the connection are sent again.
#[derive(Debug, Clone, Copy)]
pub struct RequestExecutor {
    limiter: RateLimiter,
    retry_transport_errors: bool,
}

impl RequestExecutor {
    /// The state of the backoff policy.
    pub closed spec fn backoff(&self) -> BackoffState {
        self.limiter@
    }

    /// Whether failures of the connection are sent again.
    pub closed spec fn retries_transport_errors(&self) -> bool {
        self.retry_transport_errors
    }

    /// The loop for a new request that begins when the clock of the policy
    /// reads `now`. It takes a copy of the policy, set back to its first
    /// interval, with time counting from `now`. Failures of the connection
    /// are not sent again.
    pub fn started_at(template: &RateLimiter, now: u64) -> (r: Self)
        ensures
            r.backoff() == template@.restarted_at(now),
            !r.retries_transport_errors(),
    {
        let mut limiter = *template;
        limiter.reset_at(now);
        RequestExecutor { limiter, retry_transport_errors: false }
    }

    /// The loop for a new request that begins now, by the clock of the
    /// policy.
    pub fn new(template: &RateLimiter) -> (r: Self)
        ensures
            exists|now: u64| r.backoff() == #[trigger] template@.restarted_at(now),
            !r.retries_transport_errors(),
    {
        let now = template.now();
        RequestExecutor::started_at(template, now)
    }

    /// Says whether failures of the connection are sent again.
    pub fn retry_transport_errors(self, enabled: bool) -> (r: Self)
        ensures
            r.backoff() == self.backoff(),
            r.retries_transport_errors() == enabled,
    {
        RequestExecutor { limiter: self.limiter, retry_transport_errors: enabled }
    }

    /// Decides what follows a failed attempt, `elapsed` milliseconds into the
    /// operation.
    pub fn on_failure_at(&mut self, err: GroqError, elapsed: u64) -> (r: RetryDecision)
        ensures
            r == decision(
                old(self).backoff(),
                failure_class(err, old(self).retries_transport_errors()),
                elapsed,
            ),
            final(self).backoff() == state_after(
                old(self).backoff(),
                failure_class(err, old(self).retries_transport_errors()),
                elapsed,
            ),
            final(self).retries_transport_errors() == old(self).retries_transport_errors(),
    {
        match classify_failure(err, self.retry_transport_errors) {
            RetryClass::Permanent(e) => RetryDecision::Fail(e),
            RetryClass::Transient { err, retry_after } => {
                if self.limiter.past_limit_at(elapsed) {
                    RetryDecision::Fail(err)
                } else {
                    match self.limiter.next_backoff_at(retry_after, elapsed) {
                        Some(wait) => RetryDecision::Retry { wait },
                        None => RetryDecision::Fail(err),
                    }
                }
            },
        }
    }

    /// Decides what follows a failed attempt, by the time that has passed on
    /// the clock since the loop began.
    pub fn on_failure(&mut self, err: GroqError) -> (r: RetryDecision)
        ensures
            exists|elapsed: u64|
                {
                    &&& r == #[trigger] decision(
                        old(self).backoff(),
                        failure_class(err, old(self).retries_transport_errors()),
                        elapsed,
                    )
                    &&& final(self).backoff() == state_after(
                        old(self).backoff(),
                        failure_class(err, old(self).retries_transport_errors()),
                        elapsed,
                    )
                },
            final(self).retries_transport_errors() == old(self).retries_transport_errors(),
    {
        let elapsed = self.limiter.elapsed();
        self.on_failure_at(err, elapsed)
    }
}

/// Whether an HTTP status says that the request succeeded.
pub open spec fn success_status(status: u16) -> bool {
    200 <= status < 300
}

/// Whether an HTTP status says that the request succeeded.
pub fn status_is_success(status: u16) -> (r: bool)
    ensures
        r == success_status(status),
{
    200 <= status && status < 300
}

/// What a response means: its body where the status says success, else the
/// error that the status, the body and the headers stand for.
pub fn check_response(status: u16, body: String, headers: &Vec<(String, String)>) -> (r: Result<
    String,
    GroqError,
>)
    ensures
        success_status(status) ==> r == Ok::<String, GroqError>(body),
        !success_status(status) ==> {
            &&& r matches Err(GroqError::Api(api))
            &&& api.status == status
            &&& api.error@ == details_from(body@, json_parse(body@))
            &&& api.retry_after == retry_after_of(headers_view(headers@))
            &&& opt_text(api.request_id) == header_value(headers_view(headers@), "x-request-id"@)
        },
{
    if status_is_success(status) {
        Ok(body)
    } else {
        Err(GroqError::Api(GroqApiError::from_response(status, body, headers)))
    }
}

} // verus!
