//! How requests to the judge are formed, and the retry policy used while
//! waiting for a submission's verdict.

use vstd::prelude::*;
use crate::config::Config;

verus! {

/// The path of the login request.
pub const LOGIN_PATH: &'static str = "/auth/login";

/// The path of the list of the user's courses.
pub const COURSES_PATH: &'static str = "/courses/studying";

/// The path to which submissions are sent.
pub const SOLUTIONS_PATH: &'static str = "/solutions";

/// The HTTP methods the client uses.
#[derive(Clone, Copy, Debug, PartialEq, Eq, Structural)]
pub enum HttpMethod {
    Get,
    Post,
}

/// Everything that a request to the judge is made of, before it is sent.
pub struct RequestPlan {
    pub method: HttpMethod,
    pub url: String,
    /// The request's timeout in milliseconds.
    pub timeout_ms: u64,
    /// The token sent as bearer authorisation, if any.
    pub bearer_token: Option<String>,
}

/// Forms a request: the endpoint under the judge's base address, with the
/// configured timeout, authorised by the saved token when there is one.
pub fn plan_request(config: &Config, base_url: &str, method: HttpMethod, endpoint: &str) -> (r:
    RequestPlan)
    ensures
        r.method == method,
        r.url@ == base_url@ + endpoint@,
        r.timeout_ms == config.timeout,
        r.bearer_token.deep_view() == config.access_token.deep_view(),
{
    let mut url: String = String::from_str(base_url);
    url.append(endpoint);
    let bearer_token: Option<String> = match &config.access_token {
        Some(token) => Some(token.clone()),
        None => None,
    };
    RequestPlan { method, url, timeout_ms: config.timeout, bearer_token }
}

/// What to do after a failed attempt: pause, then try again or give up.
#[derive(Clone, Copy, Debug, PartialEq, Eq, Structural)]
pub enum PollStep {
    RetryAfterPause,
    GiveUpAfterPause,
}

/// The step taken after the failure of attempt number `attempt` (counted
/// from 0) when `retries` retries are allowed.
pub open spec fn step_after_failure(attempt: nat, retries: nat) -> PollStep {
    if attempt < retries {
        PollStep::RetryAfterPause
    } else {
        PollStep::GiveUpAfterPause
    }
}

/// The retry policy of a polled request: the first attempt, then up to
/// `max_retries` more, with a pause after every failure.
pub struct Poller {
    attempts: u64,
    max_retries: u32,
}

impl Poller {
    /// The number of attempts that have failed so far.
    pub closed spec fn failed_attempts(&self) -> nat {
        self.attempts as nat
    }

    /// The number of retries allowed after the first attempt.
    pub closed spec fn retries(&self) -> nat {
        self.max_retries as nat
    }

    /// Every allowed attempt has failed.
    pub open spec fn exhausted(&self) -> bool {
        self.failed_attempts() > self.retries()
    }

    /// A policy with no failed attempt yet.
    pub fn new(max_retries: u32) -> (r: Poller)
        ensures
            r.failed_attempts() == 0,
            r.retries() == max_retries,
    {
        Poller { attempts: 0, max_retries }
    }

    /// The number of attempts that have failed so far.
    pub fn failures(&self) -> (r: u64)
        ensures
            r == self.failed_attempts(),
    {
        self.attempts
    }

    /// Records a failed attempt and tells whether to try again.
    pub fn record_failure(&mut self) -> (r: PollStep)
        requires
            !old(self).exhausted(),
        ensures
            final(self).failed_attempts() == old(self).failed_attempts() + 1,
            final(self).retries() == old(self).retries(),
            r == step_after_failure(old(self).failed_attempts(), old(self).retries()),
    {
        let attempt: u64 = self.attempts;
        self.attempts = attempt + 1;
        if attempt < self.max_retries as u64 {
            PollStep::RetryAfterPause
        } else {
            PollStep::GiveUpAfterPause
        }
    }
}

/// With `retries` retries allowed, the first `retries` failures are each
/// followed by a new attempt and the next failure ends the polling: a request
/// that always fails is made exactly `retries + 1` times.
pub proof fn lemma_attempts_until_giving_up(retries: nat, attempt: nat)
    ensures
        attempt < retries ==> step_after_failure(attempt, retries) == PollStep::RetryAfterPause,
        step_after_failure(retries, retries) == PollStep::GiveUpAfterPause,
        step_after_failure(attempt, retries) == PollStep::GiveUpAfterPause ==> attempt >= retries,
{
}

} // verus!
